use idempotency::confirm::{confirm_decision, confirm_status, ConfirmAction, SubscriptionConfirmError};
use idempotency::key::IdempotencyKey;
use idempotency::login::login_form;
use idempotency::newsletter::{confirmed_recipients, summarize_dispatch, DispatchSummary, FormData};

#[test]
fn recipients_skip_unparsable_rows() {
    let rows = vec![
        Ok("a@example.com".to_string()),
        Err("missing at sign".to_string()),
        Ok("b@example.com".to_string()),
        Err("empty".to_string()),
    ];
    let (recipients, skipped) = confirmed_recipients(&rows);
    assert_eq!(
        recipients,
        vec!["a@example.com".to_string(), "b@example.com".to_string()]
    );
    assert_eq!(skipped, 2);
}

#[test]
fn recipients_of_empty_table() {
    let rows: Vec<Result<String, String>> = Vec::new();
    let (recipients, skipped) = confirmed_recipients(&rows);
    assert!(recipients.is_empty());
    assert_eq!(skipped, 0);
}

#[test]
fn dispatch_summary_counts_outcomes() {
    let outcomes = vec![
        Ok(()),
        Err("mailbox full".to_string()),
        Ok(()),
        Ok(()),
    ];
    assert_eq!(
        summarize_dispatch(&outcomes),
        DispatchSummary { delivered: 3, failed: 1 }
    );
}

#[test]
fn newsletter_form_carries_its_content() {
    let form = FormData {
        title: "Issue 1".to_string(),
        text_content: "plain".to_string(),
        html_content: "<b>rich</b>".to_string(),
    };
    assert_eq!(form.title, "Issue 1");
    assert_eq!(form.text_content, "plain");
    assert_eq!(form.html_content, "<b>rich</b>");
}

#[test]
fn unknown_token_is_rejected() {
    let action = confirm_decision(None);
    assert_eq!(action, ConfirmAction::RejectUnauthorized);
    assert_eq!(confirm_status(&action), 401);
}

#[test]
fn known_token_confirms_its_subscriber() {
    let action = confirm_decision(Some(42));
    assert_eq!(action, ConfirmAction::MarkConfirmed(42));
    assert_eq!(confirm_status(&action), 200);
}

#[test]
fn confirm_error_reports_500_with_its_cause() {
    let error = SubscriptionConfirmError::UnexpectedError("database gone".to_string());
    assert_eq!(error.status_code(), 500);
    assert_eq!(error.message(), "database gone");
}

#[test]
fn login_page_without_messages() {
    let page = login_form(&Vec::new());
    assert!(page.starts_with("<!DOCTYPE html>"));
    assert!(!page.contains("<p><i>"));
    assert!(page.contains(r#"<form action="/login" method="post">"#));
}

#[test]
fn login_page_renders_each_message_in_order() {
    let messages = vec![
        "Authentication failed".to_string(),
        "Try again".to_string(),
    ];
    let page = login_form(&messages);
    let first = page.find("<p><i>Authentication failed</i></p>").unwrap();
    let second = page.find("<p><i>Try again</i></p>").unwrap();
    assert!(first < second);
    let body = page.find("<body>").unwrap();
    let form = page.find("<form").unwrap();
    assert!(body < first && second < form);
}

#[test]
fn key_accessors_expose_string_and_bytes() {
    let key = IdempotencyKey::validate("abc-123".to_string()).unwrap();
    assert_eq!(key.as_str(), "abc-123");
    assert_eq!(key.as_storage_bytes(), b"abc-123".to_vec());
    let same = IdempotencyKey::validate("abc-123".to_string()).unwrap();
    let other = IdempotencyKey::validate("abc-124".to_string()).unwrap();
    assert!(key.same_as(&same));
    assert!(!key.same_as(&other));
}
