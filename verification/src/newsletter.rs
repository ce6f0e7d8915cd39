//! Publishing a newsletter issue: the pure part of the fan-out.
//!
//! The issue is sent to every confirmed subscriber. A stored contact that
//! cannot be parsed is skipped — one bad row must not abort the whole
//! batch — and per-recipient delivery outcomes are aggregated rather than
//! cutting the batch short, since the idempotency guarantee covers the
//! batch as a whole, not each recipient.

use vstd::prelude::*;

verus! {

/// The content of one newsletter issue, as submitted by the author.
#[derive(Debug)]
pub struct FormData {
    pub title: String,
    pub text_content: String,
    pub html_content: String,
}

/// How a batch went: how many issues were handed to the transport and how
/// many recipients failed individually.
#[derive(Clone, Copy, Debug, PartialEq, Eq, Structural)]
pub struct DispatchSummary {
    pub delivered: usize,
    pub failed: usize,
}

/// The addresses of the rows that parsed, in table order.
pub open spec fn parsed_addresses(rows: Seq<Result<String, String>>) -> Seq<String>
    decreases rows.len(),
{
    if rows.len() == 0 {
        Seq::empty()
    } else {
        parsed_addresses(rows.drop_last()) + (match rows.last() {
            Ok(email) => seq![email],
            Err(_) => Seq::empty(),
        })
    }
}

/// How many of the outcomes succeeded.
pub open spec fn success_count<T, E>(outcomes: Seq<Result<T, E>>) -> int
    decreases outcomes.len(),
{
    if outcomes.len() == 0 {
        0
    } else {
        success_count(outcomes.drop_last()) + (if outcomes.last() is Ok {
            1int
        } else {
            0int
        })
    }
}

/// Splits the stored subscriber rows into the addresses the issue goes to
/// and the number of rows skipped because their contact details did not
/// parse. Skipping is per row: no row aborts the batch.
pub fn confirmed_recipients(rows: &Vec<Result<String, String>>) -> (out: (Vec<String>, usize))
    ensures
        out.0@ == parsed_addresses(rows@),
        out.0@.len() == success_count(rows@),
        out.1 == rows@.len() - success_count(rows@),
{
    let mut recipients: Vec<String> = Vec::new();
    let mut skipped: usize = 0;
    let mut i: usize = 0;
    while i < rows.len()
        invariant
            0 <= i <= rows@.len(),
            recipients@ == parsed_addresses(rows@.take(i as int)),
            recipients@.len() == success_count(rows@.take(i as int)),
            skipped == i - success_count(rows@.take(i as int)),
        decreases rows@.len() - i,
    {
        proof {
            assert(rows@.take(i + 1).drop_last() =~= rows@.take(i as int));
            assert(rows@.take(i + 1).last() == rows@[i as int]);
        }
        match &rows[i] {
            Ok(email) => {
                recipients.push(email.clone());
                proof {
                    assert(recipients@ =~= parsed_addresses(rows@.take(i + 1)));
                }
            },
            Err(_) => {
                skipped += 1;
                proof {
                    assert(recipients@ =~= parsed_addresses(rows@.take(i + 1)));
                }
            },
        }
        i += 1;
    }
    proof {
        assert(rows@.take(rows@.len() as int) =~= rows@);
    }
    (recipients, skipped)
}

/// Aggregates the per-recipient delivery outcomes of one batch: individual
/// failures are counted, not propagated, and never cut the batch short.
pub fn summarize_dispatch(outcomes: &Vec<Result<(), String>>) -> (summary: DispatchSummary)
    ensures
        summary.delivered == success_count(outcomes@),
        summary.failed == outcomes@.len() - success_count(outcomes@),
{
    let mut delivered: usize = 0;
    let mut i: usize = 0;
    while i < outcomes.len()
        invariant
            0 <= i <= outcomes@.len(),
            delivered == success_count(outcomes@.take(i as int)),
            delivered <= i,
        decreases outcomes@.len() - i,
    {
        proof {
            assert(outcomes@.take(i + 1).drop_last() =~= outcomes@.take(i as int));
            assert(outcomes@.take(i + 1).last() == outcomes@[i as int]);
        }
        if outcomes[i].is_ok() {
            delivered += 1;
        }
        i += 1;
    }
    proof {
        assert(outcomes@.take(outcomes@.len() as int) =~= outcomes@);
    }
    DispatchSummary { delivered, failed: outcomes.len() - delivered }
}

} // verus!
