//! Rendering the login page: a pure function from the pending flash
//! messages to the page's HTML.

use vstd::prelude::*;
use vstd::string::StringExecFns;

verus! {

/// The HTML block rendering one flash message.
pub open spec fn message_block(m: Seq<char>) -> Seq<char> {
    "<p><i>"@ + m + "</i></p>\n"@
}

/// The HTML rendering a list of flash messages, in order.
pub open spec fn messages_html(ms: Seq<Seq<char>>) -> Seq<char>
    decreases ms.len(),
{
    if ms.len() == 0 {
        Seq::empty()
    } else {
        messages_html(ms.drop_last()) + message_block(ms.last())
    }
}

/// The whole login page: the document head, the rendered flash messages,
/// then the login form.
pub open spec fn login_page(ms: Seq<Seq<char>>) -> Seq<char> {
    r#"<!DOCTYPE html>
<html lang="en">
    <head>
        <meta http-equiv="content-type" content="text/html; charset=utf-8">
        <title>Login</title>
    </head>
    <body>
"#@ + messages_html(ms)
        + r#"        <form action="/login" method="post">
            <label>
                Username
                <input type="text" name="username" placeholder="Enter username">
            </label>
            <label>
                Password
                <input type="password" name="password" placeholder="Enter password">
            </label>
            <input type="submit" value="Login">
        </form>
    </body>
</html>
"#@
}

/// Renders the login page with the given flash messages shown above the
/// form, exactly as [`login_page`] lays it out.
pub fn login_form(messages: &Vec<String>) -> (page: String)
    ensures
        page@ == login_page(messages@.map_values(|m: String| m@)),
{
    let ghost ms = messages@.map_values(|m: String| m@);
    let mut page = String::new();
    page.append(
        r#"<!DOCTYPE html>
<html lang="en">
    <head>
        <meta http-equiv="content-type" content="text/html; charset=utf-8">
        <title>Login</title>
    </head>
    <body>
"#,
    );
    let ghost head = page@;
    let mut i: usize = 0;
    while i < messages.len()
        invariant
            0 <= i <= messages@.len(),
            ms == messages@.map_values(|m: String| m@),
            ms.len() == messages@.len(),
            page@ == head + messages_html(ms.take(i as int)),
        decreases messages@.len() - i,
    {
        proof {
            assert(ms.take(i + 1).drop_last() =~= ms.take(i as int));
            assert(ms.take(i + 1).last() == ms[i as int]);
        }
        page.append("<p><i>");
        page.append(messages[i].as_str());
        page.append("</i></p>\n");
        proof {
            assert(page@ =~= head + messages_html(ms.take(i + 1)));
        }
        i += 1;
    }
    proof {
        assert(ms.take(ms.len() as int) =~= ms);
    }
    page.append(
        r#"        <form action="/login" method="post">
            <label>
                Username
                <input type="text" name="username" placeholder="Enter username">
            </label>
            <label>
                Password
                <input type="password" name="password" placeholder="Enter password">
            </label>
            <input type="submit" value="Login">
        </form>
    </body>
</html>
"#,
    );
    proof {
        assert(page@ =~= login_page(ms));
    }
    page
}

} // verus!
