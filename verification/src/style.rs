//! Terminal styling of messages, done by `owo_colors`.
use owo_colors::OwoColorize;
use vstd::prelude::*;

verus! {

/// `text` in bold, as an ANSI escape sequence renders it.
pub open spec fn bold_text(text: Seq<char>) -> Seq<char> {
    "\x1b[1m"@ + text + "\x1b[0m"@
}

/// `text` in yellow.
pub open spec fn yellow_text(text: Seq<char>) -> Seq<char> {
    "\x1b[33m"@ + text + "\x1b[39m"@
}

/// `text` in green.
pub open spec fn green_text(text: Seq<char>) -> Seq<char> {
    "\x1b[32m"@ + text + "\x1b[39m"@
}

/// Renders `OwoColorize::bold`: owo_colors writes `ESC[1m`, the text, then `ESC[0m`.
#[verifier::external_body]
pub(crate) fn bold(text: &str) -> (r: String)
    ensures
        r@ == bold_text(text@),
{
    format!("{}", text.bold())
}

/// Renders `OwoColorize::yellow`: owo_colors writes `ESC[33m`, the text, then `ESC[39m`.
#[verifier::external_body]
pub(crate) fn yellow(text: &str) -> (r: String)
    ensures
        r@ == yellow_text(text@),
{
    format!("{}", text.yellow())
}

/// Renders `OwoColorize::green`: owo_colors writes `ESC[32m`, the text, then `ESC[39m`.
#[verifier::external_body]
pub(crate) fn green(text: &str) -> (r: String)
    ensures
        r@ == green_text(text@),
{
    format!("{}", text.green())
}

} // verus!
