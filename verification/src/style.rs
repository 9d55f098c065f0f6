//! Terminal styling of message fragments, done by the `owo-colors` crate.

use owo_colors::OwoColorize;
use vstd::prelude::*;

verus! {

/// `s` between the escape sequences that switch bold on and all styles off.
pub open spec fn bold_text(s: Seq<char>) -> Seq<char> {
    seq!['\u{1b}', '[', '1', 'm'] + s + seq!['\u{1b}', '[', '0', 'm']
}

/// `s` between the escape sequences for a green and for the default foreground.
pub open spec fn green_text(s: Seq<char>) -> Seq<char> {
    seq!['\u{1b}', '[', '3', '2', 'm'] + s + seq!['\u{1b}', '[', '3', '9', 'm']
}

/// `s` between the escape sequences for a red and for the default foreground.
pub open spec fn red_text(s: Seq<char>) -> Seq<char> {
    seq!['\u{1b}', '[', '3', '1', 'm'] + s + seq!['\u{1b}', '[', '3', '9', 'm']
}

/// Formats `s` through `OwoColorize::bold`. Trusted: the crate's `Display`
/// impl for `BoldDisplay` writes `ESC[1m`, then the text, then `ESC[0m`.
#[verifier::external_body]
pub(crate) fn bold(s: &str) -> (r: String)
    ensures
        r@ == bold_text(s@),
{
    format!("{}", s.bold())
}

/// Formats `s` through `OwoColorize::green`. Trusted: the crate's `Display`
/// impl for `FgColorDisplay` writes the colour's code, here `ESC[32m`, then
/// the text, then `ESC[39m`.
#[verifier::external_body]
pub(crate) fn green(s: &str) -> (r: String)
    ensures
        r@ == green_text(s@),
{
    format!("{}", s.green())
}

/// Formats `s` through `OwoColorize::red`. Trusted: as for green, with the
/// code `ESC[31m`.
#[verifier::external_body]
pub(crate) fn red(s: &str) -> (r: String)
    ensures
        r@ == red_text(s@),
{
    format!("{}", s.red())
}

} // verus!
