//! Terminal styling of messages with ANSI escape sequences.
use crate::text::{contains, lower_of, seq_contains, to_lowercase};
use color_eyre::owo_colors::OwoColorize;
use vstd::prelude::*;

verus! {

/// `t` drawn in the foreground color with SGR parameter `code`.
pub open spec fn fg(code: Seq<char>, t: Seq<char>) -> Seq<char> {
    seq!['\x1b', '['] + code + seq!['m'] + t + seq!['\x1b', '[', '3', '9', 'm']
}

pub open spec fn purple_of(t: Seq<char>) -> Seq<char> {
    fg(seq!['3', '5'], t)
}

pub open spec fn white_of(t: Seq<char>) -> Seq<char> {
    fg(seq!['3', '7'], t)
}

pub open spec fn red_of(t: Seq<char>) -> Seq<char> {
    fg(seq!['3', '1'], t)
}

pub open spec fn green_of(t: Seq<char>) -> Seq<char> {
    fg(seq!['3', '2'], t)
}

pub open spec fn bright_red_of(t: Seq<char>) -> Seq<char> {
    fg(seq!['9', '1'], t)
}

/// `t` in bold.
pub open spec fn bold_of(t: Seq<char>) -> Seq<char> {
    seq!['\x1b', '[', '1', 'm'] + t + seq!['\x1b', '[', '0', 'm']
}

/// Relies on owo_colors' `purple`: the magenta foreground code, the text, the default foreground code.
#[verifier::external_body]
pub(crate) fn purple(t: &str) -> (r: String)
    ensures
        r@ == purple_of(t@),
{
    t.purple().to_string()
}

/// Relies on owo_colors' `white`: the white foreground code, the text, the default foreground code.
#[verifier::external_body]
pub(crate) fn white(t: &str) -> (r: String)
    ensures
        r@ == white_of(t@),
{
    t.white().to_string()
}

/// Relies on owo_colors' `red`: the red foreground code, the text, the default foreground code.
#[verifier::external_body]
pub(crate) fn red(t: &str) -> (r: String)
    ensures
        r@ == red_of(t@),
{
    t.red().to_string()
}

/// Relies on owo_colors' `green`: the green foreground code, the text, the default foreground code.
#[verifier::external_body]
pub(crate) fn green(t: &str) -> (r: String)
    ensures
        r@ == green_of(t@),
{
    t.green().to_string()
}

/// Relies on owo_colors' `bright_red`: the bright red foreground code, the text, the default
/// foreground code.
#[verifier::external_body]
pub(crate) fn bright_red(t: &str) -> (r: String)
    ensures
        r@ == bright_red_of(t@),
{
    t.bright_red().to_string()
}

/// Relies on owo_colors' `bold`: the bold code, the text, the reset code.
#[verifier::external_body]
pub(crate) fn bold(t: &str) -> (r: String)
    ensures
        r@ == bold_of(t@),
{
    t.bold().to_string()
}

/// The style picked from what a text holds: a site path in purple, another
/// path in bold white, an error in bold red, anything else in green.
/// `lowered` is the text in lower case.
pub open spec fn auto_style(t: Seq<char>, lowered: Seq<char>) -> Seq<char> {
    if seq_contains(t, seq!['.', 't', 'o']) && seq_contains(t, seq!['/']) {
        purple_of(t)
    } else if seq_contains(t, seq!['/']) {
        bold_of(white_of(t))
    } else if seq_contains(lowered, seq!['e', 'r', 'r', 'o', 'r']) {
        bold_of(red_of(t))
    } else {
        green_of(t)
    }
}

/// The automatic style of `t`.
pub open spec fn styled(t: Seq<char>) -> Seq<char> {
    auto_style(t, lower_of(t))
}

/// Styles `t` by what it holds, given `lowered`, the text in lower case.
pub fn style_text_lowered(t: &str, lowered: &str) -> (r: String)
    ensures
        r@ == auto_style(t@, lowered@),
{
    proof {
        reveal_strlit(".to");
        reveal_strlit("/");
        reveal_strlit("error");
        assert(".to"@ =~= seq!['.', 't', 'o']);
        assert("/"@ =~= seq!['/']);
        assert("error"@ =~= seq!['e', 'r', 'r', 'o', 'r']);
    }
    let slash = contains(t, "/");
    if contains(t, ".to") && slash {
        purple(t)
    } else if slash {
        let w = white(t);
        bold(w.as_str())
    } else if contains(lowered, "error") {
        let e = red(t);
        bold(e.as_str())
    } else {
        green(t)
    }
}

/// Styles `t` by what it holds.
pub fn style_text(t: &str) -> (r: String)
    ensures
        r@ == styled(t@),
{
    let lowered = to_lowercase(t);
    style_text_lowered(t, lowered.as_str())
}

} // verus!
