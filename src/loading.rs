//! Progress and warning messages.
use crate::style::{bold, bold_of, bright_red, bright_red_of, purple, purple_of, style_text, styled};
use crate::text::{decimal, to_decimal};
use vstd::prelude::*;

verus! {

/// `i + 1 / max`, both numbers in purple: the panel being downloaded, counted from one.
pub fn downloading_panel_data_msg(i: u16, max: u16) -> (r: String)
    requires
        i < u16::MAX,
    ensures
        r@ == purple_of(decimal(i as nat + 1)) + " / "@ + purple_of(decimal(max as nat)),
{
    let n = to_decimal(i as u64 + 1);
    let mut r = purple(n.as_str());
    r.append(" / ");
    let m = to_decimal(max as u64);
    let p = purple(m.as_str());
    r.append(p.as_str());
    r
}

/// The note shown while image bytes are fetched.
pub fn fetching_img_bytes() -> (r: String)
    ensures
        r@ == styled("fetching img bytes"@),
{
    style_text("fetching img bytes")
}

/// The warning that `len` panels failed and get one more try.
pub fn indexes_failed_msg(len: usize) -> (r: String)
    ensures
        r@ == bold_of(bright_red_of("WARNING"@)) + ": "@ + bold_of(decimal(len as nat)) + " "@
            + bright_red_of("panels failed; trying once"@),
{
    let w = bright_red("WARNING");
    let mut r = bold(w.as_str());
    r.append(": ");
    let n = to_decimal(len as u64);
    let b = bold(n.as_str());
    r.append(b.as_str());
    r.append(" ");
    let tail = bright_red("panels failed; trying once");
    r.append(tail.as_str());
    r
}

/// The warning that `count` errors occurred on the chapter shown as `title`.
pub fn reqerr_count_msg(count: usize, title: &str) -> (r: String)
    ensures
        r@ == bold_of(bright_red_of("\nWARNING"@)) + ": "@ + bold_of(decimal(count as nat)) + " "@
            + bright_red_of("error(s) occured; failed on"@) + ": "@ + bold_of(title@) + "."@,
{
    let w = bright_red("\nWARNING");
    let mut r = bold(w.as_str());
    r.append(": ");
    let n = to_decimal(count as u64);
    let b = bold(n.as_str());
    r.append(b.as_str());
    r.append(" ");
    let mid = bright_red("error(s) occured; failed on");
    r.append(mid.as_str());
    r.append(": ");
    let t = bold(title);
    r.append(t.as_str());
    r.append(".");
    r
}

/// The time a download took, in purple.
pub fn download_complete_msg(elapsed: &str) -> (r: String)
    ensures
        r@ == purple_of(elapsed@),
{
    purple(elapsed)
}

} // verus!
