//! Deciding, one probe at a time, whether a panel holds its final content.
use crate::text::{contains, same_text, seq_contains, trim, trimmed};
use vstd::prelude::*;

verus! {

/// The longest wait for one panel in the first pass, in milliseconds; the
/// retry pass waits twice as long.
pub const PANEL_WAIT_MS: u32 = 5000;

/// The longest wait for one source-URL fetch after the session work, in milliseconds.
pub const FETCH_TIMEOUT_MS: u64 = 2500;

/// Pause between two probes of a panel, in milliseconds.
pub const POLL_INTERVAL_MS: u64 = 200;

/// Pause after a bitmap first differs from the placeholder, for the final paint.
pub const SETTLE_DELAY_MS: u64 = 350;

/// Rendered width, in pixels, that a loaded panel exceeds and a loading icon does not.
pub const MIN_PANEL_WIDTH_PX: u64 = 300;

/// What to do after one probe of a panel.
#[derive(Clone, Copy, Debug, PartialEq, Eq, Structural)]
pub enum PollStep {
    /// The content is final; wait `settle_ms` before reading it.
    Ready { settle_ms: u64 },
    /// Not yet; probe again after `sleep_ms`.
    Wait { sleep_ms: u64 },
    /// The wait is over and the panel is still loading.
    TimedOut,
    /// The wait is over and the panel has no source at all.
    Missing,
}

/// The step after a probe that found the panel `ready` (or not) `elapsed` ms
/// into a wait of at most `max_wait` ms.
pub open spec fn poll_step(ready: bool, settle: u64, elapsed: u64, max_wait: u64) -> PollStep {
    if ready {
        PollStep::Ready { settle_ms: settle }
    } else if elapsed >= max_wait {
        PollStep::TimedOut
    } else {
        PollStep::Wait { sleep_ms: POLL_INTERVAL_MS }
    }
}

/// The step after a bitmap probe: ready once the snapshot differs from the placeholder.
pub open spec fn bitmap_step(
    snapshot: Seq<char>,
    placeholder: Seq<char>,
    elapsed: u64,
    max_wait: u64,
) -> PollStep {
    poll_step(snapshot != placeholder, SETTLE_DELAY_MS, elapsed, max_wait)
}

/// A panel's source attribute that is final: present, not blank, not a
/// loading animation, on an element wider than a loading icon.
pub open spec fn source_is_final(src: Option<Seq<char>>, width_px: u64) -> bool {
    src matches Some(s) && trimmed(s).len() > 0 && !seq_contains(s, "gif"@) && width_px
        > MIN_PANEL_WIDTH_PX
}

/// The step after a source-attribute probe; a wait that ends with no usable
/// source at all reports the panel missing.
pub open spec fn source_step(src: Option<Seq<char>>, width_px: u64, elapsed: u64, max_wait: u64) -> PollStep {
    if !source_is_final(src, width_px) && elapsed >= max_wait && !(src matches Some(s)
        && trimmed(s).len() > 0) {
        PollStep::Missing
    } else {
        poll_step(source_is_final(src, width_px), 0, elapsed, max_wait)
    }
}

pub open spec fn str_opt_view(src: Option<&str>) -> Option<Seq<char>> {
    match src {
        Some(s) => Some(s@),
        None => None,
    }
}

fn decide(ready: bool, settle: u64, elapsed_ms: u64, max_wait_ms: u64) -> (r: PollStep)
    ensures
        r == poll_step(ready, settle, elapsed_ms, max_wait_ms),
{
    if ready {
        PollStep::Ready { settle_ms: settle }
    } else if elapsed_ms >= max_wait_ms {
        PollStep::TimedOut
    } else {
        PollStep::Wait { sleep_ms: POLL_INTERVAL_MS }
    }
}

/// Judges a bitmap snapshot taken `elapsed_ms` into a wait of at most
/// `max_wait_ms`, against the placeholder's snapshot. It times out only once
/// the whole wait has passed.
pub fn bitmap_poll(snapshot: &str, placeholder: &str, elapsed_ms: u64, max_wait_ms: u64) -> (r:
    PollStep)
    ensures
        r == bitmap_step(snapshot@, placeholder@, elapsed_ms, max_wait_ms),
        r == PollStep::TimedOut ==> elapsed_ms >= max_wait_ms,
{
    decide(!same_text(snapshot, placeholder), SETTLE_DELAY_MS, elapsed_ms, max_wait_ms)
}

/// Judges a panel's source attribute and rendered width, read `elapsed_ms`
/// into a wait of at most `max_wait_ms`.
pub fn source_poll(src: Option<&str>, width_px: u64, elapsed_ms: u64, max_wait_ms: u64) -> (r:
    PollStep)
    ensures
        r == source_step(str_opt_view(src), width_px, elapsed_ms, max_wait_ms),
        (r == PollStep::TimedOut || r == PollStep::Missing) ==> elapsed_ms >= max_wait_ms,
{
    proof {
        reveal_strlit("gif");
    }
    let present = match src {
        Some(s) => trim(s).unicode_len() > 0,
        None => false,
    };
    let ready = match src {
        Some(s) => present && !contains(s, "gif") && width_px > MIN_PANEL_WIDTH_PX,
        None => false,
    };
    if !ready && elapsed_ms >= max_wait_ms && !present {
        PollStep::Missing
    } else {
        decide(ready, 0, elapsed_ms, max_wait_ms)
    }
}

/// A wait that only ever sees the placeholder keeps waiting while less than
/// the maximum wait has passed, and times out once it has.
pub proof fn lemma_placeholder_wait_times_out(placeholder: Seq<char>, elapsed: u64, max_wait: u64)
    ensures
        elapsed < max_wait ==> bitmap_step(placeholder, placeholder, elapsed, max_wait)
            == (PollStep::Wait { sleep_ms: POLL_INTERVAL_MS }),
        elapsed >= max_wait ==> bitmap_step(placeholder, placeholder, elapsed, max_wait)
            == PollStep::TimedOut,
{
}

} // verus!
