//! The two ways of acquiring a panel, and what each observation yields.
use crate::codec::{decode_snapshot, decoded_snapshot};
use crate::outcome::{
    destination, destination_path, AssetView, FailureReason, FailureView, FetchView, ImageData,
    Outcome, OutcomeView, ReqImageData,
};
use crate::text::{trim, trimmed};
use vstd::prelude::*;

verus! {

/// How a panel is acquired: a bitmap snapshot taken in the session, or the
/// source URL of its image, fetched later over plain HTTP.
#[derive(Clone, Copy, Debug, PartialEq, Eq, Structural)]
pub enum ExtractionMethod {
    Bitmap,
    SourceUrl,
}

impl ExtractionMethod {
    pub open spec fn other(self) -> ExtractionMethod {
        match self {
            ExtractionMethod::Bitmap => ExtractionMethod::SourceUrl,
            ExtractionMethod::SourceUrl => ExtractionMethod::Bitmap,
        }
    }

    /// The method tried when this one finds no element.
    pub fn fallback(self) -> (r: ExtractionMethod)
        ensures
            r == self.other(),
    {
        match self {
            ExtractionMethod::Bitmap => ExtractionMethod::SourceUrl,
            ExtractionMethod::SourceUrl => ExtractionMethod::Bitmap,
        }
    }
}

/// A source attribute that is present and not empty.
pub open spec fn has_source(src: Option<String>) -> bool {
    src matches Some(s) && s@.len() > 0
}

/// Some probed image element has a non-empty source.
pub open spec fn probe_found_source(srcs: Seq<Option<String>>) -> bool {
    exists|i: int| 0 <= i < srcs.len() && has_source(#[trigger] srcs[i])
}

/// The method preferred for a job, from the source attributes of the image
/// elements found when the job starts: source URLs if any is non-empty,
/// bitmaps otherwise. The other method is the per-panel fallback.
pub fn select_strategy(srcs: &Vec<Option<String>>) -> (r: ExtractionMethod)
    ensures
        r == (if probe_found_source(srcs@) {
            ExtractionMethod::SourceUrl
        } else {
            ExtractionMethod::Bitmap
        }),
{
    let mut i: usize = 0;
    while i < srcs.len()
        invariant
            i <= srcs@.len(),
            forall|k: int| 0 <= k < i ==> !has_source(#[trigger] srcs@[k]),
        decreases srcs@.len() - i,
    {
        match &srcs[i] {
            Some(s) => {
                if s.as_str().unicode_len() > 0 {
                    assert(has_source(srcs@[i as int]));
                    return ExtractionMethod::SourceUrl;
                }
            },
            None => {},
        }
        i = i + 1;
    }
    ExtractionMethod::Bitmap
}

/// What the session saw of a panel when its wait ended.
pub enum Observation {
    /// No element for the panel.
    Missing,
    /// The element never left its loading state.
    TimedOut,
    /// The final bitmap, as a data URL.
    Snapshot(String),
    /// The final bitmap, as the image bytes of an element screenshot.
    Screenshot(Vec<u8>),
    /// The final source attribute of the panel's image.
    Source(String),
}

pub enum ObservationView {
    Missing,
    TimedOut,
    Snapshot(Seq<char>),
    Screenshot(Seq<u8>),
    Source(Seq<char>),
}

impl View for Observation {
    type V = ObservationView;

    open spec fn view(&self) -> ObservationView {
        match self {
            Observation::Missing => ObservationView::Missing,
            Observation::TimedOut => ObservationView::TimedOut,
            Observation::Snapshot(s) => ObservationView::Snapshot(s@),
            Observation::Screenshot(b) => ObservationView::Screenshot(b@),
            Observation::Source(s) => ObservationView::Source(s@),
        }
    }
}

/// The outcome of panel `index` under `dir` for what the session saw.
pub open spec fn extracted(dir: Seq<char>, index: nat, obs: ObservationView) -> OutcomeView {
    match obs {
        ObservationView::Missing => OutcomeView::Failed(FailureView::ElementNotFound),
        ObservationView::TimedOut => OutcomeView::Failed(FailureView::RenderTimeout),
        ObservationView::Snapshot(s) => match decoded_snapshot(s) {
            Ok(b) => OutcomeView::Success(AssetView { bytes: b, path: destination(dir, index) }),
            Err(e) => OutcomeView::Failed(e),
        },
        ObservationView::Screenshot(b) => OutcomeView::Success(
            AssetView { bytes: b, path: destination(dir, index) },
        ),
        ObservationView::Source(s) => if trimmed(s).len() == 0 {
            OutcomeView::Failed(FailureView::ElementNotFound)
        } else {
            OutcomeView::Pending(FetchView { url: trimmed(s), path: destination(dir, index) })
        },
    }
}

/// Turns what the session saw of panel `index` into its outcome: an asset
/// decoded from a snapshot or taken from a screenshot, a fetch queued for a source URL, or a failure.
pub fn extract_outcome(dir: &str, index: usize, obs: Observation) -> (r: Outcome)
    requires
        index < u64::MAX,
    ensures
        r@ == extracted(dir@, index as nat, obs@),
{
    match obs {
        Observation::Missing => Outcome::Failed(FailureReason::ElementNotFound),
        Observation::TimedOut => Outcome::Failed(FailureReason::RenderTimeout),
        Observation::Snapshot(s) => match decode_snapshot(s.as_str()) {
            Ok(bytes) => Outcome::Success(ImageData { bytes, path: destination_path(dir, index) }),
            Err(e) => Outcome::Failed(e),
        },
        Observation::Screenshot(bytes) => Outcome::Success(
            ImageData { bytes, path: destination_path(dir, index) },
        ),
        Observation::Source(s) => {
            let url = trim(s.as_str());
            if url.unicode_len() == 0 {
                Outcome::Failed(FailureReason::ElementNotFound)
            } else {
                Outcome::Pending(
                    ReqImageData { url: String::from_str(url), path: destination_path(dir, index) },
                )
            }
        },
    }
}

/// Extracting a panel whose snapshot does not change, a second time, gives
/// the same bytes and the same file as the first time.
pub proof fn lemma_reextraction_identical(dir: Seq<char>, index: nat, first: Seq<char>, again: Seq<char>)
    requires
        first == again,
        extracted(dir, index, ObservationView::Snapshot(first)) is Success,
    ensures
        extracted(dir, index, ObservationView::Snapshot(again)) == extracted(
            dir,
            index,
            ObservationView::Snapshot(first),
        ),
        extracted(dir, index, ObservationView::Snapshot(again)) matches OutcomeView::Success(a)
            && decoded_snapshot(first) == Ok::<Seq<u8>, FailureView>(a.bytes),
{
}

/// The failure text for a fetch of `url` that failed for `reason`.
pub open spec fn fetch_failure_detail(url: Seq<char>, reason: Seq<char>) -> Seq<char> {
    "get request failed for src url: "@ + url + "; reason: "@ + reason
}

/// The outcome of fetching a queued source URL: its bytes at the queued path,
/// or a network failure naming the URL and the cause.
pub open spec fn fetched(fetch: FetchView, result: Result<Seq<u8>, Seq<char>>) -> OutcomeView {
    match result {
        Ok(b) => OutcomeView::Success(AssetView { bytes: b, path: fetch.path }),
        Err(reason) => OutcomeView::Failed(
            FailureView::NetworkError(fetch_failure_detail(fetch.url, reason)),
        ),
    }
}

pub open spec fn fetch_result_view(r: Result<Vec<u8>, String>) -> Result<Seq<u8>, Seq<char>> {
    match r {
        Ok(b) => Ok(b@),
        Err(e) => Err(e@),
    }
}

/// Settles a queued fetch with what the HTTP request gave: the body bytes, or
/// the reason it failed (for instance its status).
pub fn resolve_fetch(fetch: ReqImageData, result: Result<Vec<u8>, String>) -> (r: Outcome)
    ensures
        r@ == fetched(fetch@, fetch_result_view(result)),
{
    match result {
        Ok(bytes) => Outcome::Success(ImageData { bytes, path: fetch.path }),
        Err(reason) => {
            let mut d = String::from_str("get request failed for src url: ");
            d.append(fetch.url.as_str());
            d.append("; reason: ");
            d.append(reason.as_str());
            Outcome::Failed(FailureReason::NetworkError(d))
        },
    }
}

} // verus!
