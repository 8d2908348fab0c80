//! What one extraction attempt, or the whole job, yields for a panel.
use crate::text::decimal;
use vstd::prelude::*;

verus! {

/// Why a panel could not be acquired.
pub enum FailureReason {
    /// The panel's element was absent when the wait ended.
    ElementNotFound,
    /// The panel never left its loading state within the wait.
    RenderTimeout,
    /// The snapshot was not a base64 image data URL.
    InvalidEncoding,
    /// Fetching the panel's source URL failed; the text names the URL and the cause.
    NetworkError(String),
}

pub enum FailureView {
    ElementNotFound,
    RenderTimeout,
    InvalidEncoding,
    NetworkError(Seq<char>),
}

impl View for FailureReason {
    type V = FailureView;

    open spec fn view(&self) -> FailureView {
        match self {
            FailureReason::ElementNotFound => FailureView::ElementNotFound,
            FailureReason::RenderTimeout => FailureView::RenderTimeout,
            FailureReason::InvalidEncoding => FailureView::InvalidEncoding,
            FailureReason::NetworkError(d) => FailureView::NetworkError(d@),
        }
    }
}

impl FailureView {
    pub open spec fn message(self) -> Seq<char> {
        match self {
            FailureView::ElementNotFound => "panel element not found"@,
            FailureView::RenderTimeout => "panel did not finish rendering in time"@,
            FailureView::InvalidEncoding => "panel snapshot is not a base64 image data url"@,
            FailureView::NetworkError(d) => d,
        }
    }
}

/// Which failures are transient, worth one more attempt in the retry pass.
/// Invalid encodings and network errors are always final.
#[derive(Clone, Copy, Debug, PartialEq, Eq, Structural)]
pub struct RetryPolicy {
    pub element_not_found: bool,
    pub render_timeout: bool,
}

impl RetryPolicy {
    pub open spec fn retries(self, f: FailureView) -> bool {
        match f {
            FailureView::ElementNotFound => self.element_not_found,
            FailureView::RenderTimeout => self.render_timeout,
            _ => false,
        }
    }

    /// The usual policy: a missing element and a render timeout are both transient.
    pub fn transient_default() -> (r: RetryPolicy)
        ensures
            r == (RetryPolicy { element_not_found: true, render_timeout: true }),
    {
        RetryPolicy { element_not_found: true, render_timeout: true }
    }

    /// Whether `f` gets one more attempt under this policy.
    pub fn retries_failure(&self, f: &FailureReason) -> (r: bool)
        ensures
            r == self.retries(f@),
    {
        match f {
            FailureReason::ElementNotFound => self.element_not_found,
            FailureReason::RenderTimeout => self.render_timeout,
            _ => false,
        }
    }
}

impl FailureReason {
    /// The text recorded for the failure.
    pub fn message(&self) -> (r: String)
        ensures
            r@ == self@.message(),
    {
        match self {
            FailureReason::ElementNotFound => String::from_str("panel element not found"),
            FailureReason::RenderTimeout => String::from_str(
                "panel did not finish rendering in time",
            ),
            FailureReason::InvalidEncoding => String::from_str(
                "panel snapshot is not a base64 image data url",
            ),
            FailureReason::NetworkError(d) => d.clone(),
        }
    }

    /// A copy of the failure.
    pub fn duplicate(&self) -> (r: FailureReason)
        ensures
            r@ == self@,
    {
        match self {
            FailureReason::ElementNotFound => FailureReason::ElementNotFound,
            FailureReason::RenderTimeout => FailureReason::RenderTimeout,
            FailureReason::InvalidEncoding => FailureReason::InvalidEncoding,
            FailureReason::NetworkError(d) => FailureReason::NetworkError(d.clone()),
        }
    }
}

/// The bytes of a panel and the file they go to.
pub struct ImageData {
    pub bytes: Vec<u8>,
    pub path: String,
}

pub struct AssetView {
    pub bytes: Seq<u8>,
    pub path: Seq<char>,
}

impl View for ImageData {
    type V = AssetView;

    open spec fn view(&self) -> AssetView {
        AssetView { bytes: self.bytes@, path: self.path@ }
    }
}

/// A panel's source URL and the file its bytes go to, fetched after the session work ends.
pub struct ReqImageData {
    pub url: String,
    pub path: String,
}

pub struct FetchView {
    pub url: Seq<char>,
    pub path: Seq<char>,
}

impl View for ReqImageData {
    type V = FetchView;

    open spec fn view(&self) -> FetchView {
        FetchView { url: self.url@, path: self.path@ }
    }
}

/// What is known of one panel.
pub enum Outcome {
    Success(ImageData),
    Pending(ReqImageData),
    Failed(FailureReason),
}

pub enum OutcomeView {
    Success(AssetView),
    Pending(FetchView),
    Failed(FailureView),
}

impl View for Outcome {
    type V = OutcomeView;

    open spec fn view(&self) -> OutcomeView {
        match self {
            Outcome::Success(a) => OutcomeView::Success(a@),
            Outcome::Pending(p) => OutcomeView::Pending(p@),
            Outcome::Failed(f) => OutcomeView::Failed(f@),
        }
    }
}

impl OutcomeView {
    /// A failure that one more attempt may mend, under `policy`.
    pub open spec fn is_retryable_failure(self, policy: RetryPolicy) -> bool {
        self matches OutcomeView::Failed(f) && policy.retries(f)
    }
}

/// The file a panel goes to: `<dir>/<index + 1>.jpg`.
pub open spec fn destination(dir: Seq<char>, index: nat) -> Seq<char> {
    dir + seq!['/'] + decimal(index + 1) + seq!['.', 'j', 'p', 'g']
}

/// The file that panel `index` is written to under `dir`, numbered from one.
pub fn destination_path(dir: &str, index: usize) -> (r: String)
    requires
        index < u64::MAX,
    ensures
        r@ == destination(dir@, index as nat),
{
    proof {
        reveal_strlit("/");
        reveal_strlit(".jpg");
        assert("/"@ =~= seq!['/']);
        assert(".jpg"@ =~= seq!['.', 'j', 'p', 'g']);
    }
    let mut r = String::from_str(dir);
    r.append("/");
    let n = crate::text::to_decimal(index as u64 + 1);
    r.append(n.as_str());
    r.append(".jpg");
    r
}

} // verus!
