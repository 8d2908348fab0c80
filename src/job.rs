//! One chapter job: a first pass over every panel, one retry pass over the
//! transient failures, and the outcome table both passes fill.
use crate::extraction::{fetch_result_view, fetched, resolve_fetch, ExtractionMethod};
use crate::outcome::{
    FailureReason, FailureView, ImageData, Outcome, OutcomeView, ReqImageData, RetryPolicy,
};
use vstd::prelude::*;

verus! {

/// Where a job stands.
#[derive(Clone, Copy, Debug, PartialEq, Eq, Structural)]
pub enum Phase {
    /// Visiting every panel once.
    FirstPass,
    /// Back to the first panel before the retry pass.
    Renavigate,
    /// Visiting every panel again, re-attempting only those in the retry set.
    SecondPass,
    /// Both passes are over.
    Done,
}

/// Where the job stands on the current panel.
#[derive(Clone, Copy, Debug, PartialEq, Eq, Structural)]
pub enum Step {
    /// Try the preferred method.
    Preferred,
    /// The preferred method found no element: try the other one.
    Fallback,
    /// Done with this panel: move the reader to the next one.
    Advance,
}

/// What the session should do next for the job.
#[derive(Clone, Copy, Debug, PartialEq, Eq, Structural)]
pub enum JobAction {
    /// Extract panel `index` with `method`, waiting at most `timeout_ms`.
    Extract { index: usize, method: ExtractionMethod, timeout_ms: u64 },
    /// Move the reader past panel `index` without extracting anything more.
    Advance { index: usize },
    /// Load the chapter's URL again, which brings the reader back to panel 0.
    Renavigate,
    /// Nothing is left to do in the session.
    Finished,
}

/// An entry of the outcome table that the retry pass takes up under `policy`.
pub open spec fn retryable_entry(policy: RetryPolicy, e: Option<OutcomeView>) -> bool {
    match e {
        Some(o) => o.is_retryable_failure(policy),
        None => false,
    }
}

/// An entry of the outcome table that holds an image or a queued fetch.
pub open spec fn acquired_entry(e: Option<OutcomeView>) -> bool {
    match e {
        Some(OutcomeView::Success(_)) => true,
        Some(OutcomeView::Pending(_)) => true,
        _ => false,
    }
}

pub open spec fn pending_entry(e: Option<OutcomeView>) -> bool {
    e matches Some(OutcomeView::Pending(_))
}

pub open spec fn opt_outcome(o: Option<Outcome>) -> Option<OutcomeView> {
    match o {
        Some(x) => Some(x@),
        None => None,
    }
}

/// The acquisition of one chapter: its directory, its panel count, and the
/// outcome of each panel, filled by the two passes.
pub struct ChapterJob {
    dir: String,
    total: usize,
    timeout_ms: u32,
    preferred: ExtractionMethod,
    policy: RetryPolicy,
    outcomes: Vec<Option<Outcome>>,
    retry: Vec<bool>,
    phase: Phase,
    step: Step,
    cursor: usize,
    first_pass: Ghost<Seq<Option<OutcomeView>>>,
}

impl ChapterJob {
    pub closed spec fn dir(&self) -> Seq<char> {
        self.dir@
    }

    /// The number of panels, read once before the first pass.
    pub closed spec fn total(&self) -> nat {
        self.total as nat
    }

    /// The wait per panel in the first pass; the retry pass waits twice as long.
    pub closed spec fn timeout(&self) -> u32 {
        self.timeout_ms
    }

    pub closed spec fn preferred(&self) -> ExtractionMethod {
        self.preferred
    }

    /// Which failures the retry pass takes up.
    pub closed spec fn policy(&self) -> RetryPolicy {
        self.policy
    }

    /// The outcome table: one entry per panel index, empty until the panel is attempted.
    pub closed spec fn table(&self) -> Seq<Option<OutcomeView>> {
        self.outcomes@.map_values(|o: Option<Outcome>| opt_outcome(o))
    }

    /// Membership of each index in the retry set.
    pub closed spec fn retry_flags(&self) -> Seq<bool> {
        self.retry@
    }

    /// The outcome table as the first pass left it.
    pub closed spec fn first_pass(&self) -> Seq<Option<OutcomeView>> {
        self.first_pass@
    }

    pub closed spec fn phase(&self) -> Phase {
        self.phase
    }

    pub closed spec fn step(&self) -> Step {
        self.step
    }

    /// The panel the reader is on.
    pub closed spec fn cursor(&self) -> nat {
        self.cursor as nat
    }

    /// The indices that the retry pass re-attempts.
    pub open spec fn retry_set(&self) -> Set<int> {
        Set::new(|i: int| 0 <= i < self.total() && self.retry_flags()[i])
    }

    /// The step on arriving at panel `i` in a pass.
    pub open spec fn arrival_step(&self, phase: Phase, i: int) -> Step {
        if phase == Phase::FirstPass || self.retry_flags()[i] {
            Step::Preferred
        } else {
            Step::Advance
        }
    }

    pub open spec fn pass_timeout(&self) -> u64 {
        if self.phase() == Phase::SecondPass {
            (2 * self.timeout()) as u64
        } else {
            self.timeout() as u64
        }
    }

    /// What the session should do next.
    pub open spec fn next(&self) -> JobAction {
        match self.phase() {
            Phase::Done => JobAction::Finished,
            Phase::Renavigate => JobAction::Renavigate,
            _ => match self.step() {
                Step::Preferred => JobAction::Extract {
                    index: self.cursor() as usize,
                    method: self.preferred(),
                    timeout_ms: self.pass_timeout(),
                },
                Step::Fallback => JobAction::Extract {
                    index: self.cursor() as usize,
                    method: self.preferred().other(),
                    timeout_ms: self.pass_timeout(),
                },
                Step::Advance => JobAction::Advance { index: self.cursor() as usize },
            },
        }
    }

    /// An upper bound on the actions left before `Finished`: three per panel
    /// still to visit in each pass, one for going back to the first panel.
    pub open spec fn remaining(&self) -> nat {
        let n = self.total() as int;
        let here = 3 * (n - self.cursor()) - match self.step() {
            Step::Preferred => 0int,
            Step::Fallback => 1int,
            Step::Advance => 2int,
        };
        match self.phase() {
            Phase::FirstPass => (here + 1 + 3 * n + 1) as nat,
            Phase::Renavigate => (3 * n + 1) as nat,
            Phase::SecondPass => here as nat,
            Phase::Done => 0,
        }
    }

    /// Whether the first pass is over.
    pub open spec fn first_pass_over(&self) -> bool {
        self.phase() != Phase::FirstPass
    }

    /// The invariant of a job.
    pub closed spec fn wf(&self) -> bool {
        let t = self.table();
        let fp = self.first_pass@;
        let n = self.total as int;
        &&& self.total < u64::MAX
        &&& self.outcomes@.len() == n
        &&& self.retry@.len() == n
        &&& fp.len() == n
        &&& (self.step == Step::Fallback ==> t[self.cursor as int] == Some(
            OutcomeView::Failed(FailureView::ElementNotFound),
        ))
        &&& match self.phase {
            Phase::FirstPass => {
                &&& self.cursor < n
                &&& forall|i: int| 0 <= i < self.cursor ==> (#[trigger] t[i]) is Some
                &&& forall|i: int| self.cursor < i < n ==> (#[trigger] t[i]) is None
                &&& (self.step == Step::Preferred <==> t[self.cursor as int] is None)
                &&& forall|i: int| 0 <= i < n ==> !(#[trigger] self.retry@[i])
                &&& fp == t
            },
            Phase::Renavigate => {
                &&& forall|i: int| 0 <= i < n ==> (#[trigger] t[i]) is Some
                &&& fp == t
                &&& forall|i: int| 0 <= i < n ==> #[trigger] self.retry@[i] == retryable_entry(self.policy, fp[i])
                &&& exists|i: int| 0 <= i < n && #[trigger] self.retry@[i]
            },
            Phase::SecondPass => {
                &&& self.cursor < n
                &&& forall|i: int| 0 <= i < n ==> (#[trigger] t[i]) is Some
                &&& forall|i: int| 0 <= i < n ==> #[trigger] self.retry@[i] == retryable_entry(self.policy, fp[i])
                &&& forall|i: int| 0 <= i < n && !self.retry@[i] ==> #[trigger] t[i] == fp[i]
                &&& forall|i: int| self.cursor < i < n ==> #[trigger] t[i] == fp[i]
                &&& (self.step != Step::Advance ==> self.retry@[self.cursor as int])
            },
            Phase::Done => {
                &&& self.step != Step::Fallback
                &&& forall|i: int| 0 <= i < n ==> (#[trigger] t[i]) is Some
                &&& forall|i: int| 0 <= i < n ==> #[trigger] self.retry@[i] == retryable_entry(self.policy, fp[i])
                &&& forall|i: int|
                    0 <= i < n && !self.retry@[i] && !pending_entry(fp[i]) ==> #[trigger] t[i]
                        == fp[i]
            },
        }
    }

    /// A job over `total` panels under `dir`, waiting up to `timeout_ms` per
    /// panel in the first pass, trying `preferred` first, and retrying the
    /// failures that `policy` calls transient.
    pub fn new(
        dir: String,
        total: usize,
        timeout_ms: u32,
        preferred: ExtractionMethod,
        policy: RetryPolicy,
    ) -> (r: ChapterJob)
        requires
            total < u64::MAX,
        ensures
            r.wf(),
            r.dir() == dir@,
            r.total() == total,
            r.timeout() == timeout_ms,
            r.preferred() == preferred,
            r.policy() == policy,
            r.table() == Seq::new(total as nat, |i: int| None::<OutcomeView>),
            r.retry_set() == Set::<int>::empty(),
            r.cursor() == 0,
            r.phase() == (if total == 0 {
                Phase::Done
            } else {
                Phase::FirstPass
            }),
            r.step() == Step::Preferred,
            r.remaining() <= 6 * total + 2,
    {
        let mut outcomes: Vec<Option<Outcome>> = Vec::with_capacity(total);
        let mut retry: Vec<bool> = Vec::with_capacity(total);
        let mut i: usize = 0;
        while i < total
            invariant
                i <= total,
                outcomes@.len() == i,
                retry@.len() == i,
                forall|k: int| 0 <= k < i ==> (#[trigger] outcomes@[k]) is None,
                forall|k: int| 0 <= k < i ==> !(#[trigger] retry@[k]),
            decreases total - i,
        {
            outcomes.push(None);
            retry.push(false);
            i = i + 1;
        }
        let phase = if total == 0 {
            Phase::Done
        } else {
            Phase::FirstPass
        };
        let ghost t = outcomes@.map_values(|o: Option<Outcome>| opt_outcome(o));
        let r = ChapterJob {
            dir,
            total,
            timeout_ms,
            preferred,
            policy,
            outcomes,
            retry,
            phase,
            step: Step::Preferred,
            cursor: 0,
            first_pass: Ghost(t),
        };
        assert(r.table() =~= Seq::new(total as nat, |i: int| None::<OutcomeView>));
        assert(r.retry_set() =~= Set::<int>::empty());
        r
    }

    /// What the session should do next.
    pub fn next_action(&self) -> (r: JobAction)
        requires
            self.wf(),
        ensures
            r == self.next(),
    {
        match self.phase {
            Phase::Done => JobAction::Finished,
            Phase::Renavigate => JobAction::Renavigate,
            _ => {
                let timeout_ms: u64 = if self.phase == Phase::SecondPass {
                    2 * (self.timeout_ms as u64)
                } else {
                    self.timeout_ms as u64
                };
                match self.step {
                    Step::Preferred => JobAction::Extract {
                        index: self.cursor,
                        method: self.preferred,
                        timeout_ms,
                    },
                    Step::Fallback => JobAction::Extract {
                        index: self.cursor,
                        method: self.preferred.fallback(),
                        timeout_ms,
                    },
                    Step::Advance => JobAction::Advance { index: self.cursor },
                }
            },
        }
    }

    /// Whether the job's dir, size, wait and preferred method are those of `other`.
    pub open spec fn same_setup(&self, other: &ChapterJob) -> bool {
        &&& self.dir() == other.dir()
        &&& self.total() == other.total()
        &&& self.timeout() == other.timeout()
        &&& self.preferred() == other.preferred()
        &&& self.policy() == other.policy()
    }

    /// Records the outcome of the extraction that `next` asked for. A
    /// preferred attempt that found no element leaves the fallback to try.
    pub fn record(&mut self, outcome: Outcome)
        requires
            old(self).wf(),
            (old(self).next() is Extract),
        ensures
            final(self).wf(),
            final(self).same_setup(old(self)),
            final(self).table() == old(self).table().update(
                old(self).cursor() as int,
                Some(outcome@),
            ),
            final(self).remaining() < old(self).remaining(),
            final(self).step() == (if old(self).step() == Step::Preferred && outcome@
                == OutcomeView::Failed(FailureView::ElementNotFound) {
                Step::Fallback
            } else {
                Step::Advance
            }),
            final(self).phase() == old(self).phase(),
            final(self).cursor() == old(self).cursor(),
            final(self).retry_flags() == old(self).retry_flags(),
            old(self).phase() == Phase::FirstPass ==> final(self).first_pass() == final(self).table(),
            old(self).phase() != Phase::FirstPass ==> final(self).first_pass() == old(self).first_pass(),
    {
        let not_found = match &outcome {
            Outcome::Failed(FailureReason::ElementNotFound) => true,
            _ => false,
        };
        let fallback = self.step == Step::Preferred && not_found;
        let ghost v = outcome@;
        let ghost before = self.table();
        self.outcomes.set(self.cursor, Some(outcome));
        assert(self.table() =~= before.update(self.cursor as int, Some(v)));
        self.step = if fallback {
            Step::Fallback
        } else {
            Step::Advance
        };
        if self.phase == Phase::FirstPass {
            self.first_pass = Ghost(self.table());
        }
    }

    /// Notes that the reader moved past the current panel. After the last
    /// panel of the first pass the retry set is formed from the transient
    /// failures; after the last panel of the retry pass the job is done.
    pub fn advance(&mut self)
        requires
            old(self).wf(),
            (old(self).next() is Advance),
        ensures
            final(self).wf(),
            final(self).same_setup(old(self)),
            final(self).table() == old(self).table(),
            final(self).first_pass() == old(self).first_pass(),
            final(self).remaining() < old(self).remaining(),
            old(self).cursor() + 1 < old(self).total() ==> {
                &&& final(self).phase() == old(self).phase()
                &&& final(self).cursor() == old(self).cursor() + 1
                &&& final(self).retry_flags() == old(self).retry_flags()
                &&& final(self).step() == old(self).arrival_step(
                    old(self).phase(),
                    old(self).cursor() + 1 as int,
                )
            },
            old(self).cursor() + 1 == old(self).total() && old(self).phase() == Phase::FirstPass
                ==> {
                &&& forall|i: int|
                    0 <= i < old(self).total() ==> #[trigger] final(self).retry_flags()[i]
                        == retryable_entry(old(self).policy(), old(self).table()[i])
                &&& final(self).phase() == (if exists|i: int|
                    0 <= i < old(self).total() && retryable_entry(old(self).policy(), #[trigger] old(self).table()[i]) {
                    Phase::Renavigate
                } else {
                    Phase::Done
                })
            },
            old(self).cursor() + 1 == old(self).total() && old(self).phase() == Phase::SecondPass
                ==> final(self).phase() == Phase::Done && final(self).retry_flags() == old(self).retry_flags(),
    {
        let next = self.cursor + 1;
        let ghost t0 = self.table();
        assert(t0[self.cursor as int] is Some);
        if next < self.total {
            self.cursor = next;
            self.step = if self.phase == Phase::FirstPass || self.retry[next] {
                Step::Preferred
            } else {
                Step::Advance
            };
            assert(self.table() == t0);
            assert(self.wf());
        } else if self.phase == Phase::FirstPass {
            let n = self.total;
            let ghost t = self.table();
            let mut any = false;
            let mut i: usize = 0;
            while i < n
                invariant
                    n == self.total,
                    self.outcomes@.len() == n,
                    t == self.table(),
                    self.retry@.len() == n,
                    i <= n,
                    forall|k: int| 0 <= k < i ==> #[trigger] self.retry@[k] == retryable_entry(self.policy, t[k]),
                    forall|k: int| i <= k < n ==> !(#[trigger] self.retry@[k]),
                    any == exists|k: int| 0 <= k < i && #[trigger] self.retry@[k],
                    self.dir == old(self).dir,
                    self.timeout_ms == old(self).timeout_ms,
                    self.preferred == old(self).preferred,
                    self.policy == old(self).policy,
                    self.phase == old(self).phase,
                    self.step == old(self).step,
                    self.cursor == old(self).cursor,
                    self.first_pass == old(self).first_pass,
                    self.phase == Phase::FirstPass,
                    self.cursor + 1 == n,
                decreases n - i,
            {
                let r = match &self.outcomes[i] {
                    Some(Outcome::Failed(f)) => self.policy.retries_failure(f),
                    _ => false,
                };
                assert(t[i as int] == opt_outcome(self.outcomes@[i as int]));
                let ghost prev = self.retry@;
                self.retry.set(i, r);
                proof {
                    assert(forall|k: int| 0 <= k < i ==> self.retry@[k] == prev[k]);
                    if any {
                        let k = choose|k: int| 0 <= k < i && #[trigger] prev[k];
                        assert(self.retry@[k]);
                    }
                    if r {
                        assert(self.retry@[i as int]);
                    }
                    if !any && !r {
                        assert forall|k: int| 0 <= k < i + 1 implies !(#[trigger] self.retry@[k]) by {
                            if k < i {
                                assert(!prev[k]);
                            }
                        }
                    }
                }
                any = any || r;
                i = i + 1;
            }
            self.phase = if any {
                Phase::Renavigate
            } else {
                Phase::Done
            };
            proof {
                if !any {
                    assert forall|k: int| 0 <= k < n implies !retryable_entry(
                        self.policy,
                        #[trigger] t[k],
                    ) by {
                        assert(self.retry@[k] == retryable_entry(self.policy, t[k]));
                    }
                }
                assert forall|k: int| 0 <= k < n implies (#[trigger] t[k]) is Some by {
                    if k < self.cursor {
                    } else {
                        assert(k == self.cursor);
                    }
                }
                if any {
                    let k = choose|k: int| 0 <= k < n && #[trigger] self.retry@[k];
                    assert(self.retry@[k]);
                }
                assert(self.table() == t);
                assert(self.first_pass@ == t);
            }
            assert(self.wf());
        } else {
            self.phase = Phase::Done;
            assert(self.wf());
        }
    }

    /// Notes that the chapter's URL was loaded again: the retry pass starts at panel 0.
    pub fn renavigated(&mut self)
        requires
            old(self).wf(),
            old(self).next() == JobAction::Renavigate,
        ensures
            final(self).wf(),
            final(self).same_setup(old(self)),
            final(self).table() == old(self).table(),
            final(self).first_pass() == old(self).first_pass(),
            final(self).retry_flags() == old(self).retry_flags(),
            final(self).phase() == Phase::SecondPass,
            final(self).remaining() < old(self).remaining(),
            final(self).cursor() == 0,
            final(self).step() == old(self).arrival_step(Phase::SecondPass, 0),
    {
        self.phase = Phase::SecondPass;
        self.cursor = 0;
        self.step = if self.retry[0] {
            Step::Preferred
        } else {
            Step::Advance
        };
    }
}

/// A job has nothing left to do exactly when it asks for nothing more. With
/// `new` starting at most at `6 n + 2` and every transition lowering
/// `remaining`, a job over `n` panels finishes within that many actions.
pub proof fn lemma_finished_exactly_when_nothing_remains(job: &ChapterJob)
    requires
        job.wf(),
    ensures
        job.remaining() == 0 <==> job.next() == JobAction::Finished,
{
}

/// Whether `action` extracts panel `i`.
pub open spec fn extracts(action: JobAction, i: int) -> bool {
    match action {
        JobAction::Extract { index, .. } => index == i,
        _ => false,
    }
}

/// After both passes the outcome table holds exactly one entry for each
/// index from 0 to the panel count, with none left empty.
pub proof fn lemma_finished_table_complete(job: &ChapterJob)
    requires
        job.wf(),
        job.next() == JobAction::Finished,
    ensures
        job.table().len() == job.total(),
        forall|i: int| 0 <= i < job.total() ==> (#[trigger] job.table()[i]) is Some,
{
}

/// A panel that the first pass acquired (an image or a queued fetch) is not
/// in the retry set and is not extracted again; an image it captured stays.
pub proof fn lemma_first_pass_success_not_retried(job: &ChapterJob, i: int)
    requires
        job.wf(),
        job.first_pass_over(),
        0 <= i < job.total(),
        acquired_entry(job.first_pass()[i]),
    ensures
        !job.retry_set().contains(i),
        !extracts(job.next(), i),
        job.phase() != Phase::Done ==> job.table()[i] == job.first_pass()[i],
        (job.first_pass()[i] matches Some(OutcomeView::Success(_))) ==> job.table()[i]
            == job.first_pass()[i],
{
    assert(job.retry_flags()[i] == retryable_entry(job.policy(), job.first_pass()[i]));
}

impl ChapterJob {
    /// The image captured for panel `i`, if any.
    pub fn asset_at(&self, i: usize) -> (r: Option<&ImageData>)
        requires
            self.wf(),
            i < self.total(),
        ensures
            r matches Some(a) ==> self.table()[i as int] == Some(OutcomeView::Success(a@)),
            r is None ==> !(self.table()[i as int] matches Some(OutcomeView::Success(_))),
    {
        assert(self.table()[i as int] == opt_outcome(self.outcomes@[i as int]));
        match &self.outcomes[i] {
            Some(Outcome::Success(a)) => Some(a),
            _ => None,
        }
    }

    /// A well-formed job has one table entry and one retry flag per panel.
    pub proof fn lemma_sizes(&self)
        requires
            self.wf(),
        ensures
            self.table().len() == self.total(),
            self.retry_flags().len() == self.total(),
            self.total() < u64::MAX,
    {
    }

    /// The number of panels.
    pub fn panel_count(&self) -> (r: usize)
        ensures
            r == self.total(),
    {
        self.total
    }

    /// The chapter's directory.
    pub fn dir_text(&self) -> (r: &str)
        ensures
            r@ == self.dir(),
    {
        self.dir.as_str()
    }

    /// Whether panel `i` is in the retry set.
    pub fn in_retry_set(&self, i: usize) -> (r: bool)
        requires
            self.wf(),
            i < self.total(),
        ensures
            r == self.retry_flags()[i as int],
    {
        self.retry[i]
    }

    /// Why panel `i` failed, if it did.
    pub fn failure_at(&self, i: usize) -> (r: Option<&FailureReason>)
        requires
            self.wf(),
            i < self.total(),
        ensures
            r matches Some(f) ==> self.table()[i as int] == Some(OutcomeView::Failed(f@)),
            r is None ==> !(self.table()[i as int] matches Some(OutcomeView::Failed(_))),
    {
        assert(self.table()[i as int] == opt_outcome(self.outcomes@[i as int]));
        match &self.outcomes[i] {
            Some(Outcome::Failed(f)) => Some(f),
            _ => None,
        }
    }

    /// The fetch queued for panel `i`, if any.
    pub fn pending_at(&self, i: usize) -> (r: Option<&ReqImageData>)
        requires
            self.wf(),
            i < self.total(),
        ensures
            r matches Some(p) ==> self.table()[i as int] == Some(OutcomeView::Pending(p@)),
            r is None ==> !pending_entry(self.table()[i as int]),
    {
        assert(self.table()[i as int] == opt_outcome(self.outcomes@[i as int]));
        match &self.outcomes[i] {
            Some(Outcome::Pending(p)) => Some(p),
            _ => None,
        }
    }

    /// Settles the fetch queued for panel `index`, once both passes are over,
    /// with what the HTTP request gave.
    pub fn settle_fetch(&mut self, index: usize, result: Result<Vec<u8>, String>)
        requires
            old(self).wf(),
            old(self).phase() == Phase::Done,
            index < old(self).total(),
            pending_entry(old(self).table()[index as int]),
        ensures
            final(self).wf(),
            final(self).same_setup(old(self)),
            final(self).phase() == Phase::Done,
            final(self).retry_flags() == old(self).retry_flags(),
            final(self).first_pass() == old(self).first_pass(),
            old(self).table()[index as int] matches Some(OutcomeView::Pending(p))
                && final(self).table() == old(self).table().update(
                index as int,
                Some(fetched(p, fetch_result_view(result))),
            ),
    {
        let ghost before = self.table();
        assert(before[index as int] == opt_outcome(self.outcomes@[index as int]));
        let mut slot: Option<Outcome> = None;
        self.outcomes.set_and_swap(index, &mut slot);
        match slot {
            Some(Outcome::Pending(p)) => {
                let ghost pv = p@;
                let o = resolve_fetch(p, result);
                self.outcomes.set(index, Some(o));
                assert(self.table() =~= before.update(
                    index as int,
                    Some(fetched(pv, fetch_result_view(result))),
                ));
                proof {
                    let t = self.table();
                    let fp = self.first_pass@;
                    assert forall|i: int|
                        0 <= i < self.total && !self.retry@[i] && !pending_entry(fp[i]) implies #[trigger] t[i]
                        == fp[i] by {
                        if i == index {
                            assert(before[i] == fp[i]);
                        } else {
                            assert(t[i] == before[i]);
                        }
                    }
                    assert forall|i: int| 0 <= i < self.total implies (#[trigger] t[i]) is Some by {
                        if i != index {
                            assert(t[i] == before[i]);
                        }
                    }
                }
            },
            other => {
                assert(false);
                self.outcomes.set(index, other);
            },
        }
    }
}

} // verus!
