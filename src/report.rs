//! What a job reports once it is over: counts, failure records, log entries.
use crate::job::ChapterJob;
use crate::outcome::{destination, destination_path, FailureReason, FailureView, OutcomeView};
use crate::text::{decimal, to_decimal};
use vstd::prelude::*;

verus! {

/// How many entries of `t` satisfy `f`.
pub open spec fn count_matching(
    t: Seq<Option<OutcomeView>>,
    f: spec_fn(Option<OutcomeView>) -> bool,
) -> nat
    decreases t.len(),
{
    if t.len() == 0 {
        0
    } else {
        count_matching(t.drop_last(), f) + if f(t.last()) {
            1nat
        } else {
            0nat
        }
    }
}

pub open spec fn succeeded_entry(e: Option<OutcomeView>) -> bool {
    e matches Some(OutcomeView::Success(_))
}

pub open spec fn failed_entry(e: Option<OutcomeView>) -> bool {
    e matches Some(OutcomeView::Failed(_))
}

pub open spec fn queued_entry(e: Option<OutcomeView>) -> bool {
    e matches Some(OutcomeView::Pending(_))
}

/// How many of `flags` are set.
pub open spec fn count_set(flags: Seq<bool>) -> nat
    decreases flags.len(),
{
    if flags.len() == 0 {
        0
    } else {
        count_set(flags.drop_last()) + if flags.last() {
            1nat
        } else {
            0nat
        }
    }
}

/// A failed panel: its index, the file it would have gone to, and why it failed.
pub struct FailureRecord {
    pub index: usize,
    pub path: String,
    pub cause: FailureReason,
}

pub struct RecordView {
    pub index: nat,
    pub path: Seq<char>,
    pub cause: FailureView,
}

impl View for FailureRecord {
    type V = RecordView;

    open spec fn view(&self) -> RecordView {
        RecordView { index: self.index as nat, path: self.path@, cause: self.cause@ }
    }
}

/// One record per failed entry of `t`, in index order.
pub open spec fn failure_list(dir: Seq<char>, t: Seq<Option<OutcomeView>>) -> Seq<RecordView>
    decreases t.len(),
{
    if t.len() == 0 {
        Seq::empty()
    } else {
        let i = (t.len() - 1) as nat;
        failure_list(dir, t.drop_last()) + match t.last() {
            Some(OutcomeView::Failed(f)) => seq![
                RecordView { index: i, path: destination(dir, i), cause: f },
            ],
            _ => Seq::empty(),
        }
    }
}

/// An entry of the failure log: the chapter it came from, the panel index
/// and the error text.
pub struct LogError {
    pub url: String,
    pub index: usize,
    pub error: String,
}

impl LogError {
    /// The log entry for a failure record of the chapter at `source`.
    pub fn from_record(source: &str, record: &FailureRecord) -> (r: LogError)
        ensures
            r.url@ == source@,
            r.index == record.index,
            r.error@ == record.cause@.message(),
    {
        LogError {
            url: String::from_str(source),
            index: record.index,
            error: record.cause.message(),
        }
    }
}

/// The summary line of a job: failed panels over all panels.
pub open spec fn summary_text(failed: nat, total: nat) -> Seq<char> {
    decimal(failed) + seq!['/'] + decimal(total)
}

/// `failed/total`.
pub fn failure_summary(failed: usize, total: usize) -> (r: String)
    ensures
        r@ == summary_text(failed as nat, total as nat),
{
    proof {
        reveal_strlit("/");
        assert("/"@ =~= seq!['/']);
    }
    let mut r = to_decimal(failed as u64);
    r.append("/");
    let t = to_decimal(total as u64);
    r.append(t.as_str());
    r
}

proof fn lemma_counts_split(t: Seq<Option<OutcomeView>>)
    requires
        forall|i: int| 0 <= i < t.len() ==> (#[trigger] t[i]) is Some,
    ensures
        count_matching(t, |e| succeeded_entry(e)) + count_matching(t, |e| queued_entry(e))
            + count_matching(t, |e| failed_entry(e)) == t.len(),
    decreases t.len(),
{
    if t.len() > 0 {
        let d = t.drop_last();
        assert forall|i: int| 0 <= i < d.len() implies (#[trigger] d[i]) is Some by {
            assert(d[i] == t[i]);
        }
        lemma_counts_split(d);
        assert(t.last() == t[t.len() - 1]);
    }
}

/// Once both passes are over and every queued fetch is settled, the panels
/// that succeeded and those that failed add up to the panel count.
pub proof fn lemma_successes_and_failures_cover_all(t: Seq<Option<OutcomeView>>)
    requires
        forall|i: int| 0 <= i < t.len() ==> (#[trigger] t[i]) is Some,
        count_matching(t, |e| queued_entry(e)) == 0,
    ensures
        count_matching(t, |e| succeeded_entry(e)) + count_matching(t, |e| failed_entry(e))
            == t.len(),
{
    lemma_counts_split(t);
}

proof fn lemma_count_bound(t: Seq<Option<OutcomeView>>, f: spec_fn(Option<OutcomeView>) -> bool)
    ensures
        count_matching(t, f) <= t.len(),
    decreases t.len(),
{
    if t.len() > 0 {
        lemma_count_bound(t.drop_last(), f);
    }
}

proof fn lemma_count_set_bound(flags: Seq<bool>)
    ensures
        count_set(flags) <= flags.len(),
    decreases flags.len(),
{
    if flags.len() > 0 {
        lemma_count_set_bound(flags.drop_last());
    }
}

impl ChapterJob {
    /// How many panels have their image.
    pub fn succeeded_count(&self) -> (r: usize)
        requires
            self.wf(),
        ensures
            r == count_matching(self.table(), |e| succeeded_entry(e)),
    {
        let n = self.panel_count();
        proof {
            self.lemma_sizes();
        }
        let mut c: usize = 0;
        let mut i: usize = 0;
        while i < n
            invariant
                self.wf(),
                n == self.total(),
                self.table().len() == n,
                self.retry_flags().len() == n,
                n < u64::MAX,
                i <= n,
                c == count_matching(self.table().subrange(0, i as int), |e| succeeded_entry(e)),
            decreases n - i,
        {
            proof {
                lemma_count_bound(self.table().subrange(0, i as int), |e| succeeded_entry(e));
                assert(self.table().subrange(0, i + 1).drop_last() =~= self.table().subrange(
                    0,
                    i as int,
                ));
            }
            if self.asset_at(i).is_some() {
                c = c + 1;
            }
            i = i + 1;
        }
        assert(self.table().subrange(0, n as int) =~= self.table());
        c
    }

    /// How many panels failed.
    pub fn failed_count(&self) -> (r: usize)
        requires
            self.wf(),
        ensures
            r == count_matching(self.table(), |e| failed_entry(e)),
    {
        let n = self.panel_count();
        proof {
            self.lemma_sizes();
        }
        let mut c: usize = 0;
        let mut i: usize = 0;
        while i < n
            invariant
                self.wf(),
                n == self.total(),
                self.table().len() == n,
                self.retry_flags().len() == n,
                n < u64::MAX,
                i <= n,
                c == count_matching(self.table().subrange(0, i as int), |e| failed_entry(e)),
            decreases n - i,
        {
            proof {
                lemma_count_bound(self.table().subrange(0, i as int), |e| failed_entry(e));
                assert(self.table().subrange(0, i + 1).drop_last() =~= self.table().subrange(
                    0,
                    i as int,
                ));
            }
            if self.failure_at(i).is_some() {
                c = c + 1;
            }
            i = i + 1;
        }
        assert(self.table().subrange(0, n as int) =~= self.table());
        c
    }

    /// How many panels the retry pass took up.
    pub fn retry_count(&self) -> (r: usize)
        requires
            self.wf(),
        ensures
            r == count_set(self.retry_flags()),
    {
        let n = self.panel_count();
        proof {
            self.lemma_sizes();
        }
        let mut c: usize = 0;
        let mut i: usize = 0;
        while i < n
            invariant
                self.wf(),
                n == self.total(),
                self.table().len() == n,
                self.retry_flags().len() == n,
                n < u64::MAX,
                self.retry_flags().len() == n,
                i <= n,
                c == count_set(self.retry_flags().subrange(0, i as int)),
            decreases n - i,
        {
            proof {
                lemma_count_set_bound(self.retry_flags().subrange(0, i as int));
                assert(self.retry_flags().subrange(0, i + 1).drop_last()
                    =~= self.retry_flags().subrange(0, i as int));
            }
            if self.in_retry_set(i) {
                c = c + 1;
            }
            i = i + 1;
        }
        assert(self.retry_flags().subrange(0, n as int) =~= self.retry_flags());
        c
    }

    /// Whether the job produced nothing: every panel failed.
    pub fn job_failed(&self) -> (r: bool)
        requires
            self.wf(),
        ensures
            r == (count_matching(self.table(), |e| failed_entry(e)) == self.total()),
    {
        self.failed_count() == self.panel_count()
    }

    /// The summary line: failed panels over all panels.
    pub fn summary(&self) -> (r: String)
        requires
            self.wf(),
        ensures
            r@ == summary_text(count_matching(self.table(), |e| failed_entry(e)), self.total()),
    {
        failure_summary(self.failed_count(), self.panel_count())
    }

    /// One record per failed panel, in index order.
    pub fn failure_records(&self) -> (r: Vec<FailureRecord>)
        requires
            self.wf(),
        ensures
            r@.map_values(|x: FailureRecord| x@) == failure_list(self.dir(), self.table()),
    {
        let n = self.panel_count();
        proof {
            self.lemma_sizes();
        }
        let mut out: Vec<FailureRecord> = Vec::new();
        let mut i: usize = 0;
        while i < n
            invariant
                self.wf(),
                n == self.total(),
                self.table().len() == n,
                self.retry_flags().len() == n,
                n < u64::MAX,
                i <= n,
                out@.map_values(|x: FailureRecord| x@) == failure_list(
                    self.dir(),
                    self.table().subrange(0, i as int),
                ),
            decreases n - i,
        {
            let ghost prev = out@.map_values(|x: FailureRecord| x@);
            assert(self.table().subrange(0, i + 1).drop_last() =~= self.table().subrange(
                0,
                i as int,
            ));
            assert(self.table().subrange(0, i + 1).last() == self.table()[i as int]);
            match self.failure_at(i) {
                Some(f) => {
                    let record = FailureRecord {
                        index: i,
                        path: destination_path(self.dir_text(), i),
                        cause: f.duplicate(),
                    };
                    out.push(record);
                    assert(out@.map_values(|x: FailureRecord| x@) =~= prev + seq![record@]);
                },
                None => {
                    assert(prev + Seq::<RecordView>::empty() =~= prev);
                },
            }
            i = i + 1;
        }
        assert(self.table().subrange(0, n as int) =~= self.table());
        out
    }
}

} // verus!
