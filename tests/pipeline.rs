use manga_dl::extraction::{extract_outcome, ExtractionMethod, Observation};
use manga_dl::job::{ChapterJob, JobAction};
use manga_dl::outcome::{FailureReason, RetryPolicy};
use manga_dl::report::LogError;

const READY: &str = "data:image/png;base64,aGVsbG8=";

struct Attempt {
    pass: u8,
    index: usize,
    method: ExtractionMethod,
    timeout_ms: u64,
}

fn usual_job(total: usize, timeout_ms: u32, preferred: ExtractionMethod) -> ChapterJob {
    ChapterJob::new("d".to_string(), total, timeout_ms, preferred, RetryPolicy::transient_default())
}

/// Runs both passes, asking `see` what the session observes for each attempt.
fn run(
    job: &mut ChapterJob,
    mut see: impl FnMut(u8, usize, ExtractionMethod) -> Observation,
) -> (Vec<Attempt>, usize, usize) {
    let dir = job.dir_text().to_string();
    let mut attempts = Vec::new();
    let mut pass = 1u8;
    let mut advances = 0;
    let mut renavigations = 0;
    loop {
        match job.next_action() {
            JobAction::Extract { index, method, timeout_ms } => {
                attempts.push(Attempt { pass, index, method, timeout_ms });
                let obs = see(pass, index, method);
                job.record(extract_outcome(&dir, index, obs));
            }
            JobAction::Advance { .. } => {
                advances += 1;
                job.advance();
            }
            JobAction::Renavigate => {
                renavigations += 1;
                pass = 2;
                job.renavigated();
            }
            JobAction::Finished => break,
        }
    }
    (attempts, advances, renavigations)
}

fn every_index_has_one_outcome(job: &ChapterJob) {
    for i in 0..job.panel_count() {
        let n = job.asset_at(i).is_some() as u8
            + job.failure_at(i).is_some() as u8
            + job.pending_at(i).is_some() as u8;
        assert_eq!(n, 1, "index {i}");
    }
}

#[test]
fn scenario_all_ready_on_first_probe() {
    let mut job = usual_job(5, 5000, ExtractionMethod::Bitmap);
    let (attempts, advances, renavigations) =
        run(&mut job, |_, _, _| Observation::Snapshot(READY.to_string()));
    assert_eq!(attempts.len(), 5);
    assert_eq!(advances, 5);
    assert_eq!(renavigations, 0);
    assert_eq!(job.succeeded_count(), 5);
    assert_eq!(job.failed_count(), 0);
    assert_eq!(job.retry_count(), 0);
    assert!(job.failure_records().is_empty());
    assert!(!job.job_failed());
    assert_eq!(job.summary(), "0/5");
    for i in 0..5 {
        let a = job.asset_at(i).unwrap();
        assert_eq!(a.path, format!("d/{}.jpg", i + 1));
        assert_eq!(a.bytes, b"hello".to_vec());
    }
    every_index_has_one_outcome(&job);
}

#[test]
fn scenario_transient_timeout_recovers_in_retry_pass() {
    let mut job = usual_job(5, 5000, ExtractionMethod::Bitmap);
    let (attempts, advances, renavigations) = run(&mut job, |pass, index, _| {
        if pass == 1 && index == 2 {
            Observation::TimedOut
        } else {
            Observation::Snapshot(READY.to_string())
        }
    });
    assert_eq!(renavigations, 1);
    assert_eq!(advances, 10);
    let second: Vec<&Attempt> = attempts.iter().filter(|a| a.pass == 2).collect();
    assert_eq!(second.len(), 1);
    assert_eq!(second[0].index, 2);
    assert_eq!(second[0].timeout_ms, 10000);
    assert_eq!(second[0].method, ExtractionMethod::Bitmap);
    assert!(attempts.iter().filter(|a| a.pass == 1).all(|a| a.timeout_ms == 5000));
    assert_eq!(job.succeeded_count(), 5);
    assert_eq!(job.failed_count(), 0);
    assert_eq!(job.retry_count(), 1);
    assert!(job.in_retry_set(2));
    every_index_has_one_outcome(&job);
}

#[test]
fn scenario_panel_never_ready_fails_terminally() {
    let mut job = usual_job(5, 5000, ExtractionMethod::Bitmap);
    let (attempts, _, _) = run(&mut job, |_, index, _| {
        if index == 3 {
            Observation::TimedOut
        } else {
            Observation::Snapshot(READY.to_string())
        }
    });
    assert_eq!(attempts.iter().filter(|a| a.index == 3).count(), 2);
    assert_eq!(job.succeeded_count(), 4);
    assert_eq!(job.failed_count(), 1);
    assert!(job.asset_at(3).is_none());
    let records = job.failure_records();
    assert_eq!(records.len(), 1);
    assert_eq!(records[0].index, 3);
    assert_eq!(records[0].path, "d/4.jpg");
    assert!(matches!(records[0].cause, FailureReason::RenderTimeout));
    let log = LogError::from_record("https://mangareader.to/read/x", &records[0]);
    assert_eq!(log.index, 3);
    assert_eq!(log.url, "https://mangareader.to/read/x");
    assert_eq!(log.error, "panel did not finish rendering in time");
    assert_eq!(job.summary(), "1/5");
    every_index_has_one_outcome(&job);
}

#[test]
fn scenario_fetch_error_omits_only_that_panel() {
    let mut job = usual_job(5, 2000, ExtractionMethod::SourceUrl);
    run(&mut job, |_, index, _| Observation::Source(format!("https://cdn/{}.jpg", index + 1)));
    assert_eq!(job.retry_count(), 0);
    for i in 0..5 {
        let p = job.pending_at(i).unwrap();
        let result = if i == 1 {
            assert_eq!(p.url, "https://cdn/2.jpg");
            Err("HTTP status 404 Not Found".to_string())
        } else {
            Ok(vec![i as u8])
        };
        job.settle_fetch(i, result);
    }
    assert_eq!(job.succeeded_count(), 4);
    assert!(job.asset_at(1).is_none());
    assert_eq!(job.asset_at(4).unwrap().bytes, vec![4u8]);
    assert_eq!(job.asset_at(4).unwrap().path, "d/5.jpg");
    let records = job.failure_records();
    assert_eq!(records.len(), 1);
    assert_eq!(records[0].index, 1);
    match &records[0].cause {
        FailureReason::NetworkError(d) => assert_eq!(
            d,
            "get request failed for src url: https://cdn/2.jpg; reason: HTTP status 404 Not Found"
        ),
        _ => panic!("expected a network error"),
    }
    every_index_has_one_outcome(&job);
}

#[test]
fn missing_element_falls_back_to_the_other_method() {
    let mut job = usual_job(2, 1000, ExtractionMethod::Bitmap);
    let (attempts, _, renavigations) = run(&mut job, |_, index, method| match (index, method) {
        (0, ExtractionMethod::Bitmap) => Observation::Missing,
        (0, ExtractionMethod::SourceUrl) => Observation::Source("https://cdn/1.jpg".to_string()),
        _ => Observation::Snapshot(READY.to_string()),
    });
    assert_eq!(attempts.len(), 3);
    assert_eq!(attempts[1].method, ExtractionMethod::SourceUrl);
    assert_eq!(renavigations, 0);
    assert!(job.pending_at(0).is_some());
    assert!(job.asset_at(1).is_some());
}

#[test]
fn invalid_encoding_is_not_retried() {
    let mut job = usual_job(3, 1000, ExtractionMethod::Bitmap);
    let (attempts, _, renavigations) = run(&mut job, |_, index, _| {
        if index == 0 {
            Observation::Snapshot("not a data url".to_string())
        } else {
            Observation::Snapshot(READY.to_string())
        }
    });
    assert_eq!(attempts.len(), 3);
    assert_eq!(renavigations, 0);
    assert_eq!(job.failed_count(), 1);
    assert!(matches!(job.failure_at(0), Some(FailureReason::InvalidEncoding)));
}

#[test]
fn every_panel_failing_fails_the_job() {
    let mut job = usual_job(2, 1000, ExtractionMethod::Bitmap);
    run(&mut job, |_, _, _| Observation::TimedOut);
    assert!(job.job_failed());
    assert_eq!(job.summary(), "2/2");
}

#[test]
fn empty_job_is_finished_at_once() {
    let mut job = usual_job(0, 1000, ExtractionMethod::Bitmap);
    assert_eq!(job.next_action(), JobAction::Finished);
    let (attempts, _, _) = run(&mut job, |_, _, _| Observation::Missing);
    assert!(attempts.is_empty());
}

#[test]
fn policy_can_make_missing_elements_final() {
    let policy = RetryPolicy { element_not_found: false, render_timeout: true };
    let mut job = ChapterJob::new("d".to_string(), 3, 1000, ExtractionMethod::Bitmap, policy);
    let (attempts, _, renavigations) = run(&mut job, |_, index, _| match index {
        0 => Observation::Missing,
        1 => Observation::TimedOut,
        _ => Observation::Snapshot(READY.to_string()),
    });
    assert_eq!(renavigations, 1);
    assert_eq!(job.retry_count(), 1);
    assert!(!job.in_retry_set(0));
    assert!(job.in_retry_set(1));
    let second: Vec<usize> = attempts.iter().filter(|a| a.pass == 2).map(|a| a.index).collect();
    assert_eq!(second, vec![1]);
    assert_eq!(job.failed_count(), 2);
}
