use swiss_army_knife_core::engine::{EngineError, FULL_PPM};
use swiss_army_knife_core::jobs::{
    cancel, finish, is_cancel_requested, poll, register, release, report_progress, JobTable,
    Snapshot, STATUS_CANCELLED, STATUS_DONE, STATUS_ERROR, STATUS_RUNNING,
};

#[test]
fn registered_job_polls_as_running() {
    let mut t = JobTable::new();
    let a = register(&mut t);
    let b = register(&mut t);
    assert_eq!(a, 1);
    assert_eq!(b, 2);
    let s = poll(&t, a);
    assert_eq!(s.status, STATUS_RUNNING);
    assert_eq!(s.pct_ppm, 0);
    assert!(s.output_path.is_empty() && s.error.is_empty());
    assert!(!is_cancel_requested(&t, a));
}

#[test]
fn unknown_and_released_jobs_poll_as_errors() {
    let mut t = JobTable::new();
    let s = poll(&t, 42);
    assert_eq!(s.status, STATUS_ERROR);
    assert_eq!(s.error, "unknown job");
    let id = register(&mut t);
    release(&mut t, id);
    let s = poll(&t, id);
    assert_eq!(s.status, STATUS_ERROR);
    assert_eq!(s.error, "unknown job");
}

#[test]
fn cancel_is_seen_and_ends_as_cancelled() {
    let mut t = JobTable::new();
    let id = register(&mut t);
    let other = register(&mut t);
    report_progress(&mut t, id, 250_000, 9_000);
    cancel(&mut t, id);
    assert!(is_cancel_requested(&t, id));
    assert!(!is_cancel_requested(&t, other));
    assert_eq!(poll(&t, id).pct_ppm, 250_000);
    finish(&mut t, id, Err(EngineError::Cancelled));
    let s = poll(&t, id);
    assert_eq!(s.status, STATUS_CANCELLED);
    assert_eq!(s.pct_ppm, 250_000);
    assert_eq!(poll(&t, other).status, STATUS_RUNNING);
    cancel(&mut t, 999); // unknown ids are ignored
}

#[test]
fn finished_jobs_report_output_or_error() {
    let mut t = JobTable::new();
    let ok = register(&mut t);
    let bad = register(&mut t);
    report_progress(&mut t, ok, 900_000, 1_000);
    assert_eq!(poll(&t, ok).eta_ms, 1_000);
    finish(&mut t, ok, Ok("/v/clip.mp4".to_string()));
    let s = poll(&t, ok);
    assert_eq!(s.status, STATUS_DONE);
    assert_eq!(s.output_path, "/v/clip.mp4");
    assert_eq!(s.pct_ppm, FULL_PPM);
    assert_eq!(s.eta_ms, 0);
    finish(&mut t, bad, Err(EngineError::Spawn("denied".to_string())));
    let s = poll(&t, bad);
    assert_eq!(s.status, STATUS_ERROR);
    assert_eq!(s.error, "Could not start ffmpeg: denied");
}

#[test]
fn snapshot_defaults_and_copies() {
    let s = Snapshot::default();
    assert_eq!(s.status, STATUS_RUNNING);
    assert_eq!(s.pct_ppm, 0);
    let c = Snapshot { output_path: "x".to_string(), ..Snapshot::default() }.copy();
    assert_eq!(c.output_path, "x");
}

#[test]
fn an_ended_job_keeps_its_snapshot() {
    let mut t = JobTable::new();
    let id = register(&mut t);
    finish(&mut t, id, Ok("/v/a.mp4".to_string()));
    report_progress(&mut t, id, 10, 5);
    finish(&mut t, id, Err(EngineError::Cancelled));
    cancel(&mut t, id);
    let s = poll(&t, id);
    assert_eq!(s.status, STATUS_DONE);
    assert_eq!(s.pct_ppm, FULL_PPM);
    assert_eq!(s.eta_ms, 0);
    assert_eq!(s.output_path, "/v/a.mp4");
}

#[test]
fn ids_count_up_and_never_repeat() {
    let mut t = JobTable::new();
    let mut seen = Vec::new();
    for _ in 0..50 {
        let id = register(&mut t);
        assert!(!seen.contains(&id));
        seen.push(id);
        release(&mut t, id);
    }
    assert_eq!(seen, (1..=50).collect::<Vec<u64>>());
}
