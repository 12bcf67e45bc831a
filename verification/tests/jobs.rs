use mcp_shell_server::jobs::{JobStatus, JobStore, MAX_JOBS};

#[test]
fn jobs_are_numbered_from_one_and_start_running() {
    let mut store = JobStore::new();
    assert!(store.get("job-1").is_none());
    let (id, status) = store.create().unwrap();
    assert_eq!(id, "job-1");
    assert_eq!(status.state, "running");
    assert_eq!(status.exit_code, None);
    let (second, _) = store.create().unwrap();
    assert_eq!(second, "job-2");
    let kept = store.get("job-1").unwrap();
    assert_eq!((kept.state, kept.stdout.as_str(), kept.stderr.as_str()), ("running", "", ""));
}

#[test]
fn a_full_store_takes_in_no_more() {
    let mut store = JobStore::new();
    for n in 1..=MAX_JOBS {
        assert_eq!(store.create().unwrap().0, format!("job-{n}"));
    }
    assert_eq!(MAX_JOBS, 64);
    assert!(store.create().is_none());
    assert!(store.get("job-64").is_some());
    assert!(store.get("job-65").is_none());
}

#[test]
fn a_job_is_updated_and_an_unknown_one_is_not_added() {
    let mut store = JobStore::new();
    store.create().unwrap();
    store.create().unwrap();
    let ended = JobStatus::ended(Ok((3, "out".to_string(), "err".to_string())));
    store.update("job-1", ended.clone());
    store.update("job-9", ended);
    let job = store.get("job-1").unwrap();
    assert_eq!((job.state, job.exit_code), ("completed", Some(3)));
    assert_eq!((job.stdout.as_str(), job.stderr.as_str()), ("out", "err"));
    assert_eq!(store.get("job-2").unwrap().state, "running");
    assert!(store.get("job-9").is_none());
}

#[test]
fn reports_show_all_that_is_known() {
    let running = JobStatus::running();
    assert_eq!(running.report(), "state=running\nexit_code=None\nSTDOUT:\n\nSTDERR:\n");
    let ended = JobStatus::ended(Ok((-1, "a".to_string(), "b".to_string())));
    assert_eq!(ended.report(), "state=completed\nexit_code=Some(-1)\nSTDOUT:\na\nSTDERR:\nb");
    let failed = JobStatus::ended(Err("why".to_string()));
    assert_eq!(failed.report(), "state=failed\nexit_code=None\nSTDOUT:\n\nSTDERR:\nwhy");
}
