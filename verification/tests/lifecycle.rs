use display_link::{BackendOp, DisplayLink, PauseError, ResumeError};

#[test]
fn new_timer_starts_paused() {
    let dl = DisplayLink::new();
    assert!(dl.is_paused());
}

#[test]
fn pause_on_fresh_timer_reports_already_paused() {
    let mut dl = DisplayLink::new();
    assert_eq!(dl.pause(), Err(PauseError::AlreadyPaused));
    assert!(dl.is_paused());
}

#[test]
fn second_resume_reports_already_running() {
    let mut dl = DisplayLink::new();
    assert_eq!(dl.resume(), Ok(BackendOp::Start));
    assert_eq!(dl.resume(), Err(ResumeError::AlreadyRunning));
    assert!(!dl.is_paused());
}

#[test]
fn resume_pause_resume_all_succeed() {
    let mut dl = DisplayLink::new();
    assert_eq!(dl.resume(), Ok(BackendOp::Start));
    assert!(!dl.is_paused());
    assert_eq!(dl.pause(), Ok(BackendOp::Stop));
    assert!(dl.is_paused());
    assert_eq!(dl.resume(), Ok(BackendOp::Start));
    assert!(!dl.is_paused());
}

#[test]
fn failed_transitions_leave_state_alone() {
    let mut dl = DisplayLink::new();
    assert!(dl.pause().is_err());
    assert!(dl.is_paused());
    dl.resume().unwrap();
    assert!(dl.resume().is_err());
    assert!(!dl.is_paused());
}

#[test]
fn shutdown_from_running_stops_before_teardown() {
    let mut dl = DisplayLink::new();
    dl.resume().unwrap();
    let ops = dl.shutdown_ops();
    assert_eq!(ops, vec![BackendOp::Stop, BackendOp::Teardown]);
}

#[test]
fn shutdown_from_paused_only_tears_down() {
    let mut dl = DisplayLink::new();
    let ops = dl.shutdown_ops();
    assert_eq!(ops, vec![BackendOp::Teardown]);
}
