use desktop_shell::launch::{conclude, fatal_message, Termination, FATAL_EXIT_STATUS};

#[test]
fn successful_run_does_not_abort() {
    let outcome: Result<(), String> = Ok(());
    let t = conclude(&outcome);
    assert_eq!(t, Termination::Graceful);
    assert!(!t.is_fatal());
    assert_eq!(t.exit_status(), None);
}

#[test]
fn failed_run_aborts_with_nonzero_status() {
    let outcome: Result<(), String> = Err("window creation failed".to_string());
    let t = conclude(&outcome);
    assert_eq!(t, Termination::Abort { status: FATAL_EXIT_STATUS });
    assert!(t.is_fatal());
    assert_eq!(t.exit_status(), Some(101));
    assert_ne!(FATAL_EXIT_STATUS, 0);
}

#[test]
fn failure_decision_ignores_error_detail() {
    let a: Result<(), u32> = Err(1);
    let b: Result<(), u32> = Err(7);
    assert_eq!(conclude(&a), conclude(&b));
}

#[test]
fn fatal_message_is_fixed() {
    assert_eq!(fatal_message(), "error while running tauri application");
}
