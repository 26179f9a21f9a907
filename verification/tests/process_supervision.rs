use lighty_launcher::error::LauncherError;
use lighty_launcher::supervisor::{
    exit_code_success, supervise_step, JavaRuntime, SupervisorEvent, SupervisorStep,
    MISSING_EXIT_CODE, WINDOWS_KILLED_EXIT_CODE,
};

#[test]
fn test_java_runtime_keeps_path() {
    let rt = JavaRuntime::new("/runtimes/temurin_17/jdk/bin/java".to_string());
    assert_eq!(rt.0, "/runtimes/temurin_17/jdk/bin/java");
}

#[test]
fn test_exit_code_success() {
    assert!(exit_code_success(0));
    assert!(exit_code_success(WINDOWS_KILLED_EXIT_CODE));
    assert!(exit_code_success(-1073740791));
    assert!(!exit_code_success(1));
    assert!(!exit_code_success(-1));
    assert!(!exit_code_success(MISSING_EXIT_CODE));
}

#[test]
fn test_forward_output_chunks() {
    match supervise_step(&SupervisorEvent::StdoutChunk { len: 512 }) {
        SupervisorStep::ForwardStdout { len } => assert_eq!(len, 512),
        _ => panic!("expected ForwardStdout"),
    }
    match supervise_step(&SupervisorEvent::StderrChunk { len: 7 }) {
        SupervisorStep::ForwardStderr { len } => assert_eq!(len, 7),
        _ => panic!("expected ForwardStderr"),
    }
}

#[test]
fn test_terminator_kills_and_stops() {
    // Firing the terminator stops the supervisor at once, killing the
    // child, whatever the child keeps writing.
    assert!(matches!(
        supervise_step(&SupervisorEvent::Terminated),
        SupervisorStep::KillAndStop
    ));
}

#[test]
fn test_clean_exit_is_ok() {
    match supervise_step(&SupervisorEvent::Exited { code: Some(0) }) {
        SupervisorStep::Stop { outcome } => assert!(outcome.is_ok()),
        _ => panic!("expected Stop"),
    }
}

#[test]
fn test_windows_kill_code_is_ok() {
    match supervise_step(&SupervisorEvent::Exited { code: Some(-1073740791) }) {
        SupervisorStep::Stop { outcome } => assert!(outcome.is_ok()),
        _ => panic!("expected Stop"),
    }
}

#[test]
fn test_nonzero_exit_reported() {
    match supervise_step(&SupervisorEvent::Exited { code: Some(42) }) {
        SupervisorStep::Stop { outcome } => match outcome {
            Err(LauncherError::NonZeroExit { code }) => assert_eq!(code, 42),
            other => panic!("expected NonZeroExit, got {:?}", other),
        },
        _ => panic!("expected Stop"),
    }
}

#[test]
fn test_missing_exit_code_uses_sentinel() {
    match supervise_step(&SupervisorEvent::Exited { code: None }) {
        SupervisorStep::Stop { outcome } => match outcome {
            Err(LauncherError::NonZeroExit { code }) => assert_eq!(code, MISSING_EXIT_CODE),
            other => panic!("expected NonZeroExit, got {:?}", other),
        },
        _ => panic!("expected Stop"),
    }
}
