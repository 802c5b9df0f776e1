use cw_it::runner::{
    check_commit, poll_done, poll_target, startup_step, BackendKind, BlockQueryFailure, CodeKind, PhaseResult,
    RunnerError, StartupAction,
};

#[test]
fn test_runner_from_and_to_str() {
    for kind in [BackendKind::Simulated, BackendKind::EmbeddedNode] {
        let name = kind.name();
        assert_eq!(BackendKind::from_name(&name), Ok(kind));
    }
    assert_eq!(
        BackendKind::from_name("rpc-runner"),
        Err("RpcRunner requires a config file".to_string())
    );
    assert_eq!(
        BackendKind::from_name("phantom-data"),
        Err("Invalid TestRunner: phantom-data".to_string())
    );
}

#[test]
fn artifact_unsupported_on_simulated_backend() {
    match BackendKind::Simulated.check_store_code(CodeKind::Artifact) {
        Err(RunnerError::Unsupported { msg }) => assert!(msg.contains("Artifact not supported")),
        _ => panic!("an artifact must be refused by the simulated backend"),
    }
    assert!(BackendKind::Simulated.check_store_code(CodeKind::NativeHandler).is_ok());
    assert!(BackendKind::EmbeddedNode.check_store_code(CodeKind::Artifact).is_ok());
    assert!(BackendKind::RpcNode.check_store_code(CodeKind::Artifact).is_ok());
    assert!(BackendKind::EmbeddedNode.check_store_code(CodeKind::NativeHandler).is_err());
}

#[test]
fn increase_time_unsupported_on_live_chain() {
    assert!(BackendKind::Simulated.check_increase_time().is_ok());
    assert!(BackendKind::EmbeddedNode.check_increase_time().is_ok());
    assert!(matches!(
        BackendKind::RpcNode.check_increase_time(),
        Err(RunnerError::Unsupported { .. })
    ));
}

#[test]
fn commit_fails_on_first_failing_phase() {
    let ok = PhaseResult { code: 0, log: String::new() };
    let check_failed = PhaseResult { code: 5, log: "insufficient fees".to_string() };
    let deliver_failed = PhaseResult { code: 11, log: "out of gas".to_string() };
    assert!(check_commit(&ok, &ok).is_ok());
    match check_commit(&check_failed, &deliver_failed) {
        Err(e) => assert_eq!(e.message(), "insufficient fees"),
        Ok(_) => panic!("check phase failure must fail the transaction"),
    }
    match check_commit(&ok, &deliver_failed) {
        Err(RunnerError::ExecuteError { msg }) => assert_eq!(msg, "out of gas"),
        _ => panic!("deliver phase failure must fail the transaction"),
    }
}

#[test]
fn polling_reaches_target_height() {
    assert_eq!(poll_target(10, 3), Some(13));
    assert_eq!(poll_target(u64::MAX, 1), None);
    assert!(!poll_done(12, 13));
    assert!(poll_done(13, 13));
    assert!(poll_done(14, 13));
}

#[test]
fn startup_retries_only_serialization_errors() {
    assert_eq!(startup_step(None), StartupAction::Ready);
    assert_eq!(startup_step(Some(BlockQueryFailure::Serialization)), StartupAction::Retry);
    assert_eq!(startup_step(Some(BlockQueryFailure::Other)), StartupAction::Fail);
}
