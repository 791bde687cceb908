use tmkms_nitro_helper::enclave::{
    check_exit, check_vsock_proxy, CollaboratorError, EnclaveDescribeInfo, EnclaveRunInfo,
    RunAction, RunError, RunPhase, RunSupervisor,
};
use tmkms_nitro_helper::logging::{log_level, LogLevel};

fn describe(id: &str) -> EnclaveDescribeInfo {
    EnclaveDescribeInfo {
        enclave_id: id.to_string(),
        process_id: 42,
        enclave_cid: 16,
        cpu_count: 2,
        cpu_ids: vec![1, 3],
        memory_mib: 512,
        state: "RUNNING".to_string(),
        flags: "NONE".to_string(),
    }
}

#[test]
fn active_enclave_blocks_run() {
    let mut s = RunSupervisor::new();
    assert!(matches!(s.begin(), RunAction::Describe));
    match s.on_described(Ok(vec![describe("i-abc-enc1")])) {
        RunAction::Fail(RunError::AlreadyActive(v)) => {
            assert_eq!(v.len(), 1);
            assert_eq!(v[0].enclave_id, "i-abc-enc1");
        }
        other => panic!("unexpected {:?}", other),
    }
    assert_eq!(s.phase(), RunPhase::Failed);
}

#[test]
fn full_run_terminates_started_enclave() {
    let mut s = RunSupervisor::new();
    s.begin();
    assert!(matches!(s.on_described(Ok(vec![])), RunAction::StartLogServer));
    assert!(matches!(s.on_log_server(Ok(())), RunAction::RunDaemon));
    let info = EnclaveRunInfo {
        enclave_id: "i-xyz-enc9".to_string(),
        process_id: 7,
        enclave_cid: 16,
        cpu_count: 2,
        cpu_ids: vec![1, 3],
        memory_mib: 1024,
    };
    assert!(matches!(s.on_run(Ok(info)), RunAction::WaitForStop));
    match s.on_stop_signal() {
        RunAction::Terminate(id) => assert_eq!(id, "i-xyz-enc9"),
        other => panic!("unexpected {:?}", other),
    }
    assert!(matches!(s.on_terminated(), RunAction::Finish));
    assert_eq!(s.phase(), RunPhase::Done);
}

#[test]
fn tool_failures_end_the_run() {
    let mut s = RunSupervisor::new();
    s.begin();
    assert!(matches!(
        s.on_described(Err(CollaboratorError::InvalidOutput)),
        RunAction::Fail(RunError::Collaborator(CollaboratorError::InvalidOutput))
    ));
    let mut s = RunSupervisor::new();
    s.begin();
    s.on_described(Ok(vec![]));
    assert!(matches!(s.on_log_server(Err("port in use".to_string())), RunAction::Fail(RunError::LogServer(_))));
    let mut s = RunSupervisor::new();
    s.begin();
    s.on_described(Ok(vec![]));
    s.on_log_server(Ok(()));
    let e = CollaboratorError::Failed { stderr: "no memory".to_string(), code: Some(1) };
    assert!(matches!(s.on_run(Err(e)), RunAction::Fail(RunError::Collaborator(_))));
    assert_eq!(s.phase(), RunPhase::Failed);
}

#[test]
fn exit_status_is_checked() {
    assert!(check_exit(true, Some(0), String::new()).is_ok());
    match check_exit(false, Some(3), "boom".to_string()) {
        Err(CollaboratorError::Failed { stderr, code }) => {
            assert_eq!(stderr, "boom");
            assert_eq!(code, Some(3));
        }
        other => panic!("unexpected {:?}", other),
    }
}

#[test]
fn vsock_proxy_found_by_argument() {
    let cmd = |v: &[&str]| v.iter().map(|s| s.to_string()).collect::<Vec<String>>();
    assert!(!check_vsock_proxy(&vec![]));
    assert!(!check_vsock_proxy(&vec![cmd(&["bash"]), cmd(&["/usr/bin/vsock-proxy-x"])]));
    assert!(check_vsock_proxy(&vec![cmd(&["bash"]), cmd(&["vsock-proxy", "8000"])]));
}

#[test]
fn verbosity_maps_to_levels() {
    assert_eq!(log_level(0), LogLevel::Info);
    assert_eq!(log_level(1), LogLevel::Info);
    assert_eq!(log_level(2), LogLevel::Debug);
    assert_eq!(log_level(3), LogLevel::Trace);
    assert_eq!(log_level(9), LogLevel::Trace);
}
