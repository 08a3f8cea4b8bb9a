use codex_code_mode_host::remote_session::NoopCodeModeSessionDelegate;
use codex_code_mode_host::remote_session::OwnedProcessHost;
use codex_code_mode_host::remote_session::ProcessOwnedCodeModeSession;
use codex_code_mode_host::remote_session::ProcessOwnedCodeModeSessionProvider;
use codex_code_mode_host::remote_session::ProcessSessionId;

#[test]
fn provider_reuses_its_live_process_host() {
    let mut provider = ProcessOwnedCodeModeSessionProvider::default();

    let first = provider.process_host();
    let first_address = format!("{:p}", first);
    assert_eq!(first.allocate_session_id(), ProcessSessionId(1));
    let second = provider.process_host();
    let second_address = format!("{:p}", second);

    assert_eq!(first_address, second_address);
    assert_eq!(second.allocate_session_id(), ProcessSessionId(2));
}

#[test]
fn provider_allocates_distinct_logical_sessions() {
    let mut provider = ProcessOwnedCodeModeSessionProvider::default();

    let first = provider.create_session(NoopCodeModeSessionDelegate);
    let second = provider.create_session(NoopCodeModeSessionDelegate);

    assert!(first.is_alive());
    assert!(second.is_alive());
    assert_ne!(first.session_id(), second.session_id());
}

#[test]
fn shutdown_only_closes_the_logical_session() {
    let mut first = ProcessOwnedCodeModeSession::new();
    let second = ProcessOwnedCodeModeSession::new();

    first.shutdown().expect("shutdown session");

    assert_eq!(first.is_alive(), false);
    assert_eq!(second.is_alive(), true);
}

#[test]
fn provider_numbers_sessions_from_one_on_its_shared_host() {
    let mut provider = ProcessOwnedCodeModeSessionProvider::new();
    let ids: Vec<ProcessSessionId> = (0..3).map(|_| provider.create_session(NoopCodeModeSessionDelegate).session_id()).collect();
    assert_eq!(ids, vec![ProcessSessionId(1), ProcessSessionId(2), ProcessSessionId(3)]);
    let host = provider.process_host();
    assert_eq!(host.allocate_session_id(), ProcessSessionId(4));
}

#[test]
fn standalone_sessions_have_hosts_of_their_own() {
    let first = ProcessOwnedCodeModeSession::new();
    let second = ProcessOwnedCodeModeSession::default();
    assert_eq!(first.session_id(), ProcessSessionId(1));
    assert_eq!(second.session_id(), ProcessSessionId(1));
}

#[test]
fn a_session_assigned_to_a_host_takes_its_next_number() {
    let mut host = OwnedProcessHost::new();
    assert!(host.is_alive());
    assert_eq!(host.allocate_session_id(), ProcessSessionId(1));
    let session = ProcessOwnedCodeModeSession::with_process_host(NoopCodeModeSessionDelegate, &mut host);
    assert_eq!(session.session_id(), ProcessSessionId(2));
    assert_eq!(host.allocate_session_id(), ProcessSessionId(3));
}

#[test]
fn operations_are_not_implemented_yet() {
    let mut provider = ProcessOwnedCodeModeSessionProvider::new();
    let _ = provider.create_session(NoopCodeModeSessionDelegate);
    let session = provider.create_session(NoopCodeModeSessionDelegate);
    let execute: Result<(), String> = session.execute("print(1)");
    assert_eq!(
        execute,
        Err("remote code-mode operation `execute` is not implemented for session 2".to_string())
    );
    let wait: Result<(), String> = session.wait(7u32);
    assert_eq!(
        wait,
        Err("remote code-mode operation `wait` is not implemented for session 2".to_string())
    );
    let terminate: Result<(), String> = session.terminate("cell-1");
    assert_eq!(
        terminate,
        Err("remote code-mode operation `terminate` is not implemented for session 2".to_string())
    );
}

#[test]
fn unimplemented_operation_names_the_operation_and_session() {
    let result: Result<u8, String> =
        OwnedProcessHost::unimplemented_operation(ProcessSessionId(1234567890), "resize");
    assert_eq!(
        result,
        Err("remote code-mode operation `resize` is not implemented for session 1234567890"
            .to_string())
    );
    let result: Result<u8, String> =
        OwnedProcessHost::unimplemented_operation(ProcessSessionId(0), "wait");
    assert_eq!(
        result,
        Err("remote code-mode operation `wait` is not implemented for session 0".to_string())
    );
}

#[test]
fn shutdown_keeps_the_session_number() {
    let mut session = ProcessOwnedCodeModeSession::new();
    assert_eq!(session.shutdown(), Ok(()));
    assert_eq!(session.session_id(), ProcessSessionId(1));
    assert!(!session.is_alive());
}

#[test]
fn sessions_keep_their_own_delegate() {
    let mut provider = ProcessOwnedCodeModeSessionProvider::new();
    let first = provider.create_session("first delegate");
    let mut second = provider.create_session("second delegate");
    assert_eq!(*first.delegate(), "first delegate");
    assert_eq!(*second.delegate(), "second delegate");
    assert_eq!(second.session_id(), ProcessSessionId(2));
    second.shutdown().expect("shutdown session");
    assert_eq!(*second.delegate(), "second delegate");
    let standalone = ProcessOwnedCodeModeSession::new();
    assert_eq!(*standalone.delegate(), NoopCodeModeSessionDelegate);
}
