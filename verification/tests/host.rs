use codex_code_mode_host::host::serve_connection;
use codex_code_mode_host::host::write_context;
use codex_code_mode_host::host::HostAction;
use codex_code_mode_host::host::HostConnection;
use codex_code_mode_host::host::HostError;
use codex_code_mode_host::host::Phase;
use codex_code_mode_host::protocol::Capability;
use codex_code_mode_host::protocol::CapabilitySet;
use codex_code_mode_host::protocol::ClientHello;
use codex_code_mode_host::protocol::ClientToHost;
use codex_code_mode_host::protocol::HandshakeRejectReason;
use codex_code_mode_host::protocol::HostHello;
use codex_code_mode_host::protocol::HostToClient;
use codex_code_mode_host::protocol::ProtocolVersion;
use codex_code_mode_host::protocol::SessionId;
use codex_code_mode_host::protocol::SupportedProtocolVersions;

fn client_hello(versions: Vec<ProtocolVersion>, required_capabilities: CapabilitySet) -> ClientToHost {
    ClientToHost::ClientHello(ClientHello::new(
        SupportedProtocolVersions::new(versions),
        required_capabilities,
        CapabilitySet::empty(),
    ))
}

fn session_id(value: &str) -> SessionId {
    SessionId::new(value)
}

fn host_hello() -> HostToClient {
    HostToClient::HostHello(HostHello::new(ProtocolVersion::v1(), CapabilitySet::empty()))
}

#[test]
fn handshake_and_multiple_session_lifecycles_are_ordered() {
    let mut input = vec![client_hello(vec![ProtocolVersion::v1()], CapabilitySet::empty())];
    for id in ["session-1", "session-2"] {
        input.push(ClientToHost::OpenSession { session_id: session_id(id) });
    }
    for id in ["session-1", "session-2"] {
        input.push(ClientToHost::CloseSession { session_id: session_id(id) });
    }
    let (replies, outcome) = serve_connection(input);
    assert_eq!(
        replies,
        vec![
            host_hello(),
            HostToClient::SessionReady { session_id: session_id("session-1") },
            HostToClient::SessionReady { session_id: session_id("session-2") },
            HostToClient::SessionClosed { session_id: session_id("session-1") },
            HostToClient::SessionClosed { session_id: session_id("session-2") },
        ]
    );
    assert_eq!(outcome, Ok(()));
}

#[test]
fn incompatible_handshake_is_rejected_and_closes_connection() {
    let version_two = ProtocolVersion::new(2);
    let (replies, outcome) = serve_connection(vec![
        client_hello(vec![version_two], CapabilitySet::empty()),
        ClientToHost::OpenSession { session_id: session_id("ignored") },
    ]);
    assert_eq!(
        replies,
        vec![HostToClient::HandshakeRejected {
            reason: HandshakeRejectReason::NoCompatibleVersion {
                supported_versions: SupportedProtocolVersions::new(vec![ProtocolVersion::v1()]),
            },
        }]
    );
    assert_eq!(outcome, Ok(()));
}

#[test]
fn unsupported_required_capability_is_rejected() {
    let capability = Capability::new("required");
    let (replies, outcome) = serve_connection(vec![client_hello(
        vec![ProtocolVersion::v1()],
        CapabilitySet::new(vec![capability.clone()]),
    )]);
    assert_eq!(
        replies,
        vec![HostToClient::HandshakeRejected {
            reason: HandshakeRejectReason::MissingRequiredCapability { capability },
        }]
    );
    assert_eq!(outcome, Ok(()));
}

#[test]
fn invalid_message_order_faults_the_connection() {
    let (replies, outcome) = serve_connection(vec![
        ClientToHost::OpenSession { session_id: session_id("session-1") },
        client_hello(vec![ProtocolVersion::v1()], CapabilitySet::empty()),
    ]);
    assert_eq!(
        replies,
        vec![HostToClient::HandshakeRejected {
            reason: HandshakeRejectReason::InvalidHello {
                message: "first message must be connection/hello".to_string(),
            },
        }]
    );
    assert_eq!(outcome, Ok(()));

    let (replies, outcome) = serve_connection(vec![
        client_hello(vec![ProtocolVersion::v1()], CapabilitySet::empty()),
        ClientToHost::CloseSession { session_id: session_id("unknown") },
    ]);
    assert_eq!(replies, vec![host_hello()]);
    let err = outcome.expect_err("invalid session transition");
    assert_eq!(err.message(), "cannot close unknown code-mode session `unknown`");
}

#[test]
fn session_id_cannot_be_reused_after_close() {
    let id = session_id("session-1");
    let (replies, outcome) = serve_connection(vec![
        client_hello(vec![ProtocolVersion::v1()], CapabilitySet::empty()),
        ClientToHost::OpenSession { session_id: id.clone() },
        ClientToHost::CloseSession { session_id: id.clone() },
        ClientToHost::OpenSession { session_id: id.clone() },
    ]);
    assert_eq!(replies.len(), 3);
    let err = outcome.expect_err("reused session ID");
    assert_eq!(err, HostError::SessionIdReused(id));
    assert_eq!(err.message(), "code-mode session ID `session-1` was reused");
}

#[test]
fn second_client_hello_faults_the_connection() {
    let (replies, outcome) = serve_connection(vec![
        client_hello(vec![ProtocolVersion::v1()], CapabilitySet::empty()),
        client_hello(vec![ProtocolVersion::v1()], CapabilitySet::empty()),
    ]);
    assert_eq!(replies, vec![host_hello()]);
    let err = outcome.expect_err("second hello");
    assert_eq!(err, HostError::SecondClientHello);
    assert_eq!(err.message(), "received a second code-mode client hello");
}

#[test]
fn client_closing_without_a_message_is_not_an_error() {
    let (replies, outcome) = serve_connection(Vec::new());
    assert!(replies.is_empty());
    assert_eq!(outcome, Ok(()));
}

#[test]
fn hello_listing_several_versions_including_one_is_accepted() {
    let (replies, outcome) = serve_connection(vec![client_hello(
        vec![ProtocolVersion::new(3), ProtocolVersion::v1()],
        CapabilitySet::empty(),
    )]);
    assert_eq!(replies, vec![host_hello()]);
    assert_eq!(outcome, Ok(()));
}

#[test]
fn first_lacking_capability_is_named() {
    let (replies, _) = serve_connection(vec![client_hello(
        vec![ProtocolVersion::v1()],
        CapabilitySet::new(vec![Capability::new("alpha"), Capability::new("beta")]),
    )]);
    assert_eq!(
        replies,
        vec![HostToClient::HandshakeRejected {
            reason: HandshakeRejectReason::MissingRequiredCapability {
                capability: Capability::new("alpha"),
            },
        }]
    );
}

#[test]
fn version_check_comes_before_capability_check() {
    let (replies, _) = serve_connection(vec![client_hello(
        vec![ProtocolVersion::new(2)],
        CapabilitySet::new(vec![Capability::new("alpha")]),
    )]);
    assert_eq!(
        replies,
        vec![HostToClient::HandshakeRejected {
            reason: HandshakeRejectReason::NoCompatibleVersion {
                supported_versions: SupportedProtocolVersions::new(vec![ProtocolVersion::v1()]),
            },
        }]
    );
}

#[test]
fn connection_steps_one_message_at_a_time() {
    let mut connection = HostConnection::new();
    assert_eq!(connection.phase(), Phase::AwaitingHello);
    let action =
        connection.handle_message(client_hello(vec![ProtocolVersion::v1()], CapabilitySet::empty()));
    assert_eq!(action, HostAction::Reply(host_hello()));
    assert_eq!(connection.phase(), Phase::Established);
    let action = connection.handle_message(ClientToHost::OpenSession { session_id: session_id("a") });
    assert_eq!(action, HostAction::Reply(HostToClient::SessionReady { session_id: session_id("a") }));
    let action = connection.handle_message(ClientToHost::CloseSession { session_id: session_id("a") });
    assert_eq!(action, HostAction::Reply(HostToClient::SessionClosed { session_id: session_id("a") }));
    let action = connection.handle_message(ClientToHost::CloseSession { session_id: session_id("a") });
    assert_eq!(action, HostAction::Fail(HostError::UnknownSession(session_id("a"))));
    assert_eq!(connection.phase(), Phase::Ended);
    let action = connection.handle_message(ClientToHost::OpenSession { session_id: session_id("b") });
    assert_eq!(action, HostAction::Close);
}

#[test]
fn end_of_input_closes_the_connection() {
    let mut connection = HostConnection::new();
    assert_eq!(connection.handle_end_of_input(), HostAction::Close);
    assert_eq!(connection.phase(), Phase::Ended);
}

#[test]
fn rejected_hello_ends_the_connection() {
    let mut connection = HostConnection::new();
    let action = connection.handle_message(ClientToHost::CloseSession { session_id: session_id("x") });
    assert!(matches!(action, HostAction::ReplyAndClose(HostToClient::HandshakeRejected { .. })));
    assert_eq!(connection.phase(), Phase::Ended);
}

#[test]
fn write_context_names_what_failed_to_be_written() {
    assert_eq!(write_context(&host_hello()), "failed to write code-mode host hello");
    assert_eq!(
        write_context(&HostToClient::HandshakeRejected {
            reason: HandshakeRejectReason::InvalidHello { message: String::new() },
        }),
        "failed to reject invalid code-mode client hello"
    );
    assert_eq!(
        write_context(&HostToClient::HandshakeRejected {
            reason: HandshakeRejectReason::NoCompatibleVersion {
                supported_versions: SupportedProtocolVersions::new(vec![ProtocolVersion::v1()]),
            },
        }),
        "failed to reject incompatible code-mode client"
    );
    assert_eq!(
        write_context(&HostToClient::HandshakeRejected {
            reason: HandshakeRejectReason::MissingRequiredCapability {
                capability: Capability::new("x"),
            },
        }),
        "failed to reject unsupported code-mode capability"
    );
    assert_eq!(
        write_context(&HostToClient::SessionReady { session_id: session_id("a") }),
        "failed to acknowledge opened code-mode session"
    );
    assert_eq!(
        write_context(&HostToClient::SessionClosed { session_id: session_id("a") }),
        "failed to acknowledge closed code-mode session"
    );
}

#[test]
fn run_acknowledges_up_to_the_first_refused_message() {
    let (replies, outcome) = serve_connection(vec![
        client_hello(vec![ProtocolVersion::v1()], CapabilitySet::empty()),
        ClientToHost::OpenSession { session_id: session_id("a") },
        ClientToHost::OpenSession { session_id: session_id("b") },
        ClientToHost::CloseSession { session_id: session_id("b") },
        ClientToHost::CloseSession { session_id: session_id("b") },
        ClientToHost::CloseSession { session_id: session_id("a") },
    ]);
    assert_eq!(
        replies,
        vec![
            host_hello(),
            HostToClient::SessionReady { session_id: session_id("a") },
            HostToClient::SessionReady { session_id: session_id("b") },
            HostToClient::SessionClosed { session_id: session_id("b") },
        ]
    );
    assert_eq!(outcome, Err(HostError::UnknownSession(session_id("b"))));
}
