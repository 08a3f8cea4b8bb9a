//! The host side of one code-mode connection, as a state machine: each
//! message that the client sends is an event, and the host answers with an
//! action (a reply to write, the end of the connection, or a fault).
//!
//! The protocol: the first message must be a client hello. The host accepts
//! it when the client speaks version 1 and requires no capability that the
//! host lacks; otherwise it says why it refuses and ends the connection.
//! After the handshake the client opens and closes logical sessions. A
//! session identifier may be opened once per connection, and only an open
//! session may be closed; any other message faults the connection.

use vstd::prelude::*;
use crate::protocol::{
    spec_v1, Capability, CapabilitySet, ClientHello, ClientHelloModel, ClientToHost,
    ClientToHostModel, HandshakeRejectReason, HostHello, HostToClient, HostToClientModel,
    ProtocolVersion, RejectReasonModel, SessionId, SupportedProtocolVersions,
};

verus! {

// ---------------------------------------------------------------------------
// The model
// ---------------------------------------------------------------------------

/// Where a connection stands.
#[derive(Clone, Copy, Debug, PartialEq, Eq, Structural)]
pub enum Phase {
    /// Nothing has been received yet: the next message must be a hello.
    AwaitingHello,
    /// The handshake succeeded: sessions may be opened and closed.
    Established,
    /// The connection is over (refused, faulted, or the input ended).
    Ended,
}

/// Why the host faults a connection after the handshake.
#[derive(Clone, Debug, PartialEq, Eq)]
pub enum HostError {
    /// The client sent a second hello.
    SecondClientHello,
    /// The client opened a session identifier that it had used before.
    SessionIdReused(SessionId),
    /// The client closed a session that is not open.
    UnknownSession(SessionId),
}

/// The view of a fault.
pub enum HostErrorModel {
    SecondClientHello,
    SessionIdReused(Seq<char>),
    UnknownSession(Seq<char>),
}

impl View for HostError {
    type V = HostErrorModel;

    open spec fn view(&self) -> HostErrorModel {
        match self {
            HostError::SecondClientHello => HostErrorModel::SecondClientHello,
            HostError::SessionIdReused(id) => HostErrorModel::SessionIdReused(id@),
            HostError::UnknownSession(id) => HostErrorModel::UnknownSession(id@),
        }
    }
}

/// The text that describes a fault.
pub open spec fn error_text(e: HostErrorModel) -> Seq<char> {
    match e {
        HostErrorModel::SecondClientHello => "received a second code-mode client hello"@,
        HostErrorModel::SessionIdReused(id) => "code-mode session ID `"@ + id + "` was reused"@,
        HostErrorModel::UnknownSession(id) => "cannot close unknown code-mode session `"@ + id
            + "`"@,
    }
}

/// What the host does after a message or the end of its input.
#[derive(Clone, Debug, PartialEq, Eq)]
pub enum HostAction {
    /// Write the reply and go on reading.
    Reply(HostToClient),
    /// Write the reply, then end the connection without error.
    ReplyAndClose(HostToClient),
    /// End the connection without error.
    Close,
    /// End the connection with the given error.
    Fail(HostError),
}

/// The view of an action.
pub enum HostActionModel {
    Reply(HostToClientModel),
    ReplyAndClose(HostToClientModel),
    Close,
    Fail(HostErrorModel),
}

impl View for HostAction {
    type V = HostActionModel;

    open spec fn view(&self) -> HostActionModel {
        match self {
            HostAction::Reply(m) => HostActionModel::Reply(m@),
            HostAction::ReplyAndClose(m) => HostActionModel::ReplyAndClose(m@),
            HostAction::Close => HostActionModel::Close,
            HostAction::Fail(e) => HostActionModel::Fail(e@),
        }
    }
}

#[verifier::ext_equal]
/// The state of a connection: its phase, the session identifiers used so far,
/// the sessions open now, and the capabilities that the host offers.
pub struct ConnectionModel {
    pub phase: Phase,
    pub seen: Set<Seq<char>>,
    pub open: Set<Seq<char>>,
    pub capabilities: Seq<Seq<char>>,
}

/// The reason given when the first message is not a hello.
pub open spec fn invalid_hello_text() -> Seq<char> {
    "first message must be connection/hello"@
}

/// The first capability in `required` that `offered` lacks, if any.
pub open spec fn first_missing(required: Seq<Seq<char>>, offered: Seq<Seq<char>>) -> Option<
    Seq<char>,
>
    decreases required.len(),
{
    if required.len() == 0 {
        None
    } else if !offered.contains(required[0]) {
        Some(required[0])
    } else {
        first_missing(required.drop_first(), offered)
    }
}

/// The host's answer to a client hello, given the capabilities it offers.
pub open spec fn handshake_reply(hello: ClientHelloModel, offered: Seq<Seq<char>>) -> HostToClientModel {
    if !hello.versions.contains(spec_v1()) {
        HostToClientModel::Rejected(RejectReasonModel::NoCompatibleVersion(seq![spec_v1()]))
    } else {
        match first_missing(hello.required, offered) {
            Some(c) => HostToClientModel::Rejected(RejectReasonModel::MissingRequiredCapability(c)),
            None => HostToClientModel::HostHello { version: spec_v1(), capabilities: offered },
        }
    }
}

/// The state after a message, and the host's action. An ended connection
/// reads nothing more: it stays ended and closes.
pub open spec fn next(s: ConnectionModel, m: ClientToHostModel) -> (ConnectionModel, HostActionModel) {
    let ended = ConnectionModel { phase: Phase::Ended, ..s };
    match s.phase {
        Phase::Ended => (s, HostActionModel::Close),
        Phase::AwaitingHello => match m {
            ClientToHostModel::Hello(h) => {
                let reply = handshake_reply(h, s.capabilities);
                if reply is HostHello {
                    (ConnectionModel { phase: Phase::Established, ..s }, HostActionModel::Reply(reply))
                } else {
                    (ended, HostActionModel::ReplyAndClose(reply))
                }
            },
            _ => (
                ended,
                HostActionModel::ReplyAndClose(
                    HostToClientModel::Rejected(RejectReasonModel::InvalidHello(invalid_hello_text())),
                ),
            ),
        },
        Phase::Established => match m {
            ClientToHostModel::Hello(_) => (ended, HostActionModel::Fail(HostErrorModel::SecondClientHello)),
            ClientToHostModel::Open(id) => {
                if s.seen.contains(id) {
                    (ended, HostActionModel::Fail(HostErrorModel::SessionIdReused(id)))
                } else {
                    (
                        ConnectionModel { seen: s.seen.insert(id), open: s.open.insert(id), ..s },
                        HostActionModel::Reply(HostToClientModel::SessionReady(id)),
                    )
                }
            },
            ClientToHostModel::Close(id) => {
                if !s.open.contains(id) {
                    (ended, HostActionModel::Fail(HostErrorModel::UnknownSession(id)))
                } else {
                    (
                        ConnectionModel { open: s.open.remove(id), ..s },
                        HostActionModel::Reply(HostToClientModel::SessionClosed(id)),
                    )
                }
            },
        },
    }
}

/// The state once the client's input has ended, and the host's action: the
/// connection ends without error, whatever phase it was in.
pub open spec fn end_of_input(s: ConnectionModel) -> (ConnectionModel, HostActionModel) {
    (ConnectionModel { phase: Phase::Ended, ..s }, HostActionModel::Close)
}

/// The state of a connection that has received nothing, for a host that
/// offers the given capabilities.
pub open spec fn initial(capabilities: Seq<Seq<char>>) -> ConnectionModel {
    ConnectionModel {
        phase: Phase::AwaitingHello,
        seen: Set::empty(),
        open: Set::empty(),
        capabilities,
    }
}

/// The invariant of every reachable state: open sessions have been seen, and
/// nothing is seen before the handshake.
pub open spec fn well_formed(s: ConnectionModel) -> bool {
    &&& s.open.subset_of(s.seen)
    &&& s.phase == Phase::AwaitingHello ==> s.seen.is_empty()
}


// ---------------------------------------------------------------------------
// Session identifier lists
// ---------------------------------------------------------------------------

/// The texts of the identifiers in a list.
pub open spec fn ids_of(v: Seq<SessionId>) -> Set<Seq<char>> {
    Set::new(|x: Seq<char>| exists|i: int| 0 <= i < v.len() && v[i]@ == x)
}

/// No two identifiers of the list have the same text.
pub open spec fn distinct_ids(v: Seq<SessionId>) -> bool {
    forall|i: int, j: int| 0 <= i < v.len() && 0 <= j < v.len() && i != j ==> v[i]@ != v[j]@
}

proof fn lemma_ids_of_push(v: Seq<SessionId>, id: SessionId)
    ensures
        ids_of(v.push(id)) =~= ids_of(v).insert(id@),
{
    let w = v.push(id);
    assert forall|x: Seq<char>| ids_of(w).contains(x) implies ids_of(v).insert(id@).contains(x) by {
        let i = choose|i: int| 0 <= i < w.len() && w[i]@ == x;
        if i < v.len() {
            assert(v[i]@ == x);
        }
    }
    assert forall|x: Seq<char>| ids_of(v).insert(id@).contains(x) implies ids_of(w).contains(x) by {
        if x == id@ {
            assert(w[v.len() as int]@ == x);
        } else {
            let i = choose|i: int| 0 <= i < v.len() && v[i]@ == x;
            assert(w[i]@ == x);
        }
    }
}

proof fn lemma_ids_of_remove(v: Seq<SessionId>, k: int)
    requires
        0 <= k < v.len(),
        distinct_ids(v),
    ensures
        ids_of(v.remove(k)) =~= ids_of(v).remove(v[k]@),
        distinct_ids(v.remove(k)),
{
    let w = v.remove(k);
    assert forall|x: Seq<char>| ids_of(w).contains(x) implies ids_of(v).remove(v[k]@).contains(x) by {
        let i = choose|i: int| 0 <= i < w.len() && w[i]@ == x;
        if i < k {
            assert(v[i]@ == x);
        } else {
            assert(v[i + 1]@ == x);
        }
    }
    assert forall|x: Seq<char>| ids_of(v).remove(v[k]@).contains(x) implies ids_of(w).contains(x) by {
        let i = choose|i: int| 0 <= i < v.len() && v[i]@ == x;
        if i < k {
            assert(w[i]@ == x);
        } else {
            assert(i != k);
            assert(w[i - 1]@ == x);
        }
    }
    assert forall|i: int, j: int| 0 <= i < w.len() && 0 <= j < w.len() && i != j implies w[i]@ != w[j]@ by {
        let a = if i < k { i } else { i + 1 };
        let b = if j < k { j } else { j + 1 };
        assert(w[i] == v[a]);
        assert(w[j] == v[b]);
    }
}

/// The position of an identifier with the text of `id` in `v`, if any.
fn position_of(v: &Vec<SessionId>, id: &SessionId) -> (r: Option<usize>)
    ensures
        r matches Some(k) ==> k < v@.len() && v@[k as int]@ == id@,
        r is None <==> !ids_of(v@).contains(id@),
{
    let n = v.len();
    for i in 0..n
        invariant
            n == v@.len(),
            forall|j: int| 0 <= j < i ==> v@[j]@ != id@,
    {
        if v[i].same_as(id) {
            assert(ids_of(v@).contains(id@));
            return Some(i);
        }
    }
    None
}

// ---------------------------------------------------------------------------
// The connection
// ---------------------------------------------------------------------------

/// The host's state for one connection.
pub struct HostConnection {
    phase: Phase,
    seen_session_ids: Vec<SessionId>,
    open_session_ids: Vec<SessionId>,
    host_capabilities: CapabilitySet,
}

impl View for HostConnection {
    type V = ConnectionModel;

    closed spec fn view(&self) -> ConnectionModel {
        ConnectionModel {
            phase: self.phase,
            seen: ids_of(self.seen_session_ids@),
            open: ids_of(self.open_session_ids@),
            capabilities: self.host_capabilities@,
        }
    }
}

impl HostConnection {
    /// The connection's internal invariant: open sessions are among the seen
    /// ones and are listed once each, and nothing is seen before the
    /// handshake.
    pub closed spec fn inv(&self) -> bool {
        &&& ids_of(self.open_session_ids@).subset_of(ids_of(self.seen_session_ids@))
        &&& distinct_ids(self.open_session_ids@)
        &&& self.phase == Phase::AwaitingHello ==> self.seen_session_ids@.len() == 0
    }

    /// A connection that has received nothing, for a host that offers no
    /// capability.
    pub fn new() -> (c: HostConnection)
        ensures
            c@ == initial(Seq::empty()),
            well_formed(c@),
            c.inv(),
    {
        let c = HostConnection {
            phase: Phase::AwaitingHello,
            seen_session_ids: Vec::new(),
            open_session_ids: Vec::new(),
            host_capabilities: CapabilitySet::empty(),
        };
        assert(ids_of(c.seen_session_ids@) =~= Set::empty());
        assert(ids_of(c.open_session_ids@) =~= Set::empty());
        assert(c@.seen =~= Set::empty());
        c
    }

    /// Where the connection stands.
    pub fn phase(&self) -> (p: Phase)
        ensures
            p == self@.phase,
    {
        self.phase
    }
}


impl HostError {
    /// The text that describes the fault.
    pub fn message(&self) -> (text: String)
        ensures
            text@ == error_text(self@),
    {
        match self {
            HostError::SecondClientHello => String::from_str(
                "received a second code-mode client hello",
            ),
            HostError::SessionIdReused(id) => {
                let text = String::from_str("code-mode session ID `");
                let text = text.concat(id.as_str());
                text.concat("` was reused")
            },
            HostError::UnknownSession(id) => {
                let text = String::from_str("cannot close unknown code-mode session `");
                let text = text.concat(id.as_str());
                text.concat("`")
            },
        }
    }
}

/// The first capability of `required` that `offered` lacks, if any.
pub fn first_missing_capability(required: &CapabilitySet, offered: &CapabilitySet) -> (r: Option<
    Capability,
>)
    ensures
        r is None <==> first_missing(required@, offered@) is None,
        r matches Some(c) ==> first_missing(required@, offered@) == Some(c@),
        r matches Some(c) ==> exists|k: int|
            0 <= k < required@.len() && required@[k] == c@ && !offered@.contains(c@) && forall|j: int|
                0 <= j < k ==> offered@.contains(#[trigger] required@[j]),
        r is None ==> forall|j: int| 0 <= j < required@.len() ==> offered@.contains(#[trigger] required@[j]),
{
    let n = required.items.len();
    let mut i: usize = 0;
    assert(required@.skip(0) =~= required@);
    while i < n
        invariant
            n == required@.len(),
            n == required.items@.len(),
            i <= n,
            first_missing(required@, offered@) == first_missing(required@.skip(i as int), offered@),
            forall|j: int| 0 <= j < i ==> offered@.contains(#[trigger] required@[j]),
        decreases n - i,
    {
        let c = &required.items[i];
        assert(required@[i as int] == c@);
        assert(required@.skip(i as int)[0] == c@);
        assert(required@.skip(i as int).drop_first() =~= required@.skip(i + 1));
        if !offered.contains(c) {
            return Some(c.duplicate());
        }
        i = i + 1;
    }
    assert(required@.skip(n as int).len() == 0);
    None
}

/// The host's answer to a client hello, given the capabilities it offers.
pub fn answer_hello(hello: &ClientHello, offered: &CapabilitySet) -> (reply: HostToClient)
    ensures
        reply@ == handshake_reply(hello@, offered@),
{
    if !hello.supported_versions().contains(ProtocolVersion::v1()) {
        let versions = SupportedProtocolVersions::new(vec![ProtocolVersion::v1()]);
        assert(versions@ =~= seq![spec_v1()]);
        HostToClient::HandshakeRejected {
            reason: HandshakeRejectReason::NoCompatibleVersion { supported_versions: versions },
        }
    } else {
        match first_missing_capability(hello.required_capabilities(), offered) {
            Some(capability) => HostToClient::HandshakeRejected {
                reason: HandshakeRejectReason::MissingRequiredCapability { capability },
            },
            None => HostToClient::HostHello(HostHello::new(ProtocolVersion::v1(), offered.duplicate())),
        }
    }
}

impl HostConnection {
    /// Handles one message of the client: updates the connection and says
    /// what the host does next.
    pub fn handle_message(&mut self, message: ClientToHost) -> (action: HostAction)
        requires
            old(self).inv(),
        ensures
            final(self).inv(),
            final(self)@ == next(old(self)@, message@).0,
            action@ == next(old(self)@, message@).1,
            well_formed(final(self)@),
    {
        let action = match self.phase {
            Phase::Ended => HostAction::Close,
            Phase::AwaitingHello => match message {
                ClientToHost::ClientHello(hello) => {
                    let reply = answer_hello(&hello, &self.host_capabilities);
                    match reply {
                        HostToClient::HostHello(_) => {
                            self.phase = Phase::Established;
                            HostAction::Reply(reply)
                        },
                        _ => {
                            self.phase = Phase::Ended;
                            HostAction::ReplyAndClose(reply)
                        },
                    }
                },
                _ => {
                    self.phase = Phase::Ended;
                    let text = String::from_str("first message must be connection/hello");
                    HostAction::ReplyAndClose(
                        HostToClient::HandshakeRejected {
                            reason: HandshakeRejectReason::InvalidHello { message: text },
                        },
                    )
                },
            },
            Phase::Established => match message {
                ClientToHost::ClientHello(_) => {
                    self.phase = Phase::Ended;
                    HostAction::Fail(HostError::SecondClientHello)
                },
                ClientToHost::OpenSession { session_id } => {
                    if position_of(&self.seen_session_ids, &session_id).is_some() {
                        self.phase = Phase::Ended;
                        HostAction::Fail(HostError::SessionIdReused(session_id))
                    } else {
                        let seen_entry = session_id.duplicate();
                        let open_entry = session_id.duplicate();
                        proof {
                            lemma_ids_of_push(self.seen_session_ids@, seen_entry);
                            lemma_ids_of_push(self.open_session_ids@, open_entry);
                            let v = self.open_session_ids@;
                            assert forall|i: int| 0 <= i < v.len() implies v[i]@ != open_entry@ by {
                                assert(ids_of(v).contains(v[i]@));
                            }
                        }
                        self.seen_session_ids.push(seen_entry);
                        self.open_session_ids.push(open_entry);
                        HostAction::Reply(HostToClient::SessionReady { session_id })
                    }
                },
                ClientToHost::CloseSession { session_id } => {
                    match position_of(&self.open_session_ids, &session_id) {
                        None => {
                            self.phase = Phase::Ended;
                            HostAction::Fail(HostError::UnknownSession(session_id))
                        },
                        Some(k) => {
                            proof {
                                lemma_ids_of_remove(self.open_session_ids@, k as int);
                            }
                            self.open_session_ids.remove(k);
                            HostAction::Reply(HostToClient::SessionClosed { session_id })
                        },
                    }
                },
            },
        };
        proof {
            if self.phase == Phase::AwaitingHello {
                assert(self@.seen =~= Set::empty());
            }
        }
        action
    }

    /// Handles the end of the client's input: the connection ends without
    /// error.
    pub fn handle_end_of_input(&mut self) -> (action: HostAction)
        requires
            old(self).inv(),
        ensures
            final(self).inv(),
            final(self)@ == end_of_input(old(self)@).0,
            action@ == end_of_input(old(self)@).1,
            action@ == HostActionModel::Close,
            final(self)@.phase == Phase::Ended,
            well_formed(final(self)@),
    {
        self.phase = Phase::Ended;
        HostAction::Close
    }
}


// ---------------------------------------------------------------------------
// A whole connection
// ---------------------------------------------------------------------------

/// The views of a list of messages.
pub open spec fn host_messages(v: Seq<HostToClient>) -> Seq<HostToClientModel> {
    v.map_values(|m: HostToClient| m@)
}

/// The views of a list of messages.
pub open spec fn client_messages(v: Seq<ClientToHost>) -> Seq<ClientToHostModel> {
    v.map_values(|m: ClientToHost| m@)
}

/// What a host writes, and how the connection ends, when the client sends
/// `input` and then closes its side, starting from the state `s`.
pub open spec fn serve_model(s: ConnectionModel, input: Seq<ClientToHostModel>) -> (
    Seq<HostToClientModel>,
    Result<(), HostErrorModel>,
)
    decreases input.len(),
{
    if input.len() == 0 {
        (Seq::empty(), Ok(()))
    } else {
        let (s2, action) = next(s, input[0]);
        match action {
            HostActionModel::Reply(r) => {
                let (rest, outcome) = serve_model(s2, input.drop_first());
                (seq![r] + rest, outcome)
            },
            HostActionModel::ReplyAndClose(r) => (seq![r], Ok(())),
            HostActionModel::Close => (Seq::empty(), Ok(())),
            HostActionModel::Fail(e) => (Seq::empty(), Err(e)),
        }
    }
}

/// The view of how a connection ended.
pub open spec fn outcome_view(r: Result<(), HostError>) -> Result<(), HostErrorModel> {
    match r {
        Ok(()) => Ok(()),
        Err(e) => Err(e@),
    }
}

/// Serves one whole connection on which the client sends `input` and then
/// closes its side: returns the messages that the host writes, in order, and
/// whether the connection ended normally or with a fault.
pub fn serve_connection(input: Vec<ClientToHost>) -> (result: (Vec<HostToClient>, Result<(), HostError>))
    ensures
        host_messages(result.0@) == serve_model(initial(Seq::empty()), client_messages(input@)).0,
        outcome_view(result.1) == serve_model(initial(Seq::empty()), client_messages(input@)).1,
{
    let ghost whole = client_messages(input@);
    let mut remaining = input;
    let mut connection = HostConnection::new();
    let mut replies: Vec<HostToClient> = Vec::new();
    loop
        invariant
            whole == client_messages(input@),
            connection.inv(),
            serve_model(initial(Seq::empty()), whole).0 == host_messages(replies@) + serve_model(
                connection@,
                client_messages(remaining@),
            ).0,
            serve_model(initial(Seq::empty()), whole).1 == serve_model(
                connection@,
                client_messages(remaining@),
            ).1,
        decreases remaining@.len(),
    {
        if remaining.len() == 0 {
            let _ = connection.handle_end_of_input();
            assert(client_messages(remaining@) =~= Seq::<ClientToHostModel>::empty());
            assert(host_messages(replies@) + Seq::<HostToClientModel>::empty() =~= host_messages(replies@));
            return (replies, Ok(()));
        }
        let ghost rest = remaining@;
        let message = remaining.remove(0);
        proof {
            assert(client_messages(rest)[0] == message@);
            assert(client_messages(rest).drop_first() =~= client_messages(remaining@));
        }
        let ghost before = connection@;
        let action = connection.handle_message(message);
        proof {
            assert(client_messages(rest).len() > 0);
        }
        match action {
            HostAction::Reply(reply) => {
                let ghost r = reply@;
                let ghost old_replies = replies@;
                replies.push(reply);
                proof {
                    assert(host_messages(replies@) =~= host_messages(old_replies).push(r));
                    let tail = serve_model(connection@, client_messages(remaining@)).0;
                    assert(serve_model(before, client_messages(rest)).0 == seq![r] + tail);
                    assert(host_messages(old_replies) + (seq![r] + tail) =~= host_messages(replies@)
                        + tail);
                }
            },
            HostAction::ReplyAndClose(reply) => {
                let ghost r = reply@;
                let ghost old_replies = replies@;
                replies.push(reply);
                proof {
                    assert(host_messages(replies@) =~= host_messages(old_replies).push(r));
                    assert(host_messages(old_replies) + seq![r] =~= host_messages(replies@));
                }
                return (replies, Ok(()));
            },
            HostAction::Close => {
                assert(serve_model(before, client_messages(rest)) == (
                    Seq::<HostToClientModel>::empty(),
                    Ok::<(), HostErrorModel>(()),
                ));
                assert(host_messages(replies@) + Seq::<HostToClientModel>::empty() =~= host_messages(replies@));
                return (replies, Ok(()));
            },
            HostAction::Fail(e) => {
                assert(host_messages(replies@) + Seq::<HostToClientModel>::empty() =~= host_messages(replies@));
                return (replies, Err(e));
            },
        }
    }
}


/// What a failed write of a reply is reported as.
pub open spec fn write_context_text(reply: HostToClientModel) -> Seq<char> {
    match reply {
        HostToClientModel::HostHello { .. } => "failed to write code-mode host hello"@,
        HostToClientModel::Rejected(reason) => match reason {
            RejectReasonModel::InvalidHello(_) => "failed to reject invalid code-mode client hello"@,
            RejectReasonModel::NoCompatibleVersion(_) => "failed to reject incompatible code-mode client"@,
            RejectReasonModel::MissingRequiredCapability(_) =>
                "failed to reject unsupported code-mode capability"@,
        },
        HostToClientModel::SessionReady(_) => "failed to acknowledge opened code-mode session"@,
        HostToClientModel::SessionClosed(_) => "failed to acknowledge closed code-mode session"@,
    }
}

/// What a failed write of `reply` is reported as.
pub fn write_context(reply: &HostToClient) -> (text: &'static str)
    ensures
        text@ == write_context_text(reply@),
{
    match reply {
        HostToClient::HostHello(_) => "failed to write code-mode host hello",
        HostToClient::HandshakeRejected { reason } => match reason {
            HandshakeRejectReason::InvalidHello { .. } => "failed to reject invalid code-mode client hello",
            HandshakeRejectReason::NoCompatibleVersion { .. } => "failed to reject incompatible code-mode client",
            HandshakeRejectReason::MissingRequiredCapability { .. } =>
                "failed to reject unsupported code-mode capability",
        },
        HostToClient::SessionReady { .. } => "failed to acknowledge opened code-mode session",
        HostToClient::SessionClosed { .. } => "failed to acknowledge closed code-mode session",
    }
}

} // verus!
