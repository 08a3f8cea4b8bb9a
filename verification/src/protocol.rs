//! The values exchanged between a code-mode client and its host: protocol
//! versions, capabilities, session identifiers and the messages of the
//! handshake and of the session lifecycle.
//!
//! Each type has a view: strings are seen as their characters, lists as
//! sequences, and messages as the spec datatypes `*Model` below, over which
//! the host's contracts are stated.

use vstd::prelude::*;

verus! {

/// A version of the code-mode host protocol.
#[derive(Clone, Copy, Debug, PartialEq, Eq, Structural)]
pub struct ProtocolVersion {
    pub value: u32,
}

/// The first (and currently only) protocol version that the host speaks.
pub open spec fn spec_v1() -> ProtocolVersion {
    ProtocolVersion { value: 1 }
}

impl ProtocolVersion {
    /// The version with the given number.
    pub fn new(value: u32) -> (v: ProtocolVersion)
        ensures
            v.value == value,
    {
        ProtocolVersion { value }
    }

    /// Version 1 of the protocol.
    pub fn v1() -> (v: ProtocolVersion)
        ensures
            v == spec_v1(),
    {
        ProtocolVersion { value: 1 }
    }

    /// The version's number.
    pub fn value(&self) -> (n: u32)
        ensures
            n == self.value,
    {
        self.value
    }
}

/// The identifier that a client gives a logical session.
#[derive(Clone, Debug, PartialEq, Eq)]
pub struct SessionId {
    pub value: String,
}

impl View for SessionId {
    type V = Seq<char>;

    open spec fn view(&self) -> Seq<char> {
        self.value@
    }
}

impl SessionId {
    /// The identifier with the given text.
    pub fn new(value: &str) -> (id: SessionId)
        ensures
            id@ == value@,
    {
        SessionId { value: String::from_str(value) }
    }

    /// The identifier's text.
    pub fn as_str(&self) -> (s: &str)
        ensures
            s@ == self@,
    {
        self.value.as_str()
    }

    /// A second identifier with the same text.
    pub fn duplicate(&self) -> (id: SessionId)
        ensures
            id@ == self@,
    {
        SessionId { value: self.value.clone() }
    }

    /// Whether both identifiers have the same text.
    pub fn same_as(&self, other: &SessionId) -> (b: bool)
        ensures
            b == (self@ == other@),
    {
        self.value == other.value
    }
}

/// A named optional feature of the protocol.
#[derive(Clone, Debug, PartialEq, Eq)]
pub struct Capability {
    pub name: String,
}

impl View for Capability {
    type V = Seq<char>;

    open spec fn view(&self) -> Seq<char> {
        self.name@
    }
}

impl Capability {
    /// The capability with the given name.
    pub fn new(name: &str) -> (c: Capability)
        ensures
            c@ == name@,
    {
        Capability { name: String::from_str(name) }
    }

    /// A second capability with the same name.
    pub fn duplicate(&self) -> (c: Capability)
        ensures
            c@ == self@,
    {
        Capability { name: self.name.clone() }
    }
}

/// The names of a list of capabilities, in order.
pub open spec fn capability_names(items: Seq<Capability>) -> Seq<Seq<char>> {
    items.map_values(|c: Capability| c@)
}

/// An ordered collection of capabilities.
#[derive(Clone, Debug, PartialEq, Eq)]
pub struct CapabilitySet {
    pub items: Vec<Capability>,
}

impl View for CapabilitySet {
    type V = Seq<Seq<char>>;

    open spec fn view(&self) -> Seq<Seq<char>> {
        capability_names(self.items@)
    }
}

impl CapabilitySet {
    /// The set without any capability.
    pub fn empty() -> (s: CapabilitySet)
        ensures
            s@ == Seq::<Seq<char>>::empty(),
    {
        let s = CapabilitySet { items: Vec::new() };
        assert(s@ =~= Seq::<Seq<char>>::empty());
        s
    }

    /// The set holding the given capabilities, in the given order.
    pub fn new(items: Vec<Capability>) -> (s: CapabilitySet)
        ensures
            s@ == capability_names(items@),
    {
        CapabilitySet { items }
    }

    /// The number of capabilities.
    pub fn len(&self) -> (n: usize)
        ensures
            n == self@.len(),
    {
        self.items.len()
    }

    /// Whether some capability of the set has the name of `capability`.
    pub fn contains(&self, capability: &Capability) -> (b: bool)
        ensures
            b == self@.contains(capability@),
    {
        let n = self.items.len();
        for i in 0..n
            invariant
                n == self.items@.len(),
                forall|j: int| 0 <= j < i ==> self.items@[j]@ != capability@,
        {
            if self.items[i].name == capability.name {
                assert(self@[i as int] == capability@);
                return true;
            }
        }
        proof {
            if self@.contains(capability@) {
                let k = choose|k: int| 0 <= k < self@.len() && self@[k] == capability@;
                assert(self.items@[k]@ == capability@);
            }
        }
        false
    }

    /// A second set with the same capabilities in the same order.
    pub fn duplicate(&self) -> (s: CapabilitySet)
        ensures
            s@ == self@,
    {
        let mut items: Vec<Capability> = Vec::new();
        let n = self.items.len();
        for i in 0..n
            invariant
                n == self.items@.len(),
                items@.len() == i,
                forall|j: int| 0 <= j < i ==> #[trigger] items@[j]@ == self.items@[j]@,
        {
            items.push(self.items[i].duplicate());
        }
        let s = CapabilitySet { items };
        assert(s@ =~= self@);
        s
    }
}

/// The protocol versions that one side of a connection can speak.
#[derive(Clone, Debug, PartialEq, Eq)]
pub struct SupportedProtocolVersions {
    pub versions: Vec<ProtocolVersion>,
}

impl View for SupportedProtocolVersions {
    type V = Seq<ProtocolVersion>;

    open spec fn view(&self) -> Seq<ProtocolVersion> {
        self.versions@
    }
}

impl SupportedProtocolVersions {
    /// The given versions, in the given order.
    pub fn new(versions: Vec<ProtocolVersion>) -> (s: SupportedProtocolVersions)
        ensures
            s@ == versions@,
    {
        SupportedProtocolVersions { versions }
    }

    /// Whether `version` is among the versions.
    pub fn contains(&self, version: ProtocolVersion) -> (b: bool)
        ensures
            b == self@.contains(version),
    {
        let n = self.versions.len();
        for i in 0..n
            invariant
                n == self.versions@.len(),
                forall|j: int| 0 <= j < i ==> self.versions@[j] != version,
        {
            if self.versions[i] == version {
                return true;
            }
        }
        false
    }
}

/// The first message of a client: the versions it speaks, the capabilities
/// it cannot work without and those it would use if offered.
#[derive(Clone, Debug, PartialEq, Eq)]
pub struct ClientHello {
    pub supported_versions: SupportedProtocolVersions,
    pub required_capabilities: CapabilitySet,
    pub optional_capabilities: CapabilitySet,
}

/// What a host reads of a client's hello.
pub struct ClientHelloModel {
    pub versions: Seq<ProtocolVersion>,
    pub required: Seq<Seq<char>>,
    pub optional: Seq<Seq<char>>,
}

impl View for ClientHello {
    type V = ClientHelloModel;

    open spec fn view(&self) -> ClientHelloModel {
        ClientHelloModel {
            versions: self.supported_versions@,
            required: self.required_capabilities@,
            optional: self.optional_capabilities@,
        }
    }
}

impl ClientHello {
    /// The hello with the given versions and capabilities.
    pub fn new(
        supported_versions: SupportedProtocolVersions,
        required_capabilities: CapabilitySet,
        optional_capabilities: CapabilitySet,
    ) -> (h: ClientHello)
        ensures
            h@.versions == supported_versions@,
            h@.required == required_capabilities@,
            h@.optional == optional_capabilities@,
    {
        ClientHello { supported_versions, required_capabilities, optional_capabilities }
    }

    /// The versions that the client speaks.
    pub fn supported_versions(&self) -> (v: &SupportedProtocolVersions)
        ensures
            v@ == self@.versions,
    {
        &self.supported_versions
    }

    /// The capabilities that the client requires of the host.
    pub fn required_capabilities(&self) -> (c: &CapabilitySet)
        ensures
            c@ == self@.required,
    {
        &self.required_capabilities
    }
}

/// The host's answer to an accepted hello: the version chosen and the
/// capabilities that the host offers.
#[derive(Clone, Debug, PartialEq, Eq)]
pub struct HostHello {
    pub version: ProtocolVersion,
    pub capabilities: CapabilitySet,
}

impl HostHello {
    /// The hello for the given version and capabilities.
    pub fn new(version: ProtocolVersion, capabilities: CapabilitySet) -> (h: HostHello)
        ensures
            h.version == version,
            h.capabilities@ == capabilities@,
    {
        HostHello { version, capabilities }
    }
}

/// Why a host refused a client's hello.
#[derive(Clone, Debug, PartialEq, Eq)]
pub enum HandshakeRejectReason {
    /// The first message was not a hello.
    InvalidHello { message: String },
    /// The client speaks none of the host's versions, which are listed.
    NoCompatibleVersion { supported_versions: SupportedProtocolVersions },
    /// The client requires a capability that the host lacks.
    MissingRequiredCapability { capability: Capability },
}

/// The view of a rejection reason.
pub enum RejectReasonModel {
    InvalidHello(Seq<char>),
    NoCompatibleVersion(Seq<ProtocolVersion>),
    MissingRequiredCapability(Seq<char>),
}

impl View for HandshakeRejectReason {
    type V = RejectReasonModel;

    open spec fn view(&self) -> RejectReasonModel {
        match self {
            HandshakeRejectReason::InvalidHello { message } => RejectReasonModel::InvalidHello(
                message@,
            ),
            HandshakeRejectReason::NoCompatibleVersion { supported_versions } =>
                RejectReasonModel::NoCompatibleVersion(supported_versions@),
            HandshakeRejectReason::MissingRequiredCapability { capability } =>
                RejectReasonModel::MissingRequiredCapability(capability@),
        }
    }
}

/// A message from a client to its host.
#[derive(Clone, Debug, PartialEq, Eq)]
pub enum ClientToHost {
    /// Opens the handshake.
    ClientHello(ClientHello),
    /// Asks for a new logical session with the given identifier.
    OpenSession { session_id: SessionId },
    /// Asks to close the logical session with the given identifier.
    CloseSession { session_id: SessionId },
}

/// The view of a client's message.
pub enum ClientToHostModel {
    Hello(ClientHelloModel),
    Open(Seq<char>),
    Close(Seq<char>),
}

impl View for ClientToHost {
    type V = ClientToHostModel;

    open spec fn view(&self) -> ClientToHostModel {
        match self {
            ClientToHost::ClientHello(h) => ClientToHostModel::Hello(h@),
            ClientToHost::OpenSession { session_id } => ClientToHostModel::Open(session_id@),
            ClientToHost::CloseSession { session_id } => ClientToHostModel::Close(session_id@),
        }
    }
}

/// A message from a host to its client.
#[derive(Clone, Debug, PartialEq, Eq)]
pub enum HostToClient {
    /// Accepts the handshake.
    HostHello(HostHello),
    /// Refuses the handshake; the host then ends the connection.
    HandshakeRejected { reason: HandshakeRejectReason },
    /// Acknowledges an opened session.
    SessionReady { session_id: SessionId },
    /// Acknowledges a closed session.
    SessionClosed { session_id: SessionId },
}

/// The view of a host's message.
pub enum HostToClientModel {
    HostHello { version: ProtocolVersion, capabilities: Seq<Seq<char>> },
    Rejected(RejectReasonModel),
    SessionReady(Seq<char>),
    SessionClosed(Seq<char>),
}

impl View for HostToClient {
    type V = HostToClientModel;

    open spec fn view(&self) -> HostToClientModel {
        match self {
            HostToClient::HostHello(h) => HostToClientModel::HostHello {
                version: h.version,
                capabilities: h.capabilities@,
            },
            HostToClient::HandshakeRejected { reason } => HostToClientModel::Rejected(reason@),
            HostToClient::SessionReady { session_id } => HostToClientModel::SessionReady(
                session_id@,
            ),
            HostToClient::SessionClosed { session_id } => HostToClientModel::SessionClosed(
                session_id@,
            ),
        }
    }
}

} // verus!
