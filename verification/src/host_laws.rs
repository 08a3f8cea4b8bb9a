//! Properties of the host's state machine that span several messages or
//! every state: what every step keeps, when sessions are acknowledged, and
//! when the handshake succeeds.

use vstd::prelude::*;
use crate::host::{
    end_of_input, first_missing, handshake_reply, initial, invalid_hello_text, next, serve_model,
    well_formed, ConnectionModel, HostActionModel, HostErrorModel, Phase,
};
use crate::protocol::{spec_v1, ClientHelloModel, ClientToHostModel, HostToClientModel, RejectReasonModel};

verus! {

/// Every step keeps the state well formed: open sessions stay among the seen
/// ones, and nothing is seen before the handshake.
pub proof fn law_steps_keep_well_formed(s: ConnectionModel, m: ClientToHostModel)
    requires
        well_formed(s),
    ensures
        well_formed(next(s, m).0),
        well_formed(end_of_input(s).0),
{
}

/// The connection that has received nothing is well formed.
pub proof fn law_initial_well_formed(capabilities: Seq<Seq<char>>)
    ensures
        well_formed(initial(capabilities)),
{
}

/// No step forgets a session identifier that was used, and no step changes
/// the capabilities that the host offers.
pub proof fn law_seen_ids_are_kept(s: ConnectionModel, m: ClientToHostModel)
    ensures
        s.seen.subset_of(next(s, m).0.seen),
        next(s, m).0.capabilities == s.capabilities,
{
}

/// The host acknowledges a session only in answer to opening it, after the
/// handshake, and only if its identifier was never used on the connection;
/// the session is then open.
pub proof fn law_session_ready_only_for_fresh_ids(
    s: ConnectionModel,
    m: ClientToHostModel,
    id: Seq<char>,
)
    requires
        next(s, m).1 == HostActionModel::Reply(HostToClientModel::SessionReady(id)),
    ensures
        m == ClientToHostModel::Open(id),
        s.phase == Phase::Established,
        !s.seen.contains(id),
        next(s, m).0.seen.contains(id),
        next(s, m).0.open.contains(id),
{
}

/// Opening an identifier that was already used faults the connection, also
/// when its session has been closed since.
pub proof fn law_reopening_faults(s: ConnectionModel, id: Seq<char>)
    requires
        s.phase == Phase::Established,
        s.seen.contains(id),
    ensures
        next(s, ClientToHostModel::Open(id)).1 == HostActionModel::Fail(
            HostErrorModel::SessionIdReused(id),
        ),
        next(s, ClientToHostModel::Open(id)).0.phase == Phase::Ended,
{
}

/// Open, close and open again the same identifier: the host acknowledges the
/// first two and faults on the third.
pub proof fn law_session_id_cannot_be_reused_after_close(s: ConnectionModel, id: Seq<char>)
    requires
        well_formed(s),
        s.phase == Phase::Established,
        !s.seen.contains(id),
    ensures
        ({
            let (s1, a1) = next(s, ClientToHostModel::Open(id));
            let (s2, a2) = next(s1, ClientToHostModel::Close(id));
            let (s3, a3) = next(s2, ClientToHostModel::Open(id));
            &&& a1 == HostActionModel::Reply(HostToClientModel::SessionReady(id))
            &&& a2 == HostActionModel::Reply(HostToClientModel::SessionClosed(id))
            &&& a3 == HostActionModel::Fail(HostErrorModel::SessionIdReused(id))
        }),
{
}

/// After the handshake, closing a session is acknowledged exactly when the
/// session is open, and faults the connection otherwise.
pub proof fn law_close_acknowledged_iff_open(s: ConnectionModel, id: Seq<char>)
    requires
        s.phase == Phase::Established,
    ensures
        s.open.contains(id) ==> next(s, ClientToHostModel::Close(id)).1 == HostActionModel::Reply(
            HostToClientModel::SessionClosed(id),
        ) && !next(s, ClientToHostModel::Close(id)).0.open.contains(id),
        !s.open.contains(id) ==> next(s, ClientToHostModel::Close(id)).1 == HostActionModel::Fail(
            HostErrorModel::UnknownSession(id),
        ),
{
}

/// Opening and then closing a fresh session leaves the open sessions as they
/// were.
pub proof fn law_open_then_close_restores_open_sessions(s: ConnectionModel, id: Seq<char>)
    requires
        s.phase == Phase::Established,
        !s.seen.contains(id),
        well_formed(s),
    ensures
        next(next(s, ClientToHostModel::Open(id)).0, ClientToHostModel::Close(id)).0.open == s.open,
{
    assert(s.open.insert(id).remove(id) =~= s.open);
}

/// `first_missing` finds nothing exactly when every required capability is
/// offered, and what it finds is required and not offered.
pub proof fn lemma_first_missing(required: Seq<Seq<char>>, offered: Seq<Seq<char>>)
    ensures
        first_missing(required, offered) is None <==> (forall|i: int|
            0 <= i < required.len() ==> offered.contains(#[trigger] required[i])),
        first_missing(required, offered) matches Some(c) ==> required.contains(c)
            && !offered.contains(c),
    decreases required.len(),
{
    if required.len() > 0 {
        lemma_first_missing(required.drop_first(), offered);
        if offered.contains(required[0]) {
            assert forall|i: int| 0 <= i < required.len() && (forall|j: int|
                0 <= j < required.drop_first().len() ==> offered.contains(
                    #[trigger] required.drop_first()[j],
                )) implies offered.contains(required[i]) by {
                if i > 0 {
                    assert(required[i] == required.drop_first()[i - 1]);
                }
            }
            if first_missing(required, offered) is None {
                assert forall|j: int| 0 <= j < required.drop_first().len() implies offered.contains(
                    #[trigger] required.drop_first()[j],
                ) by {
                    assert(required.drop_first()[j] == required[j + 1]);
                }
            }
            if let Some(c) = first_missing(required, offered) {
                let k = choose|k: int| 0 <= k < required.drop_first().len()
                    && required.drop_first()[k] == c;
                assert(required[k + 1] == c);
            }
        } else {
            // The first required capability is the one found, and it is required.
            assert(required.contains(required[0]));
        }
    }
}

/// The handshake succeeds exactly when the client speaks version 1 and every
/// capability it requires is offered; the host then answers with version 1
/// and its capabilities, and otherwise it refuses and ends the connection.
pub proof fn law_handshake_accepts_iff_compatible(hello: ClientHelloModel, offered: Seq<Seq<char>>)
    ensures
        ({
            let (s1, action) = next(initial(offered), ClientToHostModel::Hello(hello));
            let compatible = hello.versions.contains(spec_v1()) && forall|i: int|
                0 <= i < hello.required.len() ==> offered.contains(#[trigger] hello.required[i]);
            &&& compatible ==> action == HostActionModel::Reply(
                HostToClientModel::HostHello { version: spec_v1(), capabilities: offered },
            ) && s1.phase == Phase::Established
            &&& !compatible ==> action is ReplyAndClose && s1.phase == Phase::Ended
        }),
{
    lemma_first_missing(hello.required, offered);
}

/// A host that offers no capability accepts a hello exactly when the client
/// speaks version 1 and requires nothing.
pub proof fn law_handshake_without_host_capabilities(hello: ClientHelloModel)
    ensures
        next(initial(Seq::empty()), ClientToHostModel::Hello(hello)).1 is Reply <==> (
        hello.versions.contains(spec_v1()) && hello.required.len() == 0),
{
    lemma_first_missing(hello.required, Seq::empty());
    if hello.required.len() > 0 {
        assert(!Seq::<Seq<char>>::empty().contains(hello.required[0]));
    }
}

/// A client that does not speak version 1 is told the host's versions, which
/// are version 1 alone.
pub proof fn law_incompatible_version_lists_host_versions(hello: ClientHelloModel, offered: Seq<Seq<char>>)
    requires
        !hello.versions.contains(spec_v1()),
    ensures
        next(initial(offered), ClientToHostModel::Hello(hello)).1 == HostActionModel::ReplyAndClose(
            HostToClientModel::Rejected(RejectReasonModel::NoCompatibleVersion(seq![spec_v1()])),
        ),
{
}

/// A first message that is not a hello is refused with the reason
/// "first message must be connection/hello", and the connection ends.
pub proof fn law_first_message_must_be_hello(offered: Seq<Seq<char>>, m: ClientToHostModel)
    requires
        !(m is Hello),
    ensures
        next(initial(offered), m).1 == HostActionModel::ReplyAndClose(
            HostToClientModel::Rejected(RejectReasonModel::InvalidHello(invalid_hello_text())),
        ),
        next(initial(offered), m).0.phase == Phase::Ended,
{
}

/// Every action but a plain reply ends the connection, and an ended
/// connection stays ended and answers nothing.
pub proof fn law_connection_end_is_final(s: ConnectionModel, m: ClientToHostModel)
    ensures
        !(next(s, m).1 is Reply) ==> next(s, m).0.phase == Phase::Ended,
        s.phase == Phase::Ended ==> next(s, m) == (s, HostActionModel::Close),
{
}

/// A whole connection writes at most one reply per message received.
pub proof fn law_at_most_one_reply_per_message(s: ConnectionModel, input: Seq<ClientToHostModel>)
    ensures
        serve_model(s, input).0.len() <= input.len(),
    decreases input.len(),
{
    if input.len() > 0 {
        law_at_most_one_reply_per_message(next(s, input[0]).0, input.drop_first());
    }
}

/// A connection whose client closes its side without sending anything ends
/// without a reply and without error.
pub proof fn law_silent_client_is_not_an_error(s: ConnectionModel)
    ensures
        serve_model(s, Seq::empty()) == (Seq::<HostToClientModel>::empty(), Ok::<(), HostErrorModel>(())),
{
}

/// Whatever state the connection is in, the end of the client's input ends
/// it without error: the host closes, keeps its sessions' record, and
/// faults on nothing. In particular a client that closes its side after an
/// accepted hello, or after any acknowledged open or close, is not an error.
pub proof fn law_end_of_input_closes_without_error(s: ConnectionModel)
    ensures
        end_of_input(s).1 == HostActionModel::Close,
        end_of_input(s).0.phase == Phase::Ended,
        end_of_input(s).0.seen == s.seen,
        end_of_input(s).0.open == s.open,
{
}

/// After an accepted hello, the client closing its side ends the connection
/// without error.
pub proof fn law_end_after_accepted_hello_is_not_an_error(hello: ClientHelloModel)
    requires
        hello.versions.contains(spec_v1()),
        hello.required.len() == 0,
    ensures
        ({
            let (s1, a1) = next(initial(Seq::empty()), ClientToHostModel::Hello(hello));
            &&& a1 is Reply
            &&& end_of_input(s1).1 == HostActionModel::Close
        }),
{
    law_handshake_without_host_capabilities(hello);
}

/// The capability that `first_missing` names is the first of `required`, in
/// order, that `offered` lacks: it stands at some position `k` of `required`,
/// `offered` lacks it, and `offered` holds every capability required before
/// position `k`. It names none exactly when `offered` holds them all.
pub proof fn law_first_missing_is_the_first_lacking(required: Seq<Seq<char>>, offered: Seq<Seq<char>>)
    ensures
        first_missing(required, offered) matches Some(c) ==> exists|k: int|
            0 <= k < required.len() && required[k] == c && !offered.contains(c) && forall|j: int|
                0 <= j < k ==> offered.contains(#[trigger] required[j]),
        first_missing(required, offered) is None <==> forall|j: int|
            0 <= j < required.len() ==> offered.contains(#[trigger] required[j]),
    decreases required.len(),
{
    lemma_first_missing(required, offered);
    if required.len() > 0 {
        let rest = required.drop_first();
        law_first_missing_is_the_first_lacking(rest, offered);
        if offered.contains(required[0]) {
            if let Some(c) = first_missing(required, offered) {
                let k = choose|k: int|
                    0 <= k < rest.len() && rest[k] == c && !offered.contains(c) && forall|j: int|
                        0 <= j < k ==> offered.contains(#[trigger] rest[j]);
                assert(required[k + 1] == c);
                assert forall|j: int| 0 <= j < k + 1 implies offered.contains(#[trigger] required[j]) by {
                    if j > 0 {
                        assert(required[j] == rest[j - 1]);
                    }
                }
            }
        } else {
            assert(required[0] == first_missing(required, offered)->Some_0);
        }
    }
}

/// A hello refused for a missing capability names the first capability the
/// client requires, in the client's order, that the host does not offer.
pub proof fn law_refusal_names_first_missing_capability(
    hello: ClientHelloModel,
    offered: Seq<Seq<char>>,
    c: Seq<char>,
)
    requires
        handshake_reply(hello, offered) == HostToClientModel::Rejected(
            RejectReasonModel::MissingRequiredCapability(c),
        ),
    ensures
        hello.versions.contains(spec_v1()),
        exists|k: int|
            0 <= k < hello.required.len() && hello.required[k] == c && !offered.contains(c)
                && forall|j: int| 0 <= j < k ==> offered.contains(#[trigger] hello.required[j]),
{
    law_first_missing_is_the_first_lacking(hello.required, offered);
}

} // verus!
