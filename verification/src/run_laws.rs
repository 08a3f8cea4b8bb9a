//! Properties of whole connections: what a host writes over a complete run,
//! in closed form, and what holds of every run's output.

use vstd::prelude::*;
use crate::host::{
    initial, next, serve_model, ConnectionModel, HostActionModel, HostErrorModel, Phase,
};
use crate::host_laws::lemma_first_missing;
use crate::protocol::{spec_v1, ClientHelloModel, ClientToHostModel, HostToClientModel};

verus! {

// ---------------------------------------------------------------------------
// The closed form of a run after an accepted hello
// ---------------------------------------------------------------------------

/// Some message before position `i` opens `id`.
pub open spec fn opened_before(ms: Seq<ClientToHostModel>, i: int, id: Seq<char>) -> bool {
    exists|j: int| 0 <= j < i && ms[j] == ClientToHostModel::Open(id)
}

/// Some message before position `i` closes `id`.
pub open spec fn closed_before(ms: Seq<ClientToHostModel>, i: int, id: Seq<char>) -> bool {
    exists|j: int| 0 <= j < i && ms[j] == ClientToHostModel::Close(id)
}

/// The message at position `i` is one that the host acknowledges, given the
/// messages before it: an open of an identifier not opened before, or a close
/// of one opened and not yet closed. A hello is never acknowledged there.
pub open spec fn acknowledged(ms: Seq<ClientToHostModel>, i: int) -> bool {
    match ms[i] {
        ClientToHostModel::Open(id) => !opened_before(ms, i, id),
        ClientToHostModel::Close(id) => opened_before(ms, i, id) && !closed_before(ms, i, id),
        ClientToHostModel::Hello(_) => false,
    }
}

/// The first position at or after `i` whose message is not acknowledged, or
/// the length of `ms` if there is none.
pub open spec fn first_refused_from(ms: Seq<ClientToHostModel>, i: int) -> int
    decreases ms.len() - i,
{
    if i >= ms.len() {
        ms.len() as int
    } else if !acknowledged(ms, i) {
        i
    } else {
        first_refused_from(ms, i + 1)
    }
}

/// The first position whose message is not acknowledged, or the length of
/// `ms` if there is none.
pub open spec fn first_refused(ms: Seq<ClientToHostModel>) -> int {
    first_refused_from(ms, 0)
}

/// The acknowledgement of an open or a close.
pub open spec fn acknowledgement(m: ClientToHostModel) -> HostToClientModel {
    match m {
        ClientToHostModel::Open(id) => HostToClientModel::SessionReady(id),
        ClientToHostModel::Close(id) => HostToClientModel::SessionClosed(id),
        ClientToHostModel::Hello(_) => HostToClientModel::SessionClosed(Seq::empty()),
    }
}

/// The acknowledgements of a list of opens and closes, in order.
pub open spec fn acknowledgements(ms: Seq<ClientToHostModel>) -> Seq<HostToClientModel> {
    ms.map_values(|m: ClientToHostModel| acknowledgement(m))
}

/// The fault that a message that is not acknowledged causes.
pub open spec fn refusal(m: ClientToHostModel) -> HostErrorModel {
    match m {
        ClientToHostModel::Hello(_) => HostErrorModel::SecondClientHello,
        ClientToHostModel::Open(id) => HostErrorModel::SessionIdReused(id),
        ClientToHostModel::Close(id) => HostErrorModel::UnknownSession(id),
    }
}

/// The state of a connection without host capabilities after the handshake
/// and the messages before position `i`.
pub open spec fn state_after(ms: Seq<ClientToHostModel>, i: int) -> ConnectionModel {
    ConnectionModel {
        phase: Phase::Established,
        seen: Set::new(|id: Seq<char>| opened_before(ms, i, id)),
        open: Set::new(|id: Seq<char>| opened_before(ms, i, id) && !closed_before(ms, i, id)),
        capabilities: Seq::empty(),
    }
}

proof fn lemma_first_refused_from(ms: Seq<ClientToHostModel>, i: int)
    requires
        0 <= i <= ms.len(),
    ensures
        i <= first_refused_from(ms, i) <= ms.len(),
        forall|j: int| i <= j < first_refused_from(ms, i) ==> acknowledged(ms, j),
        first_refused_from(ms, i) < ms.len() ==> !acknowledged(ms, first_refused_from(ms, i)),
    decreases ms.len() - i,
{
    if i < ms.len() && acknowledged(ms, i) {
        lemma_first_refused_from(ms, i + 1);
    }
}

/// One message after an acknowledged prefix: an acknowledged message moves to
/// the next state with its acknowledgement, any other faults.
proof fn lemma_step(ms: Seq<ClientToHostModel>, i: int)
    requires
        0 <= i < ms.len(),
        forall|j: int| 0 <= j < i ==> acknowledged(ms, j),
    ensures
        acknowledged(ms, i) ==> next(state_after(ms, i), ms[i]) == (
            state_after(ms, i + 1),
            HostActionModel::Reply(acknowledgement(ms[i])),
        ),
        !acknowledged(ms, i) ==> next(state_after(ms, i), ms[i]).1 == HostActionModel::Fail(
            refusal(ms[i]),
        ),
{
    let s = state_after(ms, i);
    let t = state_after(ms, i + 1);
    // Within an acknowledged prefix, a close comes after an open.
    assert forall|id: Seq<char>| closed_before(ms, i, id) implies opened_before(ms, i, id) by {
        let j = choose|j: int| 0 <= j < i && ms[j] == ClientToHostModel::Close(id);
        assert(acknowledged(ms, j));
        let k = choose|k: int| 0 <= k < j && ms[k] == ClientToHostModel::Open(id);
        assert(0 <= k < i && ms[k] == ClientToHostModel::Open(id));
    }
    match ms[i] {
        ClientToHostModel::Open(id) => {
            if acknowledged(ms, i) {
                assert forall|x: Seq<char>| opened_before(ms, i + 1, x) <==> (opened_before(ms, i, x)
                    || x == id) by {
                    if x == id {
                        assert(ms[i] == ClientToHostModel::Open(x));
                    }
                    if opened_before(ms, i + 1, x) && x != id {
                        let j = choose|j: int| 0 <= j < i + 1 && ms[j] == ClientToHostModel::Open(x);
                        assert(j < i);
                    }
                }
                assert forall|x: Seq<char>| closed_before(ms, i + 1, x) <==> closed_before(ms, i, x) by {
                    if closed_before(ms, i + 1, x) {
                        let j = choose|j: int| 0 <= j < i + 1 && ms[j] == ClientToHostModel::Close(x);
                        assert(j < i);
                    }
                }
                assert(next(s, ms[i]).0 =~= t);
            }
        },
        ClientToHostModel::Close(id) => {
            assert forall|x: Seq<char>| opened_before(ms, i + 1, x) <==> opened_before(ms, i, x) by {
                if opened_before(ms, i + 1, x) {
                    let j = choose|j: int| 0 <= j < i + 1 && ms[j] == ClientToHostModel::Open(x);
                    assert(j < i);
                }
            }
            assert forall|x: Seq<char>| closed_before(ms, i + 1, x) <==> (closed_before(ms, i, x)
                || x == id) by {
                if x == id {
                    assert(ms[i] == ClientToHostModel::Close(x));
                }
                if closed_before(ms, i + 1, x) && x != id {
                    let j = choose|j: int| 0 <= j < i + 1 && ms[j] == ClientToHostModel::Close(x);
                    assert(j < i);
                }
            }
            if acknowledged(ms, i) {
                assert(s.open.contains(id));
                assert(next(s, ms[i]).0 =~= t);
            } else {
                assert(!s.open.contains(id));
            }
        },
        ClientToHostModel::Hello(_) => {},
    }
}

/// From an acknowledged prefix of length `i`, the rest of the run writes the
/// acknowledgements up to the first refused message, and faults there if
/// there is one.
proof fn lemma_run_from(ms: Seq<ClientToHostModel>, i: int)
    requires
        0 <= i <= ms.len(),
        forall|j: int| 0 <= j < i ==> acknowledged(ms, j),
    ensures
        ({
            let k = first_refused_from(ms, i);
            serve_model(state_after(ms, i), ms.skip(i)) == (
                acknowledgements(ms.subrange(i, k)),
                if k == ms.len() {
                    Ok::<(), HostErrorModel>(())
                } else {
                    Err::<(), HostErrorModel>(refusal(ms[k]))
                },
            )
        }),
    decreases ms.len() - i,
{
    let k = first_refused_from(ms, i);
    lemma_first_refused_from(ms, i);
    if i == ms.len() {
        assert(ms.skip(i).len() == 0);
        assert(acknowledgements(ms.subrange(i, k)) =~= Seq::<HostToClientModel>::empty());
    } else {
        lemma_step(ms, i);
        assert(ms.skip(i)[0] == ms[i]);
        if acknowledged(ms, i) {
            assert forall|j: int| 0 <= j < i + 1 implies acknowledged(ms, j) by {}
            lemma_run_from(ms, i + 1);
            assert(ms.skip(i).drop_first() =~= ms.skip(i + 1));
            assert(first_refused_from(ms, i + 1) == k);
            assert(acknowledgements(ms.subrange(i, k)) =~= seq![acknowledgement(ms[i])]
                + acknowledgements(ms.subrange(i + 1, k)));
        } else {
            assert(k == i);
            assert(acknowledgements(ms.subrange(i, k)) =~= Seq::<HostToClientModel>::empty());
        }
    }
}

/// A whole run after a hello that a host without capabilities accepts (the
/// client speaks version 1 and requires nothing): the host writes its hello,
/// then acknowledges each open and close up to the first one it refuses; the
/// run succeeds exactly when it refuses none, and otherwise fails with the
/// fault of the first refused message, after which nothing more is read.
pub proof fn law_run_closed_form(hello: ClientHelloModel, ms: Seq<ClientToHostModel>)
    requires
        hello.versions.contains(spec_v1()),
        hello.required.len() == 0,
    ensures
        ({
            let k = first_refused(ms);
            &&& 0 <= k <= ms.len()
            &&& forall|j: int| 0 <= j < k ==> acknowledged(ms, j)
            &&& k < ms.len() ==> !acknowledged(ms, k)
            &&& serve_model(initial(Seq::empty()), seq![ClientToHostModel::Hello(hello)] + ms) == (
                seq![HostToClientModel::HostHello { version: spec_v1(), capabilities: Seq::empty() }]
                    + acknowledgements(ms.subrange(0, k)),
                if k == ms.len() {
                    Ok::<(), HostErrorModel>(())
                } else {
                    Err::<(), HostErrorModel>(refusal(ms[k]))
                },
            )
        }),
{
    lemma_first_missing(hello.required, Seq::empty());
    lemma_first_refused_from(ms, 0);
    lemma_run_from(ms, 0);
    let input = seq![ClientToHostModel::Hello(hello)] + ms;
    assert(input[0] == ClientToHostModel::Hello(hello));
    assert(input.drop_first() =~= ms);
    assert(ms.skip(0) =~= ms);
    let s1 = next(initial(Seq::empty()), input[0]).0;
    assert(s1 =~= state_after(ms, 0));
}

// ---------------------------------------------------------------------------
// What holds of every run's output
// ---------------------------------------------------------------------------

/// Some reply of `out` acknowledges opening `id`.
pub open spec fn ready_in(out: Seq<HostToClientModel>, id: Seq<char>) -> bool {
    exists|i: int| 0 <= i < out.len() && out[i] == HostToClientModel::SessionReady(id)
}

/// Some reply of `out` acknowledges closing `id`.
pub open spec fn closed_in(out: Seq<HostToClientModel>, id: Seq<char>) -> bool {
    exists|i: int| 0 <= i < out.len() && out[i] == HostToClientModel::SessionClosed(id)
}

/// The close acknowledged at `c` follows the acknowledgement of opening the
/// same session, with no other acknowledged close of it in between.
pub open spec fn close_follows_ready(out: Seq<HostToClientModel>, c: int, id: Seq<char>) -> bool {
    exists|r: int|
        0 <= r < c && out[r] == HostToClientModel::SessionReady(id) && forall|t: int|
            r < t < c ==> out[t] != HostToClientModel::SessionClosed(id)
}

/// The order a host's replies keep: the first is its hello or a refusal; a
/// refusal is the only reply; the hello comes once; no session identifier is
/// acknowledged as opened twice; and every acknowledged close follows the
/// acknowledged open of the same session, with no other close of it between.
pub open spec fn replies_in_order(out: Seq<HostToClientModel>) -> bool {
    &&& out.len() > 0 ==> (out[0] is HostHello || out[0] is Rejected)
    &&& forall|i: int| 0 <= i < out.len() && (#[trigger] out[i] is Rejected) ==> out.len() == 1
    &&& forall|i: int| 0 < i < out.len() ==> !(#[trigger] out[i] is HostHello)
    &&& forall|i: int, j: int|
        #![trigger out[i], out[j]]
        0 <= i < j < out.len() && out[i] is SessionReady && out[j] is SessionReady
            ==> out[i]->SessionReady_0 != out[j]->SessionReady_0
    &&& forall|c: int|
        #![trigger out[c]]
        0 <= c < out.len() && out[c] is SessionClosed
            ==> close_follows_ready(out, c, out[c]->SessionClosed_0)
}

/// What the replies written so far say of an established connection.
spec fn tracks(out: Seq<HostToClientModel>, s: ConnectionModel) -> bool {
    &&& s.phase == Phase::Established
    &&& out.len() > 0 && out[0] is HostHello
    &&& replies_in_order(out)
    &&& forall|id: Seq<char>| s.seen.contains(id) <==> ready_in(out, id)
    &&& forall|id: Seq<char>| s.open.contains(id) <==> (ready_in(out, id) && !closed_in(out, id))
}

proof fn lemma_closed_was_ready(out: Seq<HostToClientModel>, id: Seq<char>)
    requires
        replies_in_order(out),
        closed_in(out, id),
    ensures
        ready_in(out, id),
{
    let c = choose|c: int| 0 <= c < out.len() && out[c] == HostToClientModel::SessionClosed(id);
    assert(close_follows_ready(out, c, id));
    let r = choose|r: int|
        0 <= r < c && out[r] == HostToClientModel::SessionReady(id) && forall|t: int|
            r < t < c ==> out[t] != HostToClientModel::SessionClosed(id);
    assert(0 <= r < out.len());
}

/// One acknowledged message keeps the replies in order and tracked.
proof fn lemma_track_step(out: Seq<HostToClientModel>, s: ConnectionModel, m: ClientToHostModel)
    requires
        tracks(out, s),
        next(s, m).1 is Reply,
    ensures
        tracks(out.push(next(s, m).1->Reply_0), next(s, m).0),
{
    let r = next(s, m).1->Reply_0;
    let s2 = next(s, m).0;
    let o2 = out.push(r);
    assert(o2[0] == out[0]);
    assert forall|i: int| 0 <= i < o2.len() implies !(#[trigger] o2[i] is Rejected) by {
        if i < out.len() {
            assert(o2[i] == out[i]);
            if out[i] is Rejected {
                assert(out.len() == 1);
                assert(i == 0);
            }
        }
    }
    assert forall|i: int| 0 < i < o2.len() implies !(#[trigger] o2[i] is HostHello) by {
        if i < out.len() {
            assert(o2[i] == out[i]);
        }
    }
    match m {
        ClientToHostModel::Open(id) => {
            assert(r == HostToClientModel::SessionReady(id));
            assert(!ready_in(out, id));
            assert forall|i: int, j: int|
                #![trigger o2[i], o2[j]]
                0 <= i < j < o2.len() && o2[i] is SessionReady && o2[j] is SessionReady
                    implies o2[i]->SessionReady_0 != o2[j]->SessionReady_0 by {
                let x = o2[i]->SessionReady_0;
                assert(o2[i] == out[i]);
                if j < out.len() {
                    assert(o2[j] == out[j]);
                } else if x == id {
                    assert(ready_in(out, id));
                }
            }
            assert forall|c: int|
                #![trigger o2[c]]
                0 <= c < o2.len() && o2[c] is SessionClosed
                    implies close_follows_ready(o2, c, o2[c]->SessionClosed_0) by {
                let x = o2[c]->SessionClosed_0;
                assert(c < out.len());
                assert(o2[c] == out[c]);
                assert(close_follows_ready(out, c, x));
                let w = choose|w: int|
                    0 <= w < c && out[w] == HostToClientModel::SessionReady(x) && forall|t: int|
                        w < t < c ==> out[t] != HostToClientModel::SessionClosed(x);
                assert(o2[w] == out[w]);
                assert forall|t: int| w < t < c implies o2[t] != HostToClientModel::SessionClosed(x) by {
                    assert(o2[t] == out[t]);
                }
            }
            assert forall|x: Seq<char>| ready_in(o2, x) <==> (ready_in(out, x) || x == id) by {
                if x == id {
                    assert(o2[out.len() as int] == HostToClientModel::SessionReady(x));
                }
                if ready_in(o2, x) && x != id {
                    let i = choose|i: int| 0 <= i < o2.len() && o2[i] == HostToClientModel::SessionReady(x);
                    assert(o2[i] == out[i]);
                }
                if ready_in(out, x) {
                    let i = choose|i: int| 0 <= i < out.len() && out[i] == HostToClientModel::SessionReady(x);
                    assert(o2[i] == out[i]);
                }
            }
            assert forall|x: Seq<char>| closed_in(o2, x) <==> closed_in(out, x) by {
                if closed_in(o2, x) {
                    let i = choose|i: int| 0 <= i < o2.len() && o2[i] == HostToClientModel::SessionClosed(x);
                    assert(o2[i] == out[i]);
                }
                if closed_in(out, x) {
                    let i = choose|i: int| 0 <= i < out.len() && out[i] == HostToClientModel::SessionClosed(x);
                    assert(o2[i] == out[i]);
                }
            }
            if closed_in(out, id) {
                lemma_closed_was_ready(out, id);
            }
        },
        ClientToHostModel::Close(id) => {
            assert(r == HostToClientModel::SessionClosed(id));
            assert(ready_in(out, id) && !closed_in(out, id));
            assert forall|i: int, j: int|
                #![trigger o2[i], o2[j]]
                0 <= i < j < o2.len() && o2[i] is SessionReady && o2[j] is SessionReady
                    implies o2[i]->SessionReady_0 != o2[j]->SessionReady_0 by {
                let x = o2[i]->SessionReady_0;
                assert(o2[i] == out[i]);
                if j < out.len() {
                    assert(o2[j] == out[j]);
                }
            }
            assert forall|c: int|
                #![trigger o2[c]]
                0 <= c < o2.len() && o2[c] is SessionClosed
                    implies close_follows_ready(o2, c, o2[c]->SessionClosed_0) by {
                let x = o2[c]->SessionClosed_0;
                if c < out.len() {
                    assert(o2[c] == out[c]);
                    assert(close_follows_ready(out, c, x));
                    let w = choose|w: int|
                        0 <= w < c && out[w] == HostToClientModel::SessionReady(x) && forall|t: int|
                            w < t < c ==> out[t] != HostToClientModel::SessionClosed(x);
                    assert(o2[w] == out[w]);
                    assert forall|t: int| w < t < c implies o2[t] != HostToClientModel::SessionClosed(x) by {
                        assert(o2[t] == out[t]);
                    }
                } else {
                    assert(x == id);
                    let w = choose|w: int| 0 <= w < out.len() && out[w] == HostToClientModel::SessionReady(id);
                    assert(o2[w] == out[w]);
                    assert forall|t: int| w < t < c implies o2[t] != HostToClientModel::SessionClosed(x) by {
                        assert(o2[t] == out[t]);
                    }
                }
            }
            assert forall|x: Seq<char>| ready_in(o2, x) <==> ready_in(out, x) by {
                if ready_in(o2, x) {
                    let i = choose|i: int| 0 <= i < o2.len() && o2[i] == HostToClientModel::SessionReady(x);
                    assert(o2[i] == out[i]);
                }
                if ready_in(out, x) {
                    let i = choose|i: int| 0 <= i < out.len() && out[i] == HostToClientModel::SessionReady(x);
                    assert(o2[i] == out[i]);
                }
            }
            assert forall|x: Seq<char>| closed_in(o2, x) <==> (closed_in(out, x) || x == id) by {
                if x == id {
                    assert(o2[out.len() as int] == HostToClientModel::SessionClosed(x));
                }
                if closed_in(o2, x) && x != id {
                    let i = choose|i: int| 0 <= i < o2.len() && o2[i] == HostToClientModel::SessionClosed(x);
                    assert(o2[i] == out[i]);
                }
                if closed_in(out, x) {
                    let i = choose|i: int| 0 <= i < out.len() && out[i] == HostToClientModel::SessionClosed(x);
                    assert(o2[i] == out[i]);
                }
            }
        },
        ClientToHostModel::Hello(_) => {},
    }
}

/// From an established connection whose replies so far are tracked, the
/// replies of the rest of the run keep the order.
proof fn lemma_track_run(out: Seq<HostToClientModel>, s: ConnectionModel, input: Seq<ClientToHostModel>)
    requires
        tracks(out, s),
    ensures
        replies_in_order(out + serve_model(s, input).0),
    decreases input.len(),
{
    if input.len() == 0 {
        assert(out + serve_model(s, input).0 =~= out);
    } else {
        let (s2, action) = next(s, input[0]);
        match action {
            HostActionModel::Reply(r) => {
                lemma_track_step(out, s, input[0]);
                lemma_track_run(out.push(r), s2, input.drop_first());
                assert(out + serve_model(s, input).0 =~= out.push(r) + serve_model(
                    s2,
                    input.drop_first(),
                ).0);
            },
            _ => {
                assert(out + serve_model(s, input).0 =~= out);
            },
        }
    }
}

/// Whatever the client sends, the host's replies keep their order: the first
/// is its hello or a refusal, a refusal is the only reply, the hello comes
/// once, no session identifier is acknowledged as opened twice, and every
/// acknowledged close follows the acknowledged open of the same session with
/// no other close of it in between. What has been written at any moment is a
/// prefix of these replies, and the order holds of every prefix too.
pub proof fn law_replies_keep_their_order(
    capabilities: Seq<Seq<char>>,
    input: Seq<ClientToHostModel>,
    n: int,
)
    requires
        0 <= n <= serve_model(initial(capabilities), input).0.len(),
    ensures
        replies_in_order(serve_model(initial(capabilities), input).0),
        replies_in_order(serve_model(initial(capabilities), input).0.take(n)),
{
    let out = serve_model(initial(capabilities), input).0;
    if input.len() > 0 {
        let (s1, action) = next(initial(capabilities), input[0]);
        match action {
            HostActionModel::Reply(r) => {
                let first = seq![r];
                assert forall|id: Seq<char>| !ready_in(first, id) by {}
                assert forall|id: Seq<char>| !closed_in(first, id) by {}
                assert(tracks(first, s1));
                lemma_track_run(first, s1, input.drop_first());
                assert(out =~= first + serve_model(s1, input.drop_first()).0);
            },
            _ => {},
        }
    }
    lemma_order_of_prefix(out, n);
}

/// The order of replies holds of every prefix of replies in order.
pub proof fn lemma_order_of_prefix(out: Seq<HostToClientModel>, n: int)
    requires
        replies_in_order(out),
        0 <= n <= out.len(),
    ensures
        replies_in_order(out.take(n)),
{
    let p = out.take(n);
    assert forall|i: int| 0 <= i < p.len() && (#[trigger] p[i] is Rejected) implies p.len() == 1 by {
        assert(p[i] == out[i]);
        assert(out.len() == 1);
    }
    assert forall|i: int| 0 < i < p.len() implies !(#[trigger] p[i] is HostHello) by {
        assert(p[i] == out[i]);
    }
    assert forall|i: int, j: int|
        #![trigger p[i], p[j]]
        0 <= i < j < p.len() && p[i] is SessionReady && p[j] is SessionReady
            implies p[i]->SessionReady_0 != p[j]->SessionReady_0 by {
        assert(p[i] == out[i]);
        assert(p[j] == out[j]);
    }
    assert forall|c: int|
        #![trigger p[c]]
        0 <= c < p.len() && p[c] is SessionClosed
            implies close_follows_ready(p, c, p[c]->SessionClosed_0) by {
        let id = p[c]->SessionClosed_0;
        assert(p[c] == out[c]);
        assert(close_follows_ready(out, c, id));
        let w = choose|w: int|
            0 <= w < c && out[w] == HostToClientModel::SessionReady(id) && forall|t: int|
                w < t < c ==> out[t] != HostToClientModel::SessionClosed(id);
        assert(p[w] == out[w]);
        assert forall|t: int| w < t < c implies p[t] != HostToClientModel::SessionClosed(id) by {
            assert(p[t] == out[t]);
        }
    }
}

} // verus!
