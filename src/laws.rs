//! Properties of the library across several calls.

use vstd::prelude::*;

use crate::admission::{admit_spec, release_spec};
use crate::session::{
    first_line, line_credential, next, ActionView, EventView, ForwardedView, Phase, ReplyView,
    SessionView, AUTH_TIMEOUT_MS, STATUS_OK,
};
use crate::store::{ip_changed, recorded_ip};
use crate::text::{is_plain_char, is_space_spec, shown, trim_end, trim_start, trimmed};

verus! {

/// The count of in-flight sessions after `evs`, from `active` under `limit`:
/// `true` is a connection that asks to be admitted, `false` the end of an
/// admitted session.
pub open spec fn active_after(limit: nat, active: nat, evs: Seq<bool>) -> nat
    decreases evs.len(),
{
    if evs.len() == 0 {
        active
    } else {
        let a = active_after(limit, active, evs.drop_last());
        if evs.last() {
            match admit_spec(a, limit) {
                Some(b) => b,
                None => a,
            }
        } else {
            release_spec(a)
        }
    }
}

/// How many connections of `evs` were admitted.
pub open spec fn admitted_in(limit: nat, active: nat, evs: Seq<bool>) -> nat
    decreases evs.len(),
{
    if evs.len() == 0 {
        0
    } else {
        let a = active_after(limit, active, evs.drop_last());
        admitted_in(limit, active, evs.drop_last()) + if evs.last() && admit_spec(a, limit) is Some {
            1nat
        } else {
            0nat
        }
    }
}

/// Whatever connections arrive and sessions end, no more than `limit`
/// sessions are ever in flight.
pub proof fn lemma_admission_bounded(limit: nat, active: nat, evs: Seq<bool>)
    requires
        active <= limit,
    ensures
        forall|i: int| 0 <= i <= evs.len() ==> #[trigger] active_after(limit, active, evs.take(i)) <= limit,
{
    assert forall|i: int| 0 <= i <= evs.len() implies #[trigger] active_after(
        limit,
        active,
        evs.take(i),
    ) <= limit by {
        lemma_count_at_most(limit, active, evs.take(i));
    }
}

proof fn lemma_count_at_most(limit: nat, active: nat, evs: Seq<bool>)
    requires
        active <= limit,
    ensures
        active_after(limit, active, evs) <= limit,
    decreases evs.len(),
{
    if evs.len() > 0 {
        lemma_count_at_most(limit, active, evs.drop_last());
    }
}

/// `n` connections arriving together, none leaving: the first `limit` are
/// admitted and every further one is rejected, not held back.
pub proof fn lemma_burst(limit: nat, n: nat)
    ensures
        admitted_in(limit, 0, Seq::new(n, |i: int| true)) == if n <= limit {
            n
        } else {
            limit
        },
        active_after(limit, 0, Seq::new(n, |i: int| true)) == if n <= limit {
            n
        } else {
            limit
        },
    decreases n,
{
    if n > 0 {
        let evs = Seq::new(n, |i: int| true);
        assert(evs.drop_last() =~= Seq::new((n - 1) as nat, |i: int| true));
        lemma_burst(limit, (n - 1) as nat);
    }
}

/// A new HTTP session of a client at `ip` presenting `credential`.
pub open spec fn http_session(secret: Seq<char>, credential: Seq<char>, ip: Seq<char>) -> SessionView {
    SessionView {
        secret,
        raw: false,
        credential,
        client: ForwardedView::Value(ip),
        buf: Seq::empty(),
        healed: false,
        phase: Phase::Start,
    }
}

/// Runs session `s`, whose last action was `a`, against a store that holds
/// `store` and never fails: the record afterwards, and the IP handed to the
/// post-update action, if any.
pub open spec fn drive(s: SessionView, a: ActionView, store: Seq<char>, fuel: nat) -> (
    Seq<char>,
    Option<Seq<char>>,
)
    decreases fuel,
{
    match a {
        ActionView::Finish { post, .. } => (store, post),
        ActionView::Acquire => if fuel == 0 {
            (store, None)
        } else {
            let (t, b) = next(s, EventView::Locked);
            drive(t, b, store, (fuel - 1) as nat)
        },
        ActionView::ReadStore => if fuel == 0 {
            (store, None)
        } else {
            let (t, b) = next(s, EventView::ReadDone(Some(store)));
            drive(t, b, store, (fuel - 1) as nat)
        },
        ActionView::WriteStore(x) => if fuel == 0 {
            (x, None)
        } else {
            let (t, b) = next(s, EventView::Written(true));
            drive(t, b, x, (fuel - 1) as nat)
        },
        _ => (store, None),
    }
}

/// One HTTP session from start to end against a store holding `store`.
pub open spec fn serve(secret: Seq<char>, credential: Seq<char>, ip: Seq<char>, store: Seq<char>) -> (
    Seq<char>,
    Option<Seq<char>>,
) {
    let (s, a) = next(http_session(secret, credential, ip), EventView::Start);
    drive(s, a, store, 4)
}

/// A session writes and propagates the client's IP exactly when its
/// credential is right and the record holds another IP.
pub proof fn lemma_serve(secret: Seq<char>, credential: Seq<char>, ip: Seq<char>, store: Seq<char>)
    ensures
        serve(secret, credential, ip, store) == if credential == secret && ip_changed(store, ip) {
            (ip, Some(ip))
        } else {
            (store, None::<Seq<char>>)
        },
{
    reveal_with_fuel(drive, 5);
}

/// Two sessions with the right credential, from `a` and then from `b`: the
/// record ends holding `b`, the second session propagates `b`, and the first
/// propagates nothing if the record already held `a`. (A record holding `a`
/// must not read back as `b`, which holds of every `a` without surrounding
/// whitespace.)
pub proof fn lemma_new_address(secret: Seq<char>, a: Seq<char>, b: Seq<char>, store: Seq<char>)
    requires
        a != b,
        recorded_ip(a) != b,
    ensures
        ({
            let (first, first_post) = serve(secret, secret, a, store);
            let (second, second_post) = serve(secret, secret, b, first);
            &&& second == b
            &&& second_post == Some(b)
            &&& recorded_ip(store) == a ==> first_post is None
        }),
{
    lemma_serve(secret, secret, a, store);
    let (first, first_post) = serve(secret, secret, a, store);
    lemma_serve(secret, secret, b, first);
}

/// An address as a client reports it: not empty, no whitespace in it.
pub open spec fn ip_shaped(x: Seq<char>) -> bool {
    x.len() > 0 && forall|i: int| 0 <= i < x.len() ==> !is_space_spec(#[trigger] x[i])
}

/// Reading back what was written gives it trimmed; an IP-shaped value comes
/// back as it was written. A session that replaces the record writes the
/// client's IP as it is.
pub proof fn lemma_round_trip(secret: Seq<char>, x: Seq<char>, store: Seq<char>)
    requires
        ip_changed(store, x),
    ensures
        serve(secret, secret, x, store).0 == x,
        recorded_ip(serve(secret, secret, x, store).0) == trimmed(x),
        ip_shaped(x) ==> recorded_ip(serve(secret, secret, x, store).0) == x,
{
    lemma_serve(secret, secret, x, store);
    if ip_shaped(x) {
        assert(!is_space_spec(x[0]));
        assert(trim_start(x) == x);
        assert(!is_space_spec(x.last()));
        assert(trim_end(x) == x);
    }
}

/// The same IP twice in a row: the second session changes nothing and
/// propagates nothing, so the IP is propagated once at most, by the first
/// session, and only if it changed the record. (The IP must read back as
/// itself, as every IP without surrounding whitespace does.)
pub proof fn lemma_same_address_twice(secret: Seq<char>, x: Seq<char>, store: Seq<char>)
    requires
        recorded_ip(x) == x,
    ensures
        ({
            let (first, first_post) = serve(secret, secret, x, store);
            let (second, second_post) = serve(secret, secret, x, first);
            &&& second == first
            &&& second_post is None
            &&& first_post is Some <==> ip_changed(store, x)
            &&& first_post is Some ==> first_post == Some(x)
        }),
{
    lemma_serve(secret, secret, x, store);
    let (first, first_post) = serve(secret, secret, x, store);
    lemma_serve(secret, secret, x, first);
}

/// A client at `x` whose record already reads `x` is told, with no write and
/// no propagation, `No change in IP: "x"` (for an IP of printable ASCII).
pub proof fn lemma_unchanged_reply(secret: Seq<char>, x: Seq<char>, content: Seq<char>)
    requires
        recorded_ip(content) == x,
        forall|i: int| 0 <= i < x.len() ==> is_plain_char(#[trigger] x[i]),
    ensures
        ({
            let (s1, a1) = next(http_session(secret, secret, x), EventView::Start);
            let (s2, a2) = next(s1, EventView::Locked);
            let (s3, a3) = next(s2, EventView::ReadDone(Some(content)));
            &&& a1 == ActionView::Acquire
            &&& a2 == ActionView::ReadStore
            &&& a3 == ActionView::Finish {
                delay_ms: 0,
                reply: Some(
                    ReplyView {
                        status: STATUS_OK,
                        message: "No change in IP: "@ + seq!['"'] + x + seq!['"'],
                    },
                ),
                post: None,
            }
        }),
{
    assert("No change in IP: "@ + shown(x) =~= "No change in IP: "@ + seq!['"'] + x + seq![
        '"',
    ]);
}

/// The actions of session `s` in answer to `evs`.
pub open spec fn actions(s: SessionView, evs: Seq<EventView>) -> Seq<ActionView>
    decreases evs.len(),
{
    if evs.len() == 0 {
        Seq::empty()
    } else {
        let (t, a) = next(s, evs[0]);
        seq![a] + actions(t, evs.drop_first())
    }
}

proof fn lemma_actions_len(s: SessionView, evs: Seq<EventView>)
    ensures
        actions(s, evs).len() == evs.len(),
    decreases evs.len(),
{
    if evs.len() > 0 {
        let (t, a) = next(s, evs[0]);
        lemma_actions_len(t, evs.drop_first());
    }
}

/// An action that neither writes the record nor propagates an IP.
pub open spec fn harmless(a: ActionView) -> bool {
    !(a is WriteStore) && !(a matches ActionView::Finish { post: Some(_), .. })
}

/// A closed session only ever ends again, harmlessly.
pub proof fn lemma_closed_stays_harmless(s: SessionView, evs: Seq<EventView>)
    requires
        s.phase == Phase::Closed,
    ensures
        forall|i: int| 0 <= i < evs.len() ==> harmless(#[trigger] actions(s, evs)[i]),
    decreases evs.len(),
{
    if evs.len() > 0 {
        let (t, a) = next(s, evs[0]);
        lemma_closed_stays_harmless(t, evs.drop_first());
        assert forall|i: int| 0 <= i < evs.len() implies harmless(#[trigger] actions(s, evs)[i]) by {
            if i > 0 {
                lemma_actions_len(t, evs.drop_first());
                assert(actions(s, evs)[i] == actions(t, evs.drop_first())[i - 1]);
            }
        }
    }
}

/// An HTTP session with a wrong credential never writes the record and
/// never propagates an IP, whatever happens.
pub proof fn lemma_denied_http(
    secret: Seq<char>,
    credential: Seq<char>,
    client: ForwardedView,
    evs: Seq<EventView>,
)
    requires
        credential != secret,
    ensures
        ({
            let s = SessionView { client, ..http_session(secret, credential, seq![]) };
            forall|i: int| 0 <= i < evs.len() ==> harmless(#[trigger] actions(s, evs)[i])
        }),
{
    let s = SessionView { client, ..http_session(secret, credential, seq![]) };
    if evs.len() > 0 {
        let (t, a) = next(s, evs[0]);
        lemma_closed_stays_harmless(t, evs.drop_first());
        assert forall|i: int| 0 <= i < evs.len() implies harmless(#[trigger] actions(s, evs)[i]) by {
            if i > 0 {
                lemma_actions_len(t, evs.drop_first());
                assert(actions(s, evs)[i] == actions(t, evs.drop_first())[i - 1]);
            }
        }
    }
}

/// A raw session whose credential line is wrong (or not text) is closed on
/// that line, and never writes the record or propagates an IP afterwards.
pub proof fn lemma_denied_raw(
    s: SessionView,
    data: Seq<u8>,
    elapsed_ms: u64,
    line: Seq<u8>,
    evs: Seq<EventView>,
)
    requires
        s.phase == Phase::AwaitLine,
        elapsed_ms < AUTH_TIMEOUT_MS,
        first_line(s.buf + data) == Some(line),
        line_credential(line) != Some(s.secret),
    ensures
        ({
            let (t, a) = next(s, EventView::Received { data, elapsed_ms });
            &&& t.phase == Phase::Closed
            &&& harmless(a)
            &&& forall|i: int| 0 <= i < evs.len() ==> harmless(#[trigger] actions(t, evs)[i])
        }),
{
    let (t, a) = next(s, EventView::Received { data, elapsed_ms });
    lemma_closed_stays_harmless(t, evs);
}

} // verus!
