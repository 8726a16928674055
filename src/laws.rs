//! Properties of the engine that relate several of its operations.
use crate::fragment::chunk_count;
use crate::protocol::{Item, PayloadType, CONTROL_MAX_SIZE};
use crate::session::{
    after_failure, after_item, after_pong, after_write, pong_verdict, PongVerdict, SessionView,
};
use vstd::arithmetic::div_mod::{lemma_basic_div, lemma_hoist_over_denominator};
use vstd::prelude::*;

verus! {

/// Closing is terminal: from a closed state no item read, write, or failure
/// leads back to an open one. (Read, write and fragmented write each refuse a
/// closed session with a `Close` error and leave it as it is.)
pub proof fn lemma_closed_is_terminal(
    s: SessionView,
    item: Item,
    pong: Seq<u8>,
    buf: Seq<u8>,
    t: PayloadType,
)
    requires
        s.closed,
    ensures
        after_item(s, item).closed,
        after_pong(s, pong).closed,
        after_failure(s).closed,
        after_write(s, buf, t) == s,
{
}

/// After a Ping with payload `p` is sent, a Pong is taken as its answer only
/// when it carries exactly `p`. Where `p` is not empty, any other payload is a
/// mismatch, which closes the session.
pub proof fn lemma_pong_must_match_ping(s: SessionView, p: Seq<u8>, q: Seq<u8>)
    requires
        !s.closed,
        p.len() <= CONTROL_MAX_SIZE,
    ensures
        pong_verdict(after_write(s, p, PayloadType::Ping), q) == PongVerdict::Answered ==> q == p,
        p.len() > 0 ==> (pong_verdict(after_write(s, p, PayloadType::Ping), q)
            == PongVerdict::Answered <==> q == p),
        p.len() > 0 && q != p ==> pong_verdict(after_write(s, p, PayloadType::Ping), q)
            == PongVerdict::Mismatch && after_pong(after_write(s, p, PayloadType::Ping), q).closed,
{
}

/// The state after the Pongs with payloads `qs` are read one after another.
pub open spec fn after_pongs(s: SessionView, qs: Seq<Seq<u8>>) -> SessionView
    decreases qs.len(),
{
    if qs.len() == 0 {
        s
    } else {
        after_pongs(after_pong(s, qs[0]), qs.drop_first())
    }
}

/// Pongs that arrive while no Ping is outstanding are each discarded, however
/// many come in a row, and leave the session as it was: the read goes on to
/// the next item as if they had not come.
pub proof fn lemma_unsolicited_pongs_are_skipped(s: SessionView, qs: Seq<Seq<u8>>)
    requires
        s.ping.len() == 0,
    ensures
        after_pongs(s, qs) == s,
        forall|i: int| 0 <= i < qs.len() ==> pong_verdict(s, #[trigger] qs[i]) == PongVerdict::Unsolicited,
    decreases qs.len(),
{
    if qs.len() > 0 {
        lemma_unsolicited_pongs_are_skipped(s, qs.drop_first());
    }
}

/// `n` bytes in chunks of `size` give `ceil(n / size)` chunks.
pub proof fn lemma_chunk_count_is_ceiling(n: nat, size: nat)
    requires
        size > 0,
    ensures
        chunk_count(n, size) == (n + size - 1) / (size as int),
    decreases n,
{
    let f = size as int;
    if n == 0 {
        lemma_basic_div(f - 1, f);
    } else if n <= size {
        lemma_basic_div(n - 1, f);
        lemma_hoist_over_denominator(n - 1, 1, size);
    } else {
        lemma_chunk_count_is_ceiling((n - size) as nat, size);
        lemma_hoist_over_denominator(n - size + f - 1, 1, size);
    }
}

} // verus!
