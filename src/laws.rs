//! Laws of the session registry, stated over the abstract table that the
//! registry's operations are specified against.
use crate::session::{added, is_live, lookup, swept, touched, Table};
use vstd::prelude::*;

verus! {

/// One operation on a registry, with the token and the clock reading it used.
pub enum Call {
    Add { token: u128, identity: Seq<char>, now: int },
    Get { token: u128, now: int },
    Remove { token: u128 },
    Reap { now: int },
}

/// The table after one operation, as the registry's contracts describe it.
pub open spec fn step(m: Table, c: Call, ttl: int) -> Table {
    match c {
        Call::Add { token, identity, now } => added(m, token, identity, now, ttl),
        Call::Get { token, now } => touched(m, token, now, ttl),
        Call::Remove { token } => m.remove(token),
        Call::Reap { now } => swept(m, now),
    }
}

/// The table after the operations `cs`, in order, starting from `m`.
pub open spec fn run(m: Table, cs: Seq<Call>, ttl: int) -> Table
    decreases cs.len(),
{
    if cs.len() == 0 {
        m
    } else {
        step(run(m, cs.drop_last(), ttl), cs.last(), ttl)
    }
}

/// Every `Add` in `cs` issued a token that the table did not hold at that
/// point, as `add_at` guarantees.
pub open spec fn fresh_adds(m: Table, cs: Seq<Call>, ttl: int) -> bool
    decreases cs.len(),
{
    if cs.len() == 0 {
        true
    } else {
        fresh_adds(m, cs.drop_last(), ttl) && match cs.last() {
            Call::Add { token, .. } => !run(m, cs.drop_last(), ttl).contains_key(token),
            _ => true,
        }
    }
}

/// The tokens that the `Add` operations of `cs` returned.
pub open spec fn issued(cs: Seq<Call>) -> Set<u128>
    decreases cs.len(),
{
    if cs.len() == 0 {
        Set::empty()
    } else {
        match cs.last() {
            Call::Add { token, .. } => issued(cs.drop_last()).insert(token),
            _ => issued(cs.drop_last()),
        }
    }
}

/// A token that was just issued resolves, at that same instant, to the
/// identity it was issued to (given a positive time-to-live).
pub proof fn law_add_then_get(m: Table, t: u128, u: Seq<char>, now: int, ttl: int)
    requires
        ttl > 0,
    ensures
        lookup(added(m, t, u, now, ttl), t, now) == Some(u),
{
}

proof fn lemma_tokens_come_from_adds(cs: Seq<Call>, ttl: int)
    ensures
        run(Table::empty(), cs, ttl).dom().subset_of(issued(cs)),
    decreases cs.len(),
{
    if cs.len() > 0 {
        lemma_tokens_come_from_adds(cs.drop_last(), ttl);
    }
}

/// Starting from an empty registry, whatever operations ran, a token that no
/// `Add` returned resolves to nothing.
pub proof fn law_unissued_token_unknown(cs: Seq<Call>, ttl: int, t: u128, now: int)
    requires
        !issued(cs).contains(t),
    ensures
        lookup(run(Table::empty(), cs, ttl), t, now) is None,
{
    lemma_tokens_come_from_adds(cs, ttl);
}

/// After a token is removed it resolves to nothing, whatever the table held.
pub proof fn law_removed_token_unknown(m: Table, t: u128, now: int)
    ensures
        lookup(m.remove(t), t, now) is None,
{
}

/// Sliding expiry: a lookup of a live token at `t1` moves its expiry to
/// `t1 + ttl`, so any later lookup before then still succeeds.
pub proof fn law_lookup_renews(m: Table, t: u128, t1: int, t2: int, ttl: int)
    requires
        is_live(m, t, t1),
        t2 < t1 + ttl,
    ensures
        touched(m, t, t1, ttl)[t] == (m[t].0, t1 + ttl),
        lookup(touched(m, t, t1, ttl), t, t2) == Some(m[t].0),
{
}

/// A session issued at `t0` and never looked up again is gone from `t0 + ttl`
/// on: a lookup reports nothing and a sweep removes it.
pub proof fn law_unrenewed_session_lapses(m: Table, t: u128, u: Seq<char>, t0: int, ttl: int, later: int)
    requires
        later >= t0 + ttl,
    ensures
        lookup(added(m, t, u, t0, ttl), t, later) is None,
        !swept(added(m, t, u, t0, ttl), later).contains_key(t),
{
}

/// A renewal is never undone by a sweep. If a lookup at `t1` renews a live
/// token and a sweep takes its snapshot at `s` before the renewed expiry, the
/// token still resolves at any `t3` before that expiry: when the lookup runs
/// first, and, provided the token was still live at the snapshot, when the
/// sweep runs first.
pub proof fn law_renewal_survives_sweep(m: Table, t: u128, t1: int, s: int, t3: int, ttl: int)
    requires
        is_live(m, t, t1),
        s < t1 + ttl,
        t3 < t1 + ttl,
    ensures
        lookup(swept(touched(m, t, t1, ttl), s), t, t3) == Some(m[t].0),
        is_live(m, t, s) ==> lookup(touched(swept(m, s), t, t1, ttl), t, t3) == Some(m[t].0),
{
}

proof fn lemma_adds_keep_their_tokens(cs: Seq<Call>, ttl: int, i: int)
    requires
        forall|j: int| 0 <= j < cs.len() ==> cs[j] is Add,
        0 <= i < cs.len(),
    ensures
        run(Table::empty(), cs, ttl).contains_key(cs[i]->Add_token),
    decreases cs.len(),
{
    if i < cs.len() - 1 {
        let p = cs.drop_last();
        assert(p[i] == cs[i]);
        lemma_adds_keep_their_tokens(p, ttl, i);
    }
}

/// Issuing tokens N times in a row, each time a token that the table did not
/// hold, gives N distinct tokens.
pub proof fn law_adds_issue_distinct_tokens(cs: Seq<Call>, ttl: int)
    requires
        forall|j: int| 0 <= j < cs.len() ==> cs[j] is Add,
        fresh_adds(Table::empty(), cs, ttl),
    ensures
        forall|i: int, j: int|
            0 <= i < j < cs.len() ==> cs[i]->Add_token != cs[j]->Add_token,
    decreases cs.len(),
{
    if cs.len() > 0 {
        let p = cs.drop_last();
        assert forall|j: int| 0 <= j < p.len() implies p[j] is Add by {
            assert(p[j] == cs[j]);
        }
        law_adds_issue_distinct_tokens(p, ttl);
        assert forall|i: int, j: int| 0 <= i < j < cs.len() implies cs[i]->Add_token != cs[j]->Add_token by {
            if j < cs.len() - 1 {
                assert(p[i] == cs[i] && p[j] == cs[j]);
            } else {
                assert(p[i] == cs[i]);
                lemma_adds_keep_their_tokens(p, ttl, i);
            }
        }
    }
}

} // verus!
