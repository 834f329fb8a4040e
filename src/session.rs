//! The token session registry: opaque 128-bit tokens mapped to the identity
//! that logged in and the instant (in milliseconds) at which the session lapses.
use std::collections::HashMap;
use vstd::prelude::*;
use vstd::std_specs::iter::IteratorSpec;

verus! {

broadcast use vstd::std_specs::hash::group_hash_axioms;

/// The abstract content of a registry: each token maps to its identity and
/// to the instant at which it stops being valid.
pub type Table = Map<u128, (Seq<char>, int)>;

/// A token is live at `now` when it is present and its expiry lies after `now`.
pub open spec fn is_live(m: Table, t: u128, now: int) -> bool {
    m.contains_key(t) && now < m[t].1
}

/// What a lookup of `t` at `now` reports.
pub open spec fn lookup(m: Table, t: u128, now: int) -> Option<Seq<char>> {
    if is_live(m, t, now) {
        Some(m[t].0)
    } else {
        None
    }
}

/// The table after `t` was issued to `u` at `now`.
pub open spec fn added(m: Table, t: u128, u: Seq<char>, now: int, ttl: int) -> Table {
    m.insert(t, (u, now + ttl))
}

/// The table after a lookup of `t` at `now`: a live entry is renewed.
pub open spec fn touched(m: Table, t: u128, now: int, ttl: int) -> Table {
    if is_live(m, t, now) {
        m.insert(t, (m[t].0, now + ttl))
    } else {
        m
    }
}

/// The table after a sweep whose snapshot time is `now`: exactly the entries
/// that are still live at `now` remain, untouched.
pub open spec fn swept(m: Table, now: int) -> Table {
    Map::new(|t: u128| is_live(m, t, now), |t: u128| m[t])
}

/// The text an optional string holds, if any.
pub open spec fn opt_view(o: Option<String>) -> Option<Seq<char>> {
    match o {
        Some(s) => Some(s@),
        None => None,
    }
}

/// One session as stored.
struct SessionEntry {
    identity: String,
    expires_at: i128,
}

/// Sessions keyed by token, each valid for `ttl` milliseconds after it was
/// created or last looked up.
pub struct SessionRegistry {
    entries: HashMap<u128, SessionEntry>,
    ttl: u64,
}

impl View for SessionRegistry {
    type V = Table;

    closed spec fn view(&self) -> Table {
        Map::new(
            |t: u128| self.entries@.contains_key(t),
            |t: u128| (self.entries@[t].identity@, self.entries@[t].expires_at as int),
        )
    }
}

impl SessionRegistry {
    /// The time-to-live, in milliseconds, that the registry was built with.
    pub closed spec fn lifetime(&self) -> int {
        self.ttl as int
    }

    /// An empty registry whose sessions live `ttl` milliseconds.
    pub fn new(ttl: u64) -> (r: Self)
        ensures
            r@ == Table::empty(),
            r.lifetime() == ttl,
    {
        let r = SessionRegistry { entries: HashMap::new(), ttl };
        assert(r@ =~= Table::empty());
        r
    }

    /// The configured time-to-live in milliseconds.
    pub fn ttl(&self) -> (r: u64)
        ensures
            r == self.lifetime(),
    {
        self.ttl
    }
}

/// How many random draws `add_at` makes before it settles for the smallest
/// free token. With 128-bit draws a second draw is already all but impossible.
pub const RANDOM_DRAWS: u32 = 64;

/// Relies on uuid::Uuid::new_v4 (and Uuid::as_u128 to read it as a number):
/// a fresh random value on each call. Nothing is promised about the value.
#[verifier::external_body]
fn random_token() -> (t: u128) {
    uuid::Uuid::new_v4().as_u128()
}

impl SessionRegistry {
    /// The smallest token that no entry holds.
    fn smallest_free_token(&self) -> (t: u128)
        ensures
            !self@.contains_key(t),
    {
        let n: usize = self.entries.len();
        let mut c: u128 = 0;
        let ghost below: Set<u128> = Set::empty();
        while self.entries.contains_key(&c)
            invariant
                n == self.entries@.dom().len(),
                self.entries@.dom().finite(),
                below == Set::new(|k: u128| k < c),
                below.finite(),
                below.len() == c,
                below.subset_of(self.entries@.dom()),
                c <= n,
            decreases n - c,
        {
            proof {
                let next = below.insert(c);
                assert(next =~= Set::new(|k: u128| k < c + 1));
                vstd::set_lib::lemma_len_subset(next, self.entries@.dom());
                below = next;
            }
            c = c + 1;
        }
        c
    }

    /// Issues a new token to `identity` at time `now`: a token that no entry
    /// holds, valid until `now + ttl`. Tokens are drawn at random until one is
    /// free; should `RANDOM_DRAWS` draws all collide, the smallest free value
    /// is taken, so the call always ends.
    pub fn add_at(&mut self, identity: &str, now: i64) -> (t: u128)
        ensures
            !old(self)@.contains_key(t),
            final(self)@ == added(old(self)@, t, identity@, now as int, old(self).lifetime()),
            final(self).lifetime() == old(self).lifetime(),
    {
        let mut t: u128 = random_token();
        let mut draws: u32 = 1;
        while draws < RANDOM_DRAWS && self.entries.contains_key(&t)
            invariant
                draws <= RANDOM_DRAWS,
            decreases RANDOM_DRAWS - draws,
        {
            t = random_token();
            draws = draws + 1;
        }
        if self.entries.contains_key(&t) {
            t = self.smallest_free_token();
        }
        let expires_at: i128 = now as i128 + self.ttl as i128;
        self.entries.insert(t, SessionEntry { identity: identity.to_owned(), expires_at });
        assert(self@ =~= added(old(self)@, t, identity@, now as int, old(self).lifetime()));
        t
    }

    /// Looks `token` up at time `now`. A live session is renewed to expire at
    /// `now + ttl` and its identity returned; anything else gives `None` and
    /// leaves the table as it was.
    pub fn get_at(&mut self, token: u128, now: i64) -> (r: Option<String>)
        ensures
            opt_view(r) == lookup(old(self)@, token, now as int),
            final(self)@ == touched(old(self)@, token, now as int, old(self).lifetime()),
            final(self).lifetime() == old(self).lifetime(),
    {
        let live = match self.entries.get(&token) {
            Some(e) => (now as i128) < e.expires_at,
            None => false,
        };
        if !live {
            return None;
        }
        let identity: String = self.entries.get(&token).unwrap().identity.clone();
        let expires_at: i128 = now as i128 + self.ttl as i128;
        self.entries.insert(token, SessionEntry { identity: identity.clone(), expires_at });
        assert(self@ =~= touched(old(self)@, token, now as int, old(self).lifetime()));
        Some(identity)
    }

    /// Ends the session of `token`, if there is one.
    pub fn remove(&mut self, token: u128)
        ensures
            final(self)@ == old(self)@.remove(token),
            final(self).lifetime() == old(self).lifetime(),
    {
        self.entries.remove(&token);
        assert(self@ =~= old(self)@.remove(token));
    }

    /// One sweep with snapshot time `now`: removes exactly the sessions whose
    /// expiry is at or before `now`; every other entry stays as it is, so a
    /// session renewed past `now` is never evicted by this sweep.
    pub fn reap_at(&mut self, now: i64)
        ensures
            final(self)@ == swept(old(self)@, now as int),
            final(self).lifetime() == old(self).lifetime(),
    {
        let doomed: Vec<u128> = self.expired_tokens(now);
        let ghost start = self@;
        let mut i: usize = 0;
        while i < doomed.len()
            invariant
                0 <= i <= doomed.len(),
                self.lifetime() == old(self).lifetime(),
                forall|t: u128| #[trigger] doomed@.contains(t)
                    <==> (start.contains_key(t) && !is_live(start, t, now as int)),
                self@ == Map::new(
                    |t: u128| start.contains_key(t) && !doomed@.subrange(0, i as int).contains(t),
                    |t: u128| start[t],
                ),
            decreases doomed.len() - i,
        {
            let ghost prev = self@;
            self.entries.remove(&doomed[i]);
            proof {
                let done = doomed@.subrange(0, i as int);
                let next = doomed@.subrange(0, i + 1);
                assert forall|t: u128| #[trigger] next.contains(t) <==> (done.contains(t) || t == doomed@[i as int]) by {
                    if next.contains(t) {
                        let j = choose|j: int| 0 <= j < next.len() && next[j] == t;
                        if j < i {
                            assert(done[j] == t);
                        }
                    }
                    if done.contains(t) {
                        let j = choose|j: int| 0 <= j < done.len() && done[j] == t;
                        assert(next[j] == t);
                    }
                    if t == doomed@[i as int] {
                        assert(next[i as int] == t);
                    }
                }
                assert(self@ =~= prev.remove(doomed@[i as int]));
                assert(self@ =~= Map::new(
                    |t: u128| start.contains_key(t) && !next.contains(t),
                    |t: u128| start[t],
                ));
            }
            i = i + 1;
        }
        proof {
            assert(doomed@.subrange(0, doomed@.len() as int) == doomed@);
            assert(self@ =~= swept(start, now as int));
        }
    }

    /// The tokens whose sessions have lapsed by `now`.
    fn expired_tokens(&self, now: i64) -> (r: Vec<u128>)
        ensures
            forall|t: u128| r@.contains(t) <==> (self@.contains_key(t) && !is_live(self@, t, now as int)),
    {
        let mut r: Vec<u128> = Vec::new();
        let ghost all = vstd::std_specs::hash::spec_keys_iter(&self.entries).remaining().unref();
        let ghost mut seen: int = 0;
        for t in it: self.entries.keys()
            invariant
                it.seq().unref() == all,
                all.to_set() == self.entries@.dom(),
                seen == it.index(),
                forall|k: u128| #[trigger] r@.contains(k)
                    ==> self.entries@.contains_key(k) && self.entries@[k].expires_at <= now as i128,
                forall|i: int| 0 <= i < seen && self.entries@[all[i]].expires_at <= now as i128
                    ==> r@.contains(#[trigger] all[i]),
        {
            proof {
                assert(all[seen] == *t);
                assert(all.to_set().contains(*t));
            }
            let ghost before = r@;
            let lapsed = self.entries.get(t).unwrap().expires_at <= now as i128;
            if lapsed {
                r.push(*t);
            }
            proof {
                assert(lapsed == (self.entries@[*t].expires_at <= now as i128));
                assert forall|k: u128| #[trigger] r@.contains(k)
                    implies before.contains(k) || (lapsed && k == *t) by {
                    if !before.contains(k) {
                        let j = choose|j: int| 0 <= j < r@.len() && r@[j] == k;
                        assert(j == before.len());
                    }
                }
                assert forall|i: int| 0 <= i < seen + 1 && self.entries@[all[i]].expires_at <= now as i128
                    implies r@.contains(#[trigger] all[i]) by {
                    if i < seen {
                        assert(before.contains(all[i]));
                        let j = choose|j: int| 0 <= j < before.len() && before[j] == all[i];
                        assert(r@[j] == all[i]);
                    } else {
                        assert(r@[r@.len() - 1] == all[i]);
                    }
                }
                seen = seen + 1;
            }
        }
        proof {
            assert forall|k: u128| self@.contains_key(k) && !is_live(self@, k, now as int)
                implies r@.contains(k) by {
                assert(all.to_set().contains(k));
                let i = choose|i: int| 0 <= i < all.len() && all[i] == k;
                assert(all[i] == k);
            }
        }
        r
    }
}

} // verus!

verus! {

/// Relies on chrono::Utc::now, read through DateTime::timestamp_millis: the
/// current wall-clock time in milliseconds since the Unix epoch. Nothing is
/// promised about the value.
#[verifier::external_body]
pub(crate) fn current_millis() -> (now: i64) {
    chrono::Utc::now().timestamp_millis()
}

/// A store of login sessions: issues tokens, resolves them to identities and
/// forgets them. Every call reads the clock, so the contracts hold for some
/// instant `now` that the caller does not learn.
pub trait TokenSession {
    /// The sessions held, with their expiry instants.
    spec fn sessions(&self) -> Table;

    /// How long, in milliseconds, a session lives after its last use.
    spec fn session_ttl(&self) -> int;

    /// Issues a fresh token to `user`.
    fn add_user(&mut self, user: &str) -> (t: u128)
        ensures
            !old(self).sessions().contains_key(t),
            exists|now: int|
                final(self).sessions() == #[trigger] added(old(self).sessions(), t, user@, now, old(self).session_ttl()),
            final(self).session_ttl() == old(self).session_ttl(),
    ;

    /// Resolves `id` to its identity and renews the session, if it is live.
    fn get_user(&mut self, id: &u128) -> (r: Option<String>)
        ensures
            exists|now: int|
                opt_view(r) == lookup(old(self).sessions(), *id, now)
                && final(self).sessions() == #[trigger] touched(old(self).sessions(), *id, now, old(self).session_ttl()),
            final(self).session_ttl() == old(self).session_ttl(),
    ;

    /// Ends the session of `user`, if there is one.
    fn remove_user(&mut self, user: &u128)
        ensures
            final(self).sessions() == old(self).sessions().remove(*user),
            final(self).session_ttl() == old(self).session_ttl(),
    ;
}

impl TokenSession for SessionRegistry {
    open spec fn sessions(&self) -> Table {
        self@
    }

    open spec fn session_ttl(&self) -> int {
        self.lifetime()
    }

    fn add_user(&mut self, user: &str) -> (t: u128) {
        let now = current_millis();
        let t = self.add_at(user, now);
        assert(self.sessions() == added(old(self).sessions(), t, user@, now as int, old(self).session_ttl()));
        t
    }

    fn get_user(&mut self, id: &u128) -> (r: Option<String>) {
        let now = current_millis();
        let r = self.get_at(*id, now);
        assert(self.sessions() == touched(old(self).sessions(), *id, now as int, old(self).session_ttl()));
        r
    }

    fn remove_user(&mut self, user: &u128) {
        self.remove(*user)
    }
}

impl SessionRegistry {
    /// One sweep at the current time: removes exactly the sessions that have
    /// lapsed by the instant the clock reports.
    pub fn reap(&mut self)
        ensures
            exists|now: int| final(self)@ == #[trigger] swept(old(self)@, now),
            final(self).lifetime() == old(self).lifetime(),
    {
        let now = current_millis();
        self.reap_at(now)
    }
}

} // verus!
