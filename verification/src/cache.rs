use vstd::prelude::*;

use crate::config::AuthConfig;
use crate::session::Authentication;
use crate::time::sat_add;
use crate::time::saturating_add_i64;

verus! {

/// A cached resolution outcome for one principal id.  `current_user` is
/// `None` when the last load failed: the failure itself is cached, so a
/// failing backing store is not hammered on every request within the expiry
/// window.
pub struct AuthUser<User> {
    /// The loaded principal, or `None` for a cached load failure.
    pub current_user: Option<User>,
    /// Unix seconds at which a sweep may evict this entry.
    pub expires: i64,
}

/// True iff some pair in `s` carries the key `k`.
pub open spec fn seq_has_key<User>(s: Seq<(i64, AuthUser<User>)>, k: i64) -> bool {
    exists|i: int| 0 <= i < s.len() && s[i].0 == k
}

/// An index of `k` in `s`, meaningful when `seq_has_key(s, k)`.
pub open spec fn seq_key_index<User>(s: Seq<(i64, AuthUser<User>)>, k: i64) -> int {
    choose|i: int| 0 <= i < s.len() && s[i].0 == k
}

/// Pairwise-distinct keys: the shape under which a pair sequence denotes a
/// map.
pub open spec fn seq_wf<User>(s: Seq<(i64, AuthUser<User>)>) -> bool {
    forall|i: int, j: int| 0 <= i < j < s.len() ==> s[i].0 != s[j].0
}

/// The map a pair sequence denotes.
pub open spec fn seq_map<User>(s: Seq<(i64, AuthUser<User>)>) -> Map<i64, AuthUser<User>> {
    Map::new(|k: i64| seq_has_key(s, k), |k: i64| s[seq_key_index(s, k)].1)
}

/// With pairwise-distinct keys, any index holding `k` is the index `seq_map`
/// reads through.
proof fn lemma_key_index_unique<User>(s: Seq<(i64, AuthUser<User>)>, k: i64, i: int)
    requires
        seq_wf(s),
        0 <= i < s.len(),
        s[i].0 == k,
    ensures
        seq_has_key(s, k),
        seq_key_index(s, k) == i,
        seq_map(s).dom().contains(k),
        seq_map(s)[k] == s[i].1,
{
    assert(seq_has_key(s, k));
    let j = seq_key_index(s, k);
    assert(0 <= j < s.len() && s[j].0 == k);
    if i < j {
        assert(s[i].0 != s[j].0);
    } else if j < i {
        assert(s[j].0 != s[i].0);
    }
}

/// Appending a pair with a fresh key inserts it into the denoted map.
proof fn lemma_seq_map_push<User>(s: Seq<(i64, AuthUser<User>)>, p: (i64, AuthUser<User>))
    requires
        seq_wf(s),
        !seq_has_key(s, p.0),
    ensures
        seq_wf(s.push(p)),
        seq_map(s.push(p)) == seq_map(s).insert(p.0, p.1),
{
    let s2 = s.push(p);
    assert forall|a: int, b: int| 0 <= a < b < s2.len() implies s2[a].0 != s2[b].0 by {
        if b < s.len() {
            assert(s2[a] == s[a] && s2[b] == s[b]);
        } else {
            assert(s2[b] == p);
            assert(s2[a] == s[a]);
            if s[a].0 == p.0 {
                assert(seq_has_key(s, p.0));
            }
        }
    }
    assert forall|k: i64| #[trigger] seq_map(s2).dom().contains(k) == seq_map(s).insert(
        p.0,
        p.1,
    ).dom().contains(k) by {
        if seq_has_key(s2, k) {
            let i = choose|i: int| 0 <= i < s2.len() && s2[i].0 == k;
            if i < s.len() {
                assert(s2[i] == s[i]);
                assert(seq_has_key(s, k));
            } else {
                assert(s2[i] == p);
            }
        }
        if seq_has_key(s, k) {
            let i = choose|i: int| 0 <= i < s.len() && s[i].0 == k;
            assert(s2[i] == s[i]);
            assert(seq_has_key(s2, k));
        }
        if k == p.0 {
            assert(s2[s.len() as int] == p);
            assert(seq_has_key(s2, k));
        }
    }
    assert forall|k: i64| seq_map(s2).dom().contains(k) implies #[trigger] seq_map(s2)[k]
        == seq_map(s).insert(p.0, p.1)[k] by {
        if k == p.0 {
            lemma_key_index_unique(s2, k, s.len() as int);
        } else {
            let i = choose|i: int| 0 <= i < s.len() && s[i].0 == k;
            assert(s2[i] == s[i]);
            lemma_key_index_unique(s2, k, i);
            lemma_key_index_unique(s, k, i);
        }
    }
    assert(seq_map(s2) =~= seq_map(s).insert(p.0, p.1));
}

/// Swap-removing the pair at an index holding `k` removes `k` from the
/// denoted map.
proof fn lemma_seq_map_swap_remove<User>(s: Seq<(i64, AuthUser<User>)>, i: int)
    requires
        seq_wf(s),
        0 <= i < s.len(),
    ensures
        seq_wf(s.update(i, s.last()).drop_last()),
        seq_map(s.update(i, s.last()).drop_last()) == seq_map(s).remove(s[i].0),
{
    let k0 = s[i].0;
    let s2 = s.update(i, s.last()).drop_last();
    let n = s.len() as int;
    assert(s2.len() == n - 1);
    assert forall|j: int| 0 <= j < n - 1 implies s2[j] == (if j == i {
        s[n - 1]
    } else {
        s[j]
    }) by {
    }
    assert forall|a: int, b: int| 0 <= a < b < s2.len() implies s2[a].0 != s2[b].0 by {
        let a2: int = if a == i {
            n - 1
        } else {
            a
        };
        let b2: int = if b == i {
            n - 1
        } else {
            b
        };
        assert(s2[a] == s[a2] && s2[b] == s[b2]);
        assert(a2 != b2);
    }
    assert forall|k: i64| #[trigger] seq_map(s2).dom().contains(k) == (seq_map(s).dom().contains(k)
        && k != k0) by {
        if seq_has_key(s2, k) {
            let j = choose|j: int| 0 <= j < s2.len() && s2[j].0 == k;
            let j2: int = if j == i {
                n - 1
            } else {
                j
            };
            assert(s2[j] == s[j2]);
            assert(seq_has_key(s, k));
            lemma_key_index_unique(s, k, j2);
            if k == k0 {
                lemma_key_index_unique(s, k0, i);
            }
        }
        if seq_has_key(s, k) && k != k0 {
            let j = choose|j: int| 0 <= j < s.len() && s[j].0 == k;
            assert(j != i);
            if j == n - 1 {
                if i < n - 1 {
                    assert(s2[i] == s[n - 1]);
                    assert(seq_has_key(s2, k));
                } else {
                    assert(i == n - 1 && j == i);
                }
            } else {
                assert(s2[j] == s[j]);
                assert(seq_has_key(s2, k));
            }
        }
    }
    assert forall|k: i64| seq_map(s2).dom().contains(k) implies #[trigger] seq_map(s2)[k]
        == seq_map(s).remove(k0)[k] by {
        let j = choose|j: int| 0 <= j < s2.len() && s2[j].0 == k;
        let j2: int = if j == i {
            n - 1
        } else {
            j
        };
        assert(s2[j] == s[j2]);
        lemma_key_index_unique(s2, k, j);
        lemma_key_index_unique(s, k, j2);
    }
    assert(seq_map(s2) =~= seq_map(s).remove(k0));
}

/// An equal copy of an optional principal.
pub(crate) fn duplicate_opt<User: Authentication>(u: &Option<User>) -> (r: Option<User>)
    ensures
        r == *u,
{
    match u {
        Some(x) => Some(x.duplicate()),
        None => None,
    }
}

/// `m` with every entry at or past its expiry at time `now` evicted.
pub open spec fn swept<User>(m: Map<i64, AuthUser<User>>, now: i64) -> Map<i64, AuthUser<User>> {
    Map::new(|k: i64| m.dom().contains(k) && m[k].expires > now, |k: i64| m[k])
}

/// A subrange of a well-keyed pair sequence is well keyed, and widening it
/// by one pair at the front inserts that pair into the denoted map.
proof fn lemma_seq_map_prepend<User>(s: Seq<(i64, AuthUser<User>)>, a: int)
    requires
        seq_wf(s),
        0 <= a < s.len(),
    ensures
        seq_wf(s.subrange(a, s.len() as int)),
        seq_wf(s.subrange(a + 1, s.len() as int)),
        !seq_has_key(s.subrange(a + 1, s.len() as int), s[a].0),
        seq_map(s.subrange(a, s.len() as int)) == seq_map(
            s.subrange(a + 1, s.len() as int),
        ).insert(s[a].0, s[a].1),
{
    let n = s.len() as int;
    let pre = s.subrange(a, n);
    let suf = s.subrange(a + 1, n);
    assert(forall|j: int| 0 <= j < pre.len() ==> pre[j] == s[a + j]);
    assert(forall|j: int| 0 <= j < suf.len() ==> suf[j] == s[a + 1 + j]);
    assert forall|x: int, y: int| 0 <= x < y < pre.len() implies pre[x].0 != pre[y].0 by {
        assert(s[a + x].0 != s[a + y].0);
    }
    assert forall|x: int, y: int| 0 <= x < y < suf.len() implies suf[x].0 != suf[y].0 by {
        assert(s[a + 1 + x].0 != s[a + 1 + y].0);
    }
    if seq_has_key(suf, s[a].0) {
        let j = choose|j: int| 0 <= j < suf.len() && suf[j].0 == s[a].0;
        assert(s[a + 1 + j].0 == s[a].0);
        assert(false);
    }
    assert forall|k: i64| #[trigger] seq_map(pre).dom().contains(k) == (seq_has_key(suf, k) || k
        == s[a].0) by {
        if seq_has_key(pre, k) {
            let j = choose|j: int| 0 <= j < pre.len() && pre[j].0 == k;
            if j == 0 {
                assert(pre[0] == s[a]);
            } else {
                assert(pre[j] == suf[j - 1]);
                assert(seq_has_key(suf, k));
            }
        }
        if seq_has_key(suf, k) {
            let j = choose|j: int| 0 <= j < suf.len() && suf[j].0 == k;
            assert(pre[j + 1] == suf[j]);
            assert(seq_has_key(pre, k));
        }
        if k == s[a].0 {
            assert(pre[0] == s[a]);
            assert(seq_has_key(pre, k));
        }
    }
    assert forall|k: i64| seq_map(pre).dom().contains(k) implies #[trigger] seq_map(pre)[k]
        == seq_map(suf).insert(s[a].0, s[a].1)[k] by {
        if k == s[a].0 {
            assert(pre[0] == s[a]);
            lemma_key_index_unique(pre, k, 0);
        } else {
            let j = choose|j: int| 0 <= j < suf.len() && suf[j].0 == k;
            assert(pre[j + 1] == suf[j]);
            lemma_key_index_unique(pre, k, j + 1);
            lemma_key_index_unique(suf, k, j);
        }
    }
    assert(seq_map(pre) =~= seq_map(suf).insert(s[a].0, s[a].1));
}

/// Inserting a fresh key and then sweeping keeps it iff it is unexpired.
proof fn lemma_swept_insert<User>(
    m: Map<i64, AuthUser<User>>,
    k: i64,
    e: AuthUser<User>,
    now: i64,
)
    requires
        !m.dom().contains(k),
    ensures
        e.expires > now ==> swept(m.insert(k, e), now) == swept(m, now).insert(k, e),
        e.expires <= now ==> swept(m.insert(k, e), now) == swept(m, now),
{
    if e.expires > now {
        assert(swept(m.insert(k, e), now) =~= swept(m, now).insert(k, e));
    } else {
        assert(swept(m.insert(k, e), now) =~= swept(m, now));
    }
}

/// A store of resolved principals keyed by id, with lazily swept expiry
/// timestamps.  The entries and the sweep timestamp are the only state the
/// identity layer shares between requests.
pub struct AuthCache<User> {
    entries: Vec<(i64, AuthUser<User>)>,
    last_expiry_sweep: i64,
}

impl<User> AuthCache<User> {
    /// The cache's contents, as a map from principal id to entry.
    pub closed spec fn as_map(&self) -> Map<i64, AuthUser<User>> {
        seq_map(self.entries@)
    }

    /// The moment at which the next opportunistic sweep is due.
    pub closed spec fn last_sweep(&self) -> i64 {
        self.last_expiry_sweep
    }

    /// Internal shape: one entry per id.
    pub closed spec fn wf(&self) -> bool {
        seq_wf(self.entries@)
    }

    /// An empty cache whose first sweep is due at `last_expiry_sweep`.
    pub fn new(last_expiry_sweep: i64) -> (r: Self)
        ensures
            r.wf(),
            r.as_map() == Map::<i64, AuthUser<User>>::empty(),
            r.last_sweep() == last_expiry_sweep,
    {
        let r = AuthCache { entries: Vec::new(), last_expiry_sweep };
        proof {
            assert(r.as_map() =~= Map::<i64, AuthUser<User>>::empty());
        }
        r
    }

    /// Where `id`'s entry sits, if anywhere.
    fn position_of(&self, id: i64) -> (r: Option<usize>)
        ensures
            match r {
                Some(i) => i < self.entries@.len() && self.entries@[i as int].0 == id,
                None => !seq_has_key(self.entries@, id),
            },
    {
        let n = self.entries.len();
        let mut i: usize = 0;
        while i < n
            invariant
                n == self.entries@.len(),
                0 <= i <= n,
                forall|j: int| 0 <= j < i ==> self.entries@[j].0 != id,
            decreases n - i,
        {
            if self.entries[i].0 == id {
                return Some(i);
            }
            i = i + 1;
        }
        None
    }

    /// True iff `id` is cached (whether as a principal or as a cached load
    /// failure).
    pub fn contains(&self, id: i64) -> (r: bool)
        ensures
            r == self.as_map().dom().contains(id),
    {
        match self.position_of(id) {
            Some(_) => true,
            None => false,
        }
    }

    /// Takes `id`'s entry out, handing it back if it was present.
    fn remove_entry(&mut self, id: i64) -> (r: Option<AuthUser<User>>)
        requires
            old(self).wf(),
        ensures
            final(self).wf(),
            final(self).last_sweep() == old(self).last_sweep(),
            final(self).as_map() == old(self).as_map().remove(id),
            match r {
                Some(e) => old(self).as_map().dom().contains(id) && e == old(self).as_map()[id],
                None => !old(self).as_map().dom().contains(id),
            },
    {
        match self.position_of(id) {
            Some(i) => {
                proof {
                    lemma_key_index_unique(self.entries@, id, i as int);
                    lemma_seq_map_swap_remove(self.entries@, i as int);
                }
                let p = self.entries.swap_remove(i);
                Some(p.1)
            },
            None => {
                proof {
                    assert(self.as_map() =~= self.as_map().remove(id));
                }
                None
            },
        }
    }

    /// Adds an entry for an id that is not yet present.
    fn push_entry(&mut self, id: i64, entry: AuthUser<User>)
        requires
            old(self).wf(),
            !old(self).as_map().dom().contains(id),
        ensures
            final(self).wf(),
            final(self).last_sweep() == old(self).last_sweep(),
            final(self).as_map() == old(self).as_map().insert(id, entry),
    {
        proof {
            lemma_seq_map_push(self.entries@, (id, entry));
        }
        self.entries.push((id, entry));
    }

    /// Drops `id`'s entry, so the next resolution of `id` asks the loader
    /// again; a no-op when `id` is not cached.
    pub fn invalidate(&mut self, id: i64)
        requires
            old(self).wf(),
        ensures
            final(self).wf(),
            final(self).last_sweep() == old(self).last_sweep(),
            final(self).as_map() == old(self).as_map().remove(id),
    {
        let _ = self.remove_entry(id);
    }

    /// Drops every entry, forcing a global reload.
    pub fn clear(&mut self)
        requires
            old(self).wf(),
        ensures
            final(self).wf(),
            final(self).last_sweep() == old(self).last_sweep(),
            final(self).as_map() == Map::<i64, AuthUser<User>>::empty(),
    {
        self.entries.clear();
        proof {
            assert(self.as_map() =~= Map::<i64, AuthUser<User>>::empty());
        }
    }

    /// Pushes `id`'s expiry out to `now + max_age` if `id` is cached; a
    /// no-op otherwise.  The cached principal itself is not reloaded.
    pub fn touch(&mut self, id: i64, now: i64, max_age: i64)
        requires
            old(self).wf(),
        ensures
            final(self).wf(),
            final(self).last_sweep() == old(self).last_sweep(),
            old(self).as_map().dom().contains(id) ==> final(self).as_map() == old(self).as_map().insert(
                id,
                (AuthUser {
                    current_user: old(self).as_map()[id].current_user,
                    expires: sat_add(now, max_age),
                }),
            ),
            !old(self).as_map().dom().contains(id) ==> final(self).as_map() == old(self).as_map(),
    {
        match self.remove_entry(id) {
            Some(e) => {
                self.push_entry(
                    id,
                    AuthUser { current_user: e.current_user, expires: saturating_add_i64(now, max_age) },
                );
                proof {
                    assert(old(self).as_map().remove(id).insert(
                        id,
                        (AuthUser {
                            current_user: old(self).as_map()[id].current_user,
                            expires: sat_add(now, max_age),
                        }),
                    ) =~= old(self).as_map().insert(
                        id,
                        (AuthUser {
                            current_user: old(self).as_map()[id].current_user,
                            expires: sat_add(now, max_age),
                        }),
                    ));
                }
            },
            None => {
                proof {
                    assert(old(self).as_map().remove(id) =~= old(self).as_map());
                }
            },
        }
    }

    /// Evicts every entry whose expiry is at or before `now`, then schedules
    /// the next sweep for `now + max_age` — but only when the current sweep
    /// is due; otherwise nothing changes.  Called opportunistically from the
    /// resolution path, which bounds staleness to one window without a
    /// background timer.
    pub fn maybe_sweep(&mut self, now: i64, max_age: i64)
        requires
            old(self).wf(),
            0 <= max_age,
        ensures
            final(self).wf(),
            final(self).last_sweep() >= old(self).last_sweep(),
            now >= old(self).last_sweep() ==> final(self).as_map() == swept(
                old(self).as_map(),
                now,
            ) && final(self).last_sweep() == sat_add(now, max_age),
            now < old(self).last_sweep() ==> final(self).as_map() == old(self).as_map() && final(self).last_sweep() == old(self).last_sweep(),
    {
        if now < self.last_expiry_sweep {
            return ;
        }
        let ghost orig: Seq<(i64, AuthUser<User>)> = self.entries@;
        let ghost sweep0: i64 = self.last_expiry_sweep;
        let mut kept: Vec<(i64, AuthUser<User>)> = Vec::new();
        proof {
            assert(self.entries@ =~= orig.subrange(0, self.entries@.len() as int));
            assert(orig.subrange(orig.len() as int, orig.len() as int) =~= Seq::<(
                i64,
                AuthUser<User>,
            )>::empty());
            assert(seq_map(kept@) =~= swept(
                seq_map(orig.subrange(self.entries@.len() as int, orig.len() as int)),
                now,
            ));
        }
        while self.entries.len() > 0
            invariant
                seq_wf(orig),
                self.last_expiry_sweep == sweep0,
                self.entries@.len() <= orig.len(),
                self.entries@ == orig.subrange(0, self.entries@.len() as int),
                seq_wf(kept@),
                seq_map(kept@) == swept(
                    seq_map(orig.subrange(self.entries@.len() as int, orig.len() as int)),
                    now,
                ),
            decreases self.entries@.len(),
        {
            let ghost entries_pre: Seq<(i64, AuthUser<User>)> = self.entries@;
            let ghost len_pre: int = entries_pre.len() as int;
            let p_opt = self.entries.pop();
            match p_opt {
                Some(p) => {
                    proof {
                        assert(self.entries@ =~= orig.subrange(0, len_pre - 1));
                        assert(p == orig[len_pre - 1]);
                        lemma_seq_map_prepend(orig, len_pre - 1);
                        lemma_swept_insert(
                            seq_map(orig.subrange(len_pre, orig.len() as int)),
                            p.0,
                            p.1,
                            now,
                        );
                        if p.1.expires > now {
                            assert(!swept(
                                seq_map(orig.subrange(len_pre, orig.len() as int)),
                                now,
                            ).dom().contains(p.0));
                            lemma_seq_map_push(kept@, p);
                        }
                    }
                    if p.1.expires > now {
                        kept.push(p);
                    }
                },
                None => {},
            }
        }
        proof {
            assert(orig.subrange(0, orig.len() as int) =~= orig);
        }
        self.entries = kept;
        self.last_expiry_sweep = saturating_add_i64(now, max_age);
    }
}

impl<User: Authentication> AuthCache<User> {
    /// The cache-consulting phase of resolution.  On an enabled-cache hit
    /// the entry's expiry is pushed out and the stored outcome is handed
    /// back (possibly a cached load failure).  `None` means the caller must
    /// run the loader and `store` what it got: the cache is disabled or `id`
    /// is not cached.
    pub fn lookup(&mut self, id: i64, now: i64, config: &AuthConfig) -> (r: Option<Option<User>>)
        requires
            old(self).wf(),
        ensures
            final(self).wf(),
            final(self).last_sweep() == old(self).last_sweep(),
            (config.cache && old(self).as_map().dom().contains(id)) ==> r == Some(
                old(self).as_map()[id].current_user,
            ) && final(self).as_map() == old(self).as_map().insert(
                id,
                (AuthUser {
                    current_user: old(self).as_map()[id].current_user,
                    expires: sat_add(now, config.max_age),
                }),
            ),
            !(config.cache && old(self).as_map().dom().contains(id)) ==> r is None && final(self).as_map() == old(self).as_map(),
    {
        if !config.cache {
            return None;
        }
        match self.remove_entry(id) {
            Some(e) => {
                let user_copy = duplicate_opt(&e.current_user);
                self.push_entry(
                    id,
                    AuthUser {
                        current_user: e.current_user,
                        expires: saturating_add_i64(now, config.max_age),
                    },
                );
                proof {
                    assert(old(self).as_map().remove(id).insert(
                        id,
                        (AuthUser {
                            current_user: old(self).as_map()[id].current_user,
                            expires: sat_add(now, config.max_age),
                        }),
                    ) =~= old(self).as_map().insert(
                        id,
                        (AuthUser {
                            current_user: old(self).as_map()[id].current_user,
                            expires: sat_add(now, config.max_age),
                        }),
                    ));
                }
                Some(user_copy)
            },
            None => {
                proof {
                    assert(old(self).as_map().remove(id) =~= old(self).as_map());
                }
                None
            },
        }
    }

    /// The recording phase of resolution: caches `loaded` for `id` —
    /// success or failure alike — with a fresh expiry.  A no-op when caching
    /// is disabled.
    pub fn store(&mut self, id: i64, loaded: Option<User>, now: i64, config: &AuthConfig)
        requires
            old(self).wf(),
        ensures
            final(self).wf(),
            final(self).last_sweep() == old(self).last_sweep(),
            config.cache ==> final(self).as_map() == old(self).as_map().insert(
                id,
                (AuthUser { current_user: loaded, expires: sat_add(now, config.max_age) }),
            ),
            !config.cache ==> final(self).as_map() == old(self).as_map(),
    {
        if !config.cache {
            return ;
        }
        let _ = self.remove_entry(id);
        self.push_entry(
            id,
            AuthUser { current_user: loaded, expires: saturating_add_i64(now, config.max_age) },
        );
        proof {
            assert(old(self).as_map().remove(id).insert(
                id,
                (AuthUser { current_user: loaded, expires: sat_add(now, config.max_age) }),
            ) =~= old(self).as_map().insert(
                id,
                (AuthUser { current_user: loaded, expires: sat_add(now, config.max_age) }),
            ));
        }
    }

    /// Resolves `id` through the cache, asking `loader` only when the cache
    /// cannot answer.  With caching disabled the loader is always consulted
    /// and nothing is stored.  With caching enabled: a hit extends the
    /// entry's expiry and returns the stored outcome — a cached load failure
    /// included, so a failing backing store is not retried within the
    /// window; a miss runs the loader and caches its outcome, success or
    /// failure alike.
    pub fn get_or_load<F: FnOnce(i64) -> Option<User>>(
        &mut self,
        id: i64,
        now: i64,
        config: &AuthConfig,
        loader: F,
    ) -> (r: Option<User>)
        requires
            old(self).wf(),
            call_requires(loader, (id,)),
        ensures
            final(self).wf(),
            final(self).last_sweep() == old(self).last_sweep(),
            !config.cache ==> call_ensures(loader, (id,), r) && final(self).as_map() == old(self).as_map(),
            (config.cache && old(self).as_map().dom().contains(id)) ==> r == old(self).as_map()[id].current_user && final(self).as_map() == old(self).as_map().insert(
                id,
                (AuthUser {
                    current_user: old(self).as_map()[id].current_user,
                    expires: sat_add(now, config.max_age),
                }),
            ),
            (config.cache && !old(self).as_map().dom().contains(id)) ==> call_ensures(
                loader,
                (id,),
                r,
            ) && final(self).as_map() == old(self).as_map().insert(
                id,
                (AuthUser { current_user: r, expires: sat_add(now, config.max_age) }),
            ),
    {
        if !config.cache {
            return loader(id);
        }
        match self.lookup(id, now, config) {
            Some(outcome) => outcome,
            None => {
                let loaded = loader(id);
                let copy = duplicate_opt(&loaded);
                self.store(id, loaded, now, config);
                copy
            },
        }
    }
}

/// Law (cache idempotence): a `get_or_load` with caching on leaves the
/// contents `m.insert(id, e)` with `e.current_user` the outcome it
/// returned; this entry is what an immediately following `get_or_load` for
/// `id` finds, so by the hit clause of its contract the second call returns
/// the same outcome and never consults its loader.
pub proof fn lemma_get_or_load_idempotent<User>(
    m: Map<i64, AuthUser<User>>,
    id: i64,
    e: AuthUser<User>,
)
    ensures
        m.insert(id, e).dom().contains(id),
        m.insert(id, e)[id] == e,
{
}

/// Law (expiry): a sweep at a time at or past an entry's expiry evicts the
/// entry, so the next `get_or_load` for that id misses and, by the miss
/// clause of its contract, consults the loader again.
pub proof fn lemma_sweep_evicts<User>(m: Map<i64, AuthUser<User>>, id: i64, now: i64)
    requires
        m.dom().contains(id),
        m[id].expires <= now,
    ensures
        !swept(m, now).dom().contains(id),
{
}

/// Law (invalidation): `invalidate` leaves the contents `m.remove(id)`, in
/// which `id` is absent; an immediately following `get_or_load` for `id`
/// therefore misses and, by the miss clause of its contract, consults the
/// loader even within the expiry window.
pub proof fn lemma_invalidate_forces_load<User>(m: Map<i64, AuthUser<User>>, id: i64)
    ensures
        !m.remove(id).dom().contains(id),
{
}

} // verus!
