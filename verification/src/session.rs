use vstd::prelude::*;

use crate::cache::AuthCache;
use crate::cache::AuthUser;
use crate::cache::duplicate_opt;
use crate::config::AuthConfig;
use crate::time::sat_add;

verus! {

/// The record interface that a principal must expose to the identity layer.
///
/// `authenticated_spec`, `active_spec` and `anonymous_spec` give the
/// mathematical meaning of the three executable checks; an implementor
/// supplies both and proves that they agree.  `duplicate` stands in for
/// cloning: the cache retains a principal and hands out an equal copy.
pub trait Authentication: Sized {
    /// The meaning of `is_authenticated`.  The default says the principal is
    /// never authenticated; a verified implementor overrides it and proves
    /// the executable check agrees.
    open spec fn authenticated_spec(&self) -> bool {
        false
    }

    /// The meaning of `is_active`; defaults and overriding as above.
    open spec fn active_spec(&self) -> bool {
        false
    }

    /// The meaning of `is_anonymous`; defaults and overriding as above.
    open spec fn anonymous_spec(&self) -> bool {
        true
    }

    fn is_authenticated(&self) -> (r: bool)
        ensures
            r == self.authenticated_spec(),
    ;

    fn is_active(&self) -> (r: bool)
        ensures
            r == self.active_spec(),
    ;

    fn is_anonymous(&self) -> (r: bool)
        ensures
            r == self.anonymous_spec(),
    ;

    fn duplicate(&self) -> (r: Self)
        ensures
            r == *self,
    ;
}

/// How a long-lived identity compares against what the session and the cache
/// currently hold.
pub enum AuthStatus {
    /// The stored id matches and, when caching is on, the principal is still
    /// cached.
    LoggedIn,
    /// The session now stores a different id.
    DifferentID,
    /// The session no longer stores an id.
    LoggedOut,
    /// The principal was evicted from the cache and needs reloading.
    StaleUser,
}

/// The per-request bundle of resolved identity and policy configuration,
/// produced by the resolution pipeline and read by handlers and gates.  It
/// lives for one request; the cache it was resolved through is handed to its
/// methods by the caller, since that one store is shared between requests.
pub struct AuthSession<User> {
    /// The resolved principal id; `NO_IDENTITY` for an anonymous request.
    pub id: i64,
    /// The resolved principal; `None` for an anonymous request or a failed
    /// load.
    pub current_user: Option<User>,
    /// The layer configuration the request was served under.
    pub config: AuthConfig,
}

impl<User: Authentication> AuthSession<User> {
    /// A context for a request resolved to `id` and `current_user` under
    /// `config`.
    pub fn new(id: i64, current_user: Option<User>, config: AuthConfig) -> (r: Self)
        ensures
            r.id == id,
            r.current_user == current_user,
            r.config == config,
    {
        AuthSession { id, current_user, config }
    }

    /// True iff a principal was resolved and it reports itself
    /// authenticated.
    pub fn is_authenticated(&self) -> (r: bool)
        ensures
            r == match self.current_user {
                Some(u) => u.authenticated_spec(),
                None => false,
            },
    {
        match &self.current_user {
            Some(u) => u.is_authenticated(),
            None => false,
        }
    }

    /// True iff a principal was resolved and it reports itself active.
    pub fn is_active(&self) -> (r: bool)
        ensures
            r == match self.current_user {
                Some(u) => u.active_spec(),
                None => false,
            },
    {
        match &self.current_user {
            Some(u) => u.is_active(),
            None => false,
        }
    }

    /// True iff no principal was resolved, or the principal reports itself
    /// anonymous.
    pub fn is_anonymous(&self) -> (r: bool)
        ensures
            r == match self.current_user {
                Some(u) => u.anonymous_spec(),
                None => true,
            },
    {
        match &self.current_user {
            Some(u) => u.is_anonymous(),
            None => true,
        }
    }

    /// Drops `id` from the cache so that principal is reloaded on its next
    /// request.
    pub fn cache_clear_user(&self, id: i64, cache: &mut AuthCache<User>)
        requires
            old(cache).wf(),
        ensures
            final(cache).wf(),
            final(cache).last_sweep() == old(cache).last_sweep(),
            final(cache).as_map() == old(cache).as_map().remove(id),
    {
        cache.invalidate(id);
    }

    /// Empties the cache to force a reload of every principal.
    pub fn cache_clear_all(&self, cache: &mut AuthCache<User>)
        requires
            old(cache).wf(),
        ensures
            final(cache).wf(),
            final(cache).last_sweep() == old(cache).last_sweep(),
            final(cache).as_map() == Map::<i64, AuthUser<User>>::empty(),
    {
        cache.clear();
    }

    /// How this context's identity compares with what the session currently
    /// stores (`stored_id`) and with the cache: still logged in, logged out,
    /// switched to a different id, or evicted from the cache and stale.
    pub fn is_logged_in(&self, stored_id: Option<i64>, cache: &AuthCache<User>) -> (r: AuthStatus)
        ensures
            (match stored_id {
                Some(sid) => if sid != self.id {
                    r is DifferentID
                } else if self.config.cache && !cache.as_map().dom().contains(self.id) {
                    r is StaleUser
                } else {
                    r is LoggedIn
                },
                None => r is LoggedOut,
            }),
    {
        match stored_id {
            Some(sid) => {
                if sid == self.id {
                    if self.config.cache {
                        if cache.contains(self.id) {
                            AuthStatus::LoggedIn
                        } else {
                            AuthStatus::StaleUser
                        }
                    } else {
                        AuthStatus::LoggedIn
                    }
                } else {
                    AuthStatus::DifferentID
                }
            },
            None => AuthStatus::LoggedOut,
        }
    }

    /// Reloads this context's principal through `loader` and, when caching
    /// is on, re-caches the outcome under a fresh expiry; the context's
    /// principal is replaced by what the loader returned.
    pub fn reload_user<F: FnOnce(i64) -> Option<User>>(
        &mut self,
        cache: &mut AuthCache<User>,
        now: i64,
        loader: F,
    )
        requires
            old(cache).wf(),
            call_requires(loader, (old(self).id,)),
        ensures
            final(cache).wf(),
            final(cache).last_sweep() == old(cache).last_sweep(),
            final(self).id == old(self).id,
            final(self).config == old(self).config,
            exists|v: Option<User>|
                {
                    &&& #[trigger] call_ensures(loader, (old(self).id,), v)
                    &&& final(self).current_user == v
                    &&& (old(self).config.cache ==> final(cache).as_map() == old(cache).as_map().insert(
                        old(self).id,
                        (AuthUser {
                            current_user: v,
                            expires: sat_add(now, old(self).config.max_age),
                        }),
                    ))
                    &&& (!old(self).config.cache ==> final(cache).as_map() == old(cache).as_map())
                },
    {
        let loaded = loader(self.id);
        let copy = duplicate_opt(&loaded);
        cache.store(self.id, copy, now, &self.config);
        self.current_user = loaded;
    }

    /// Pushes this context's cache entry out to a fresh expiry, so a sweep
    /// will not evict it; the principal's data is not reloaded.  A no-op
    /// when caching is off or the principal is not cached.
    pub fn update_user_expiration(&self, cache: &mut AuthCache<User>, now: i64)
        requires
            old(cache).wf(),
        ensures
            final(cache).wf(),
            final(cache).last_sweep() == old(cache).last_sweep(),
            (self.config.cache && old(cache).as_map().dom().contains(self.id)) ==> final(cache).as_map() == old(cache).as_map().insert(
                self.id,
                (AuthUser {
                    current_user: old(cache).as_map()[self.id].current_user,
                    expires: sat_add(now, self.config.max_age),
                }),
            ),
            !(self.config.cache && old(cache).as_map().dom().contains(self.id)) ==> final(cache).as_map() == old(cache).as_map(),
    {
        if self.config.cache {
            cache.touch(self.id, now, self.config.max_age);
        }
    }

    /// Adopts the id the session currently stores; a no-op when the session
    /// stores none.  The principal's data is not reloaded.
    pub fn sync_user_id(&mut self, stored_id: Option<i64>)
        ensures
            final(self).current_user == old(self).current_user,
            final(self).config == old(self).config,
            final(self).id == match stored_id {
                Some(sid) => sid,
                None => old(self).id,
            },
    {
        match stored_id {
            Some(sid) => {
                self.id = sid;
            },
            None => {},
        }
    }
}

} // verus!

