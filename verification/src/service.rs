use vstd::prelude::*;

use crate::cache::AuthCache;
use crate::cache::AuthUser;
use crate::cache::duplicate_opt;
use crate::cache::swept;
use crate::config::AuthConfig;
use crate::config::NO_IDENTITY;
use crate::session::AuthSession;
use crate::session::Authentication;
use crate::time::now_ts;
use crate::time::sat_add;

verus! {

/// The one failure the resolution pipeline itself can raise.
#[derive(Clone, Copy, PartialEq, Eq, Structural, Debug)]
pub enum AuthError {
    /// No session mechanism carried the request and no anonymous fallback is
    /// configured: the request is answered unauthorized without reaching a
    /// handler.
    NoSession,
}

/// Which principal id a request resolves to: the session-stored id when
/// there is one, else the configured anonymous id, else — only under a
/// session mechanism — the `NO_IDENTITY` sentinel; with no session mechanism
/// and no fallback the request is denied.
pub open spec fn spec_resolve_id(
    session_present: bool,
    stored_id: Option<i64>,
    config: AuthConfig,
) -> Result<i64, AuthError> {
    match stored_id {
        Some(v) => Ok(v),
        None => match config.anonymous_user_id {
            Some(a) => Ok(a),
            None => if session_present {
                Ok(NO_IDENTITY)
            } else {
                Err(AuthError::NoSession)
            },
        },
    }
}

/// Two configurations that drive the pipeline identically.
pub open spec fn config_eq(a: AuthConfig, b: AuthConfig) -> bool {
    &&& a.cache == b.cache
    &&& a.anonymous_user_id == b.anonymous_user_id
    &&& a.session_id@ == b.session_id@
    &&& a.max_age == b.max_age
}

/// Cache contents and sweep schedule after the opportunistic sweep that ends
/// a resolution: with caching on and the sweep due, expired entries are
/// evicted and the next sweep is scheduled one window out; otherwise nothing
/// changes.
pub open spec fn after_sweep<User>(
    m: Map<i64, AuthUser<User>>,
    sweep_at: i64,
    now: i64,
    config: AuthConfig,
) -> (Map<i64, AuthUser<User>>, i64) {
    if config.cache && now >= sweep_at {
        (swept(m, now), sat_add(now, config.max_age))
    } else {
        (m, sweep_at)
    }
}

/// Resolves the principal id for a request, as `spec_resolve_id` says.
pub fn resolve_id(session_present: bool, stored_id: Option<i64>, config: &AuthConfig) -> (r:
    Result<i64, AuthError>)
    requires
        session_present || stored_id is None,
    ensures
        r == spec_resolve_id(session_present, stored_id, *config),
{
    match stored_id {
        Some(v) => Ok(v),
        None => match &config.anonymous_user_id {
            Some(a) => Ok(*a),
            None => {
                if session_present {
                    Ok(NO_IDENTITY)
                } else {
                    Err(AuthError::NoSession)
                }
            },
        },
    }
}

/// Where a request's resolution stands after the cache has been consulted.
pub enum ResolveStep<User> {
    /// No session mechanism and no anonymous fallback: answer unauthorized,
    /// do not reach the handler.
    Denied,
    /// Resolution finished without a load: anonymous request or cache hit.
    Resolved(AuthSession<User>),
    /// The caller must load this id from the backing store and hand the
    /// outcome — success or failure — to `resolve_finish`.
    NeedsLoad(i64),
}

/// The first half of resolution: runs the due sweep first — so an expired
/// entry is evicted before any hit could refresh it, bounding staleness to
/// one expiry window — then consults the cache, and either finishes
/// (anonymous request, cache hit, or denial) or names the id the caller must
/// load and hand to `resolve_finish`.
pub fn resolve_begin<User: Authentication>(
    cache: &mut AuthCache<User>,
    config: &AuthConfig,
    session_present: bool,
    stored_id: Option<i64>,
    now: i64,
) -> (r: ResolveStep<User>)
    requires
        old(cache).wf(),
        config.wf(),
        session_present || stored_id is None,
    ensures
        final(cache).wf(),
        (match spec_resolve_id(session_present, stored_id, *config) {
            Err(_) => r is Denied && final(cache).as_map() == old(cache).as_map() && final(cache).last_sweep() == old(cache).last_sweep(),
            Ok(id) => ({
                let swept_pair = after_sweep(
                    old(cache).as_map(),
                    old(cache).last_sweep(),
                    now,
                    *config,
                );
                if id == NO_IDENTITY {
                    (match r {
                        ResolveStep::Resolved(s) => s.id == id && s.current_user is None
                            && config_eq(s.config, *config),
                        _ => false,
                    }) && (final(cache).as_map(), final(cache).last_sweep()) == swept_pair
                } else if config.cache && swept_pair.0.dom().contains(id) {
                    (match r {
                        ResolveStep::Resolved(s) => s.id == id && s.current_user
                            == swept_pair.0[id].current_user && config_eq(s.config, *config),
                        _ => false,
                    }) && final(cache).as_map() == swept_pair.0.insert(
                        id,
                        (AuthUser {
                            current_user: swept_pair.0[id].current_user,
                            expires: sat_add(now, config.max_age),
                        }),
                    ) && final(cache).last_sweep() == swept_pair.1
                } else {
                    (match r {
                        ResolveStep::NeedsLoad(i) => i == id,
                        _ => false,
                    }) && (final(cache).as_map(), final(cache).last_sweep()) == swept_pair
                }
            }),
        }),
{
    match resolve_id(session_present, stored_id, config) {
        Err(_) => ResolveStep::Denied,
        Ok(id) => {
            if config.cache {
                cache.maybe_sweep(now, config.max_age);
            }
            if id == NO_IDENTITY {
                ResolveStep::Resolved(AuthSession::new(id, None, config.duplicate()))
            } else {
                match cache.lookup(id, now, config) {
                    Some(outcome) => ResolveStep::Resolved(
                        AuthSession::new(id, outcome, config.duplicate()),
                    ),
                    None => ResolveStep::NeedsLoad(id),
                }
            }
        },
    }
}

/// The second half of resolution, after the caller has loaded `id`: caches
/// the outcome — success or failure alike, when caching is on — under a
/// fresh expiry, and hands back the request's context.  The opportunistic
/// sweep already ran in `resolve_begin`.
pub fn resolve_finish<User: Authentication>(
    cache: &mut AuthCache<User>,
    config: &AuthConfig,
    id: i64,
    loaded: Option<User>,
    now: i64,
) -> (r: AuthSession<User>)
    requires
        old(cache).wf(),
    ensures
        final(cache).wf(),
        final(cache).last_sweep() == old(cache).last_sweep(),
        r.id == id,
        r.current_user == loaded,
        config_eq(r.config, *config),
        config.cache ==> final(cache).as_map() == old(cache).as_map().insert(
            id,
            (AuthUser { current_user: loaded, expires: sat_add(now, config.max_age) }),
        ),
        !config.cache ==> final(cache).as_map() == old(cache).as_map(),
{
    let copy = duplicate_opt(&loaded);
    cache.store(id, copy, now, config);
    AuthSession::new(id, loaded, config.duplicate())
}

/// What a finished resolution guarantees, given the cache's contents and
/// sweep schedule before (`pre`, `pre_sweep`) and after (`post`,
/// `post_sweep`), the resolved id, the produced context `s`, the loader the
/// pipeline was handed, and the moment `now` it ran.  The due sweep runs
/// first, so an entry at or past its expiry is gone before the cache is
/// consulted; then an anonymous request gets no principal and no further
/// cache interaction; a hit on the swept contents gets the stored outcome
/// under a refreshed expiry; a miss or a disabled cache gets whatever the
/// loader returned, cached iff caching is on.
pub open spec fn resolve_outcome_ok<User, F: FnOnce(i64) -> Option<User>>(
    pre: Map<i64, AuthUser<User>>,
    pre_sweep: i64,
    post: Map<i64, AuthUser<User>>,
    post_sweep: i64,
    config: AuthConfig,
    id: i64,
    s: AuthSession<User>,
    loader: F,
    now: i64,
) -> bool {
    let swept_pair = after_sweep(pre, pre_sweep, now, config);
    let m1 = swept_pair.0;
    let s1 = swept_pair.1;
    &&& s.id == id
    &&& config_eq(s.config, config)
    &&& (id == NO_IDENTITY ==> s.current_user is None && (post, post_sweep) == (m1, s1))
    &&& (id != NO_IDENTITY && config.cache && m1.dom().contains(id) ==> s.current_user
        == m1[id].current_user && post == m1.insert(
        id,
        (AuthUser { current_user: m1[id].current_user, expires: sat_add(now, config.max_age) }),
    ) && post_sweep == s1)
    &&& (id != NO_IDENTITY && config.cache && !m1.dom().contains(id) ==> call_ensures(
        loader,
        (id,),
        s.current_user,
    ) && post == m1.insert(
        id,
        (AuthUser { current_user: s.current_user, expires: sat_add(now, config.max_age) }),
    ) && post_sweep == s1)
    &&& (id != NO_IDENTITY && !config.cache ==> call_ensures(loader, (id,), s.current_user) && (
    post,
    post_sweep,
    ) == (pre, pre_sweep))
}

/// One whole resolution at the moment `now`: reads the session-carried id
/// (or falls back), runs the due sweep, consults the swept cache, runs
/// `loader` only where the cache cannot answer, records the outcome, and
/// hands back the request's context — or `NoSession` when no session
/// mechanism and no fallback exist, in which case nothing is touched.
pub fn resolve_session_at<User: Authentication, F: FnOnce(i64) -> Option<User>>(
    cache: &mut AuthCache<User>,
    config: &AuthConfig,
    session_present: bool,
    stored_id: Option<i64>,
    now: i64,
    loader: F,
) -> (r: Result<AuthSession<User>, AuthError>)
    requires
        old(cache).wf(),
        config.wf(),
        session_present || stored_id is None,
        (match spec_resolve_id(session_present, stored_id, *config) {
            Ok(id) => call_requires(loader, (id,)),
            Err(_) => true,
        }),
    ensures
        final(cache).wf(),
        (match spec_resolve_id(session_present, stored_id, *config) {
            Err(_) => r == Err::<AuthSession<User>, AuthError>(AuthError::NoSession) && final(cache).as_map() == old(cache).as_map() && final(cache).last_sweep() == old(cache).last_sweep(),
            Ok(id) => (match r {
                Ok(s) => resolve_outcome_ok(
                    old(cache).as_map(),
                    old(cache).last_sweep(),
                    final(cache).as_map(),
                    final(cache).last_sweep(),
                    *config,
                    id,
                    s,
                    loader,
                    now,
                ),
                Err(_) => false,
            }),
        }),
{
    match resolve_begin(cache, config, session_present, stored_id, now) {
        ResolveStep::Denied => Err(AuthError::NoSession),
        ResolveStep::Resolved(s) => Ok(s),
        ResolveStep::NeedsLoad(id) => {
            let loaded = loader(id);
            Ok(resolve_finish(cache, config, id, loaded, now))
        },
    }
}

/// `resolve_session_at` at the wall clock's current moment.  The clock is
/// read once; everything `resolve_session_at` guarantees holds for that
/// moment, whatever it was.
pub fn resolve_session<User: Authentication, F: FnOnce(i64) -> Option<User>>(
    cache: &mut AuthCache<User>,
    config: &AuthConfig,
    session_present: bool,
    stored_id: Option<i64>,
    loader: F,
) -> (r: Result<AuthSession<User>, AuthError>)
    requires
        old(cache).wf(),
        config.wf(),
        session_present || stored_id is None,
        (match spec_resolve_id(session_present, stored_id, *config) {
            Ok(id) => call_requires(loader, (id,)),
            Err(_) => true,
        }),
    ensures
        final(cache).wf(),
        (match spec_resolve_id(session_present, stored_id, *config) {
            Err(_) => r == Err::<AuthSession<User>, AuthError>(AuthError::NoSession) && final(cache).as_map() == old(cache).as_map() && final(cache).last_sweep() == old(cache).last_sweep(),
            Ok(id) => (match r {
                Ok(s) => exists|now: i64|
                    resolve_outcome_ok(
                        old(cache).as_map(),
                        old(cache).last_sweep(),
                        final(cache).as_map(),
                        final(cache).last_sweep(),
                        *config,
                        id,
                        s,
                        loader,
                        now,
                    ),
                Err(_) => false,
            }),
        }),
{
    let now = now_ts();
    resolve_session_at(cache, config, session_present, stored_id, now, loader)
}


} // verus!
