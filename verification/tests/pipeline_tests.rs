use std::cell::Cell;

use session_auth::AuthCache;
use session_auth::AuthConfig;
use session_auth::AuthError;
use session_auth::AuthSession;
use session_auth::AuthStatus;
use session_auth::Authentication;
use session_auth::NO_IDENTITY;
use session_auth::ResolveStep;
use session_auth::service::resolve_begin;
use session_auth::service::resolve_finish;
use session_auth::service::resolve_id;
use session_auth::service::resolve_session;
use session_auth::service::resolve_session_at;
use session_auth::time::saturating_add_i64;

#[derive(Clone, Debug, PartialEq)]
struct TestUser {
    id: i64,
    generation: u32,
    authenticated: bool,
}

impl TestUser {
    fn gen1(id: i64) -> TestUser {
        TestUser { id, generation: 1, authenticated: true }
    }

    fn gen2(id: i64) -> TestUser {
        TestUser { id, generation: 2, authenticated: true }
    }
}

impl Authentication for TestUser {
    fn is_authenticated(&self) -> bool {
        self.authenticated
    }

    fn is_active(&self) -> bool {
        self.authenticated
    }

    fn is_anonymous(&self) -> bool {
        !self.authenticated
    }

    fn duplicate(&self) -> TestUser {
        self.clone()
    }
}

const HOUR: i64 = 3600;

fn counting_loader<'a>(
    calls: &'a Cell<u32>,
    outcome: Option<TestUser>,
) -> impl FnOnce(i64) -> Option<TestUser> + 'a {
    move |_id: i64| {
        calls.set(calls.get() + 1);
        outcome
    }
}

#[test]
fn resolve_id_prefers_stored_then_anonymous_then_sentinel() {
    let config = AuthConfig::new().with_anonymous_user_id(Some(9));
    assert_eq!(resolve_id(true, Some(2), &config), Ok(2));
    assert_eq!(resolve_id(true, None, &config), Ok(9));
    let bare = AuthConfig::new();
    assert_eq!(resolve_id(true, None, &bare), Ok(NO_IDENTITY));
}

#[test]
fn no_session_and_no_anonymous_id_is_denied() {
    // No session mechanism and no anonymous fallback: the pipeline yields
    // NoSession and no handler (loader) is invoked.
    let config = AuthConfig::new();
    assert_eq!(resolve_id(false, None, &config), Err(AuthError::NoSession));

    let mut cache: AuthCache<TestUser> = AuthCache::new(HOUR);
    let calls = Cell::new(0);
    let outcome =
        resolve_session_at(&mut cache, &config, false, None, 0, counting_loader(&calls, None));
    assert_eq!(outcome.map(|s| s.id), Err(AuthError::NoSession));
    assert_eq!(calls.get(), 0);
}

#[test]
fn no_session_with_anonymous_id_falls_back() {
    let config = AuthConfig::new().with_anonymous_user_id(Some(9));
    let mut cache: AuthCache<TestUser> = AuthCache::new(HOUR);
    let calls = Cell::new(0);
    let outcome = resolve_session_at(
        &mut cache,
        &config,
        false,
        None,
        0,
        counting_loader(&calls, Some(TestUser::gen1(9))),
    );
    let session = outcome.expect("anonymous fallback resolves");
    assert_eq!(session.id, 9);
    assert_eq!(session.current_user, Some(TestUser::gen1(9)));
    assert_eq!(calls.get(), 1);
}

#[test]
fn sentinel_id_resolves_anonymously_without_cache_interaction() {
    let config = AuthConfig::new();
    let mut cache: AuthCache<TestUser> = AuthCache::new(i64::MAX);
    let calls = Cell::new(0);
    let outcome = resolve_session_at(
        &mut cache,
        &config,
        true,
        Some(NO_IDENTITY),
        0,
        counting_loader(&calls, Some(TestUser::gen1(0))),
    );
    let session = outcome.expect("sentinel resolves");
    assert_eq!(session.id, NO_IDENTITY);
    assert_eq!(session.current_user, None);
    assert_eq!(calls.get(), 0);
    assert!(!cache.contains(NO_IDENTITY));
}

#[test]
fn scenario_six_hour_cache_hit_then_expiry() {
    // max_age six hours, caching on, id 2 loads successfully: the first
    // resolution caches it; one at t+1h returns the same principal without a
    // loader call; at t+7h a sweep has evicted it and the loader runs again.
    let config = AuthConfig::new().set_cache(true).with_max_age(6 * HOUR);
    let t0 = 1_000_000;
    let mut cache: AuthCache<TestUser> = AuthCache::new(t0);
    let calls = Cell::new(0);

    let first = resolve_session_at(
        &mut cache,
        &config,
        true,
        Some(2),
        t0,
        counting_loader(&calls, Some(TestUser::gen1(2))),
    )
    .expect("resolves");
    assert_eq!(first.current_user, Some(TestUser::gen1(2)));
    assert_eq!(calls.get(), 1);
    assert!(cache.contains(2));

    let second = resolve_session_at(
        &mut cache,
        &config,
        true,
        Some(2),
        t0 + HOUR,
        counting_loader(&calls, Some(TestUser::gen2(2))),
    )
    .expect("resolves");
    assert_eq!(second.current_user, Some(TestUser::gen1(2)));
    assert_eq!(calls.get(), 1);

    // By t+7h the entry (expiring t+1h+6h) is due; the one resolution at
    // that moment sweeps first, finds id 2 evicted, and loads afresh.
    let third = resolve_session_at(
        &mut cache,
        &config,
        true,
        Some(2),
        t0 + 7 * HOUR,
        counting_loader(&calls, Some(TestUser::gen2(2))),
    )
    .expect("resolves");
    assert_eq!(third.current_user, Some(TestUser::gen2(2)));
    assert_eq!(calls.get(), 2);
    assert!(cache.contains(2));
}

#[test]
fn failed_pipeline_load_proceeds_as_anonymous() {
    let config = AuthConfig::new();
    let mut cache: AuthCache<TestUser> = AuthCache::new(i64::MAX);
    let calls = Cell::new(0);
    let session =
        resolve_session_at(&mut cache, &config, true, Some(5), 0, counting_loader(&calls, None))
            .expect("load failure is not fatal");
    assert_eq!(session.id, 5);
    assert_eq!(session.current_user, None);
    assert!(!session.is_authenticated());
    assert!(session.is_anonymous());
    // The failure itself was cached.
    assert!(cache.contains(5));
}

#[test]
fn begin_and_finish_split_the_miss_path() {
    let config = AuthConfig::new();
    let t0 = 1_000_000;
    let mut cache: AuthCache<TestUser> = AuthCache::new(t0 + HOUR);

    let step = resolve_begin(&mut cache, &config, true, Some(4), t0);
    let id = match step {
        ResolveStep::NeedsLoad(id) => id,
        _ => panic!("a cold cache must ask for a load"),
    };
    assert_eq!(id, 4);

    let session = resolve_finish(&mut cache, &config, id, Some(TestUser::gen1(4)), t0);
    assert_eq!(session.id, 4);
    assert_eq!(session.current_user, Some(TestUser::gen1(4)));
    assert!(cache.contains(4));

    // A second begin is now a hit and finishes on its own.
    match resolve_begin(&mut cache, &config, true, Some(4), t0 + 1) {
        ResolveStep::Resolved(s) => {
            assert_eq!(s.current_user, Some(TestUser::gen1(4)));
        },
        _ => panic!("a warm cache must resolve directly"),
    }
}

#[test]
fn begin_denies_without_session_or_fallback() {
    let config = AuthConfig::new();
    let mut cache: AuthCache<TestUser> = AuthCache::new(HOUR);
    match resolve_begin(&mut cache, &config, false, None, 0) {
        ResolveStep::Denied => {},
        _ => panic!("no session and no fallback must deny"),
    }
}

#[test]
fn resolve_session_reads_the_wall_clock() {
    let config = AuthConfig::new();
    let mut cache: AuthCache<TestUser> = AuthCache::new(0);
    let calls = Cell::new(0);
    let session = resolve_session(
        &mut cache,
        &config,
        true,
        Some(2),
        counting_loader(&calls, Some(TestUser::gen1(2))),
    )
    .expect("resolves");
    assert_eq!(session.id, 2);
    assert_eq!(session.current_user, Some(TestUser::gen1(2)));
    assert_eq!(calls.get(), 1);
}

#[test]
fn session_reports_its_principal() {
    let config = AuthConfig::new();
    let authed = AuthSession::new(2, Some(TestUser::gen1(2)), config.duplicate());
    assert!(authed.is_authenticated());
    assert!(authed.is_active());
    assert!(!authed.is_anonymous());

    let anon: AuthSession<TestUser> = AuthSession::new(0, None, config.duplicate());
    assert!(!anon.is_authenticated());
    assert!(!anon.is_active());
    assert!(anon.is_anonymous());
}

#[test]
fn is_logged_in_distinguishes_the_four_states() {
    let config = AuthConfig::new();
    let mut cache: AuthCache<TestUser> = AuthCache::new(HOUR);
    let session = AuthSession::new(2, Some(TestUser::gen1(2)), config.duplicate());

    assert!(matches!(session.is_logged_in(None, &cache), AuthStatus::LoggedOut));
    assert!(matches!(session.is_logged_in(Some(3), &cache), AuthStatus::DifferentID));
    assert!(matches!(session.is_logged_in(Some(2), &cache), AuthStatus::StaleUser));

    cache.store(2, Some(TestUser::gen1(2)), 0, &config);
    assert!(matches!(session.is_logged_in(Some(2), &cache), AuthStatus::LoggedIn));

    // With caching off the cache's contents do not matter.
    let nocache_session =
        AuthSession::new(2, Some(TestUser::gen1(2)), config.duplicate().set_cache(false));
    let empty: AuthCache<TestUser> = AuthCache::new(HOUR);
    assert!(matches!(nocache_session.is_logged_in(Some(2), &empty), AuthStatus::LoggedIn));
}

#[test]
fn reload_user_replaces_principal_and_recaches() {
    let config = AuthConfig::new();
    let t0 = 1_000_000;
    let mut cache: AuthCache<TestUser> = AuthCache::new(t0 + HOUR);
    let calls = Cell::new(0);

    let mut session = AuthSession::new(2, Some(TestUser::gen1(2)), config.duplicate());
    session.reload_user(&mut cache, t0, counting_loader(&calls, Some(TestUser::gen2(2))));
    assert_eq!(session.current_user, Some(TestUser::gen2(2)));
    assert_eq!(calls.get(), 1);
    assert!(cache.contains(2));
    assert_eq!(cache.lookup(2, t0, &config), Some(Some(TestUser::gen2(2))));
}

#[test]
fn update_user_expiration_keeps_entry_past_a_sweep() {
    let config = AuthConfig::new();
    let t0 = 1_000_000;
    let mut cache: AuthCache<TestUser> = AuthCache::new(0);
    cache.store(2, Some(TestUser::gen1(2)), t0, &config);

    let session = AuthSession::new(2, Some(TestUser::gen1(2)), config.duplicate());
    // Without the bump a sweep at t0 + 7h would evict; the bump at t0 + 5h
    // pushes expiry to t0 + 11h.
    session.update_user_expiration(&mut cache, t0 + 5 * HOUR);
    cache.maybe_sweep(t0 + 7 * HOUR, 6 * HOUR);
    assert!(cache.contains(2));
}

#[test]
fn cache_clear_user_and_all_delegate_to_the_cache() {
    let config = AuthConfig::new();
    let mut cache: AuthCache<TestUser> = AuthCache::new(HOUR);
    cache.store(1, Some(TestUser::gen1(1)), 0, &config);
    cache.store(2, Some(TestUser::gen1(2)), 0, &config);

    let session = AuthSession::new(1, Some(TestUser::gen1(1)), config.duplicate());
    session.cache_clear_user(2, &mut cache);
    assert!(cache.contains(1) && !cache.contains(2));
    session.cache_clear_all(&mut cache);
    assert!(!cache.contains(1));
}

#[test]
fn sync_user_id_adopts_only_a_present_id() {
    let config = AuthConfig::new();
    let mut session: AuthSession<TestUser> = AuthSession::new(2, None, config.duplicate());
    session.sync_user_id(None);
    assert_eq!(session.id, 2);
    session.sync_user_id(Some(8));
    assert_eq!(session.id, 8);
}

#[test]
fn config_defaults_match_the_documented_values() {
    let config = AuthConfig::new();
    assert!(config.cache);
    assert_eq!(config.anonymous_user_id, None);
    assert_eq!(config.session_id, "user_auth_session_id");
    assert_eq!(config.max_age, 6 * HOUR);
    let by_default = AuthConfig::default();
    assert!(by_default.cache);
    assert_eq!(by_default.session_id, "user_auth_session_id");
}

#[test]
fn config_builders_replace_one_field_each() {
    let config = AuthConfig::new()
        .set_cache(false)
        .with_anonymous_user_id(Some(7))
        .with_max_age(60)
        .with_session_id("tenant_session".to_string());
    assert!(!config.cache);
    assert_eq!(config.anonymous_user_id, Some(7));
    assert_eq!(config.max_age, 60);
    assert_eq!(config.session_id, "tenant_session");
}

#[test]
fn saturating_add_clamps_at_the_ends() {
    assert_eq!(saturating_add_i64(1, 2), 3);
    assert_eq!(saturating_add_i64(i64::MAX, 1), i64::MAX);
    assert_eq!(saturating_add_i64(i64::MAX - 5, 10), i64::MAX);
    assert_eq!(saturating_add_i64(i64::MIN, -1), i64::MIN);
    assert_eq!(saturating_add_i64(-3, -4), -7);
    assert_eq!(saturating_add_i64(5, -9), -4);
}
