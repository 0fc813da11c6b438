use vstd::prelude::*;

verus! {

/// The principal id that stands for "no identity": requests resolved to it
/// are served anonymously and never touch the cache.
pub const NO_IDENTITY: i64 = 0;

/// How many seconds a cached principal lives without a visit, by default:
/// six hours.
pub const DEFAULT_MAX_AGE_SECONDS: i64 = 21600;

/// Configuration of the identity layer: set once at startup, immutable
/// afterwards, shared read-only across requests.
#[derive(Debug)]
pub struct AuthConfig {
    /// Whether resolved principals are cached between requests.  When a
    /// cached principal's backing data changes, the caller must invalidate it
    /// so the next request reloads it.
    pub cache: bool,
    /// Id signed in automatically when a request carries no identity.  The
    /// sentinel `NO_IDENTITY` must not be used here: it stands for the
    /// anonymous, principal-less request.
    pub anonymous_user_id: Option<i64>,
    /// Key under which the session stores the principal id.
    pub session_id: String,
    /// Seconds a cache entry lives past its last visit.
    pub max_age: i64,
}

impl AuthConfig {
    /// Validity: the expiry window is a non-negative number of seconds.  The
    /// resolution pipeline relies on it to keep the sweep schedule moving
    /// forward.
    pub open spec fn wf(&self) -> bool {
        0 <= self.max_age
    }

    /// The starting configuration: caching on, no automatic sign-in, the
    /// conventional session key, and the default expiry window.
    pub fn new() -> (r: AuthConfig)
        ensures
            r.cache == true,
            r.anonymous_user_id is None,
            r.session_id@ == "user_auth_session_id"@,
            r.max_age == DEFAULT_MAX_AGE_SECONDS,
    {
        AuthConfig {
            cache: true,
            anonymous_user_id: None,
            session_id: "user_auth_session_id".to_owned(),
            max_age: DEFAULT_MAX_AGE_SECONDS,
        }
    }

    /// The same configuration with caching switched to `cache`.
    #[must_use]
    pub fn set_cache(self, cache: bool) -> (r: Self)
        ensures
            r.cache == cache,
            r.anonymous_user_id == self.anonymous_user_id,
            r.session_id == self.session_id,
            r.max_age == self.max_age,
    {
        AuthConfig {
            cache,
            anonymous_user_id: self.anonymous_user_id,
            session_id: self.session_id,
            max_age: self.max_age,
        }
    }

    /// The same configuration with the automatic sign-in id replaced by `id`.
    #[must_use]
    pub fn with_anonymous_user_id(self, id: Option<i64>) -> (r: Self)
        ensures
            r.cache == self.cache,
            r.anonymous_user_id == id,
            r.session_id == self.session_id,
            r.max_age == self.max_age,
    {
        AuthConfig {
            cache: self.cache,
            anonymous_user_id: id,
            session_id: self.session_id,
            max_age: self.max_age,
        }
    }

    /// The same configuration with the expiry window replaced by `time`
    /// seconds; a window cannot be negative.
    #[must_use]
    pub fn with_max_age(self, time: i64) -> (r: Self)
        requires
            0 <= time,
        ensures
            r.cache == self.cache,
            r.anonymous_user_id == self.anonymous_user_id,
            r.session_id == self.session_id,
            r.max_age == time,
    {
        AuthConfig {
            cache: self.cache,
            anonymous_user_id: self.anonymous_user_id,
            session_id: self.session_id,
            max_age: time,
        }
    }

    /// The same configuration with the session key replaced by `session_id`.
    #[must_use]
    pub fn with_session_id(self, session_id: String) -> (r: Self)
        ensures
            r.cache == self.cache,
            r.anonymous_user_id == self.anonymous_user_id,
            r.session_id == session_id,
            r.max_age == self.max_age,
    {
        AuthConfig {
            cache: self.cache,
            anonymous_user_id: self.anonymous_user_id,
            session_id,
            max_age: self.max_age,
        }
    }

    /// An equal copy, so that a per-request context can carry the shared
    /// configuration by value.
    pub fn duplicate(&self) -> (r: Self)
        ensures
            r.cache == self.cache,
            r.anonymous_user_id == self.anonymous_user_id,
            r.session_id@ == self.session_id@,
            r.max_age == self.max_age,
    {
        AuthConfig {
            cache: self.cache,
            anonymous_user_id: self.anonymous_user_id,
            session_id: self.session_id.clone(),
            max_age: self.max_age,
        }
    }
}

impl Default for AuthConfig {
    /// Same as `AuthConfig::new`.
    fn default() -> (r: AuthConfig)
        ensures
            r.cache == true,
            r.anonymous_user_id is None,
            r.session_id@ == "user_auth_session_id"@,
            r.max_age == DEFAULT_MAX_AGE_SECONDS,
    {
        AuthConfig::new()
    }
}

} // verus!
