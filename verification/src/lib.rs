pub mod auth;
pub mod cache;
pub mod config;
pub mod service;
pub mod session;
pub mod time;

pub use config::AuthConfig;
pub use config::DEFAULT_MAX_AGE_SECONDS;
pub use config::NO_IDENTITY;

pub use auth::Auth;
pub use cache::AuthCache;
pub use cache::AuthUser;
pub use auth::HasPermission;
pub use auth::Method;
pub use auth::Rights;
pub use service::AuthError;
pub use service::ResolveStep;
pub use session::AuthSession;
pub use session::AuthStatus;
pub use session::Authentication;
