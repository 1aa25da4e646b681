//! A transport-agnostic broker for short-lived bearer tokens.
//!
//! The broker never performs network I/O itself. A caller asks a provider
//! for a token; the provider either returns a still-valid cached token or a
//! fully built HTTP request description. The caller executes that request
//! with whatever HTTP stack it likes and hands the response back to the
//! provider, which parses it into a token and updates the cache.

pub mod cache;
pub mod clock;
pub mod errors;
pub mod fingerprint;
pub mod impersonate;
pub mod laws;
pub mod token;
pub mod transport;
pub mod wire;

pub use cache::TokenCache;
pub use errors::AuthError;
pub use errors::Error;
pub use impersonate::ImpersonatedAccountInfo;
pub use impersonate::ImpersonatedAccountProvider;
pub use impersonate::TokenOrRequest;
pub use token::RequestReason;
pub use token::Token;
pub use token::TokenView;
pub use transport::HttpRequest;
pub use transport::HttpResponse;
