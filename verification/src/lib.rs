//! Stateless sessions carried in signed tokens.
//!
//! A login mints a token that names the user and the time window in which it
//! holds, signs it with the server's key and hands it to the client. Each
//! later request brings the token back; the middleware checks the signature
//! and the window, and attaches the user to the request. Nothing is stored on
//! the server.

pub mod base64url;
pub mod claims;
pub mod error;
pub mod mac;
pub mod payload;
pub mod codec;
pub mod laws;
pub mod transport;
pub mod context;
pub mod middleware;
pub mod clock;
pub mod session;

pub use crate::claims::{ClaimSet, ClaimValue};
pub use crate::context::{RequestContext, RequestSession, ResponseContext};
pub use crate::error::TokenError;
pub use crate::middleware::{RequestState, SessionMiddleware};
pub use crate::session::{SessionRequestExtensions, SessionResponseExtensions};
pub use crate::transport::{SetCookie, TokenLocation};
