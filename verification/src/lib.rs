//! A response type for OAuth2 route handlers: a status code, a multimap of
//! headers and a body, built step by step and handed to the web framework
//! once it is complete.

pub mod error;
pub mod headers;
pub mod response;

pub use error::WebError;
pub use response::OAuthResponse;
