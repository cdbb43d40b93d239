//! Session and bearer-token lifecycle for an HTTP service: issuing a signed
//! token bound to a server-side session, validating it on every protected
//! request, and revoking it on logout.
pub mod config;
pub mod error;
pub mod model;
pub mod protocol;
pub mod token;
pub mod session;
pub mod laws;
