//! Registration and sign-in rules of a small account service: confirmation
//! tokens with an expiry, keyed password hashing, the session identity and
//! the mapping of failures to HTTP replies.

pub mod clock;
pub mod confirmation;
pub mod errors;
pub mod hasher;
pub mod http;
pub mod mail;
pub mod models;
pub mod redemption;
pub mod session;
pub mod store;
pub mod token;
