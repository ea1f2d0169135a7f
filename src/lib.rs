//! Dispatch-and-track core of an email-sending client: message models,
//! request signing, token caching, submission results and operation polling.

pub mod codec;
pub mod credentials;
pub mod dispatch;
pub mod models;
pub mod signer;
pub mod tracker;
