//! Verified core logic of a community fundraising portal with spending transparency.
#![allow(unused_imports)]

use vstd::prelude::*;

pub mod text;
pub mod enums;
pub mod types;
pub mod codec;
pub mod auth;
pub mod crypto;
pub mod moderation;
pub mod notify;
pub mod access;
pub mod ratelimit;
pub mod account;
pub mod donations;
pub mod fulfillment;
pub mod receipts;
pub mod webhooks;
pub mod queries;
pub mod events;
pub mod display;

verus! {

/// The state a server shares between requests: its database handle, the secret that signs
/// session tokens, the key that encrypts data at rest, and the rate limiter, each held in
/// whatever container the server needs (`D`, `R`).
pub struct AppState<D, R> {
    pub db: D,
    pub hmac_secret: Vec<u8>,
    pub encryption_key: [u8; 32],
    pub rate_limiter: R,
}

} // verus!
