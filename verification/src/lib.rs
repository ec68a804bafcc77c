//! Delivery of certificate revocation lists over HTTP: the cache entry model,
//! the expiry policy derived from a list's own validity window, conditional
//! delivery, and the guards that admit a request.

pub mod admission;
pub mod cache;
pub mod clock;
pub mod codec;
pub mod config;
pub mod delivery;
pub mod entry;
pub mod expiry;
pub mod failure;
pub mod headers;
pub mod text;
