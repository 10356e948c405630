//! Signed-message trust pipeline of a federation relay: key material,
//! content digests, the trust wrapper for fetched objects, and the
//! Follow to Accept handshake.

pub mod activity;
pub mod actor;
pub mod config;
pub mod error;
pub mod handshake;
pub mod hasher;
pub mod identity;
pub mod keys;
pub mod message;
pub mod trust;
