//! An ACME (RFC 8555) client core: the nonce-protected request engine, the
//! account/order workflow driven as a state machine, and the decisions of the
//! DNS-01 and HTTP-01 challenge responders, together with a few small helpers
//! of the surrounding tool suite (login tickets, schema primitives, netmasks,
//! certificate fingerprints, APT suite names).

pub mod account;
pub mod b64u;
pub mod client;
pub mod config;
pub mod directory;
pub mod error;
pub mod fingerprint;
pub mod json;
pub mod netmask;
pub mod nonce;
pub mod order;
pub mod payload;
pub mod plugin;
pub mod response;
pub mod retry;
pub mod schema;
pub mod standalone;
pub mod suite;
pub mod text;
pub mod ticket;
