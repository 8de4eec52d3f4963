//! End-to-end encrypted messaging relay: session cryptography, a
//! store-and-forward queue for undelivered ciphertext, and the router that
//! picks a transport for each outgoing message.

pub mod api;
pub mod auth;
pub mod batch;
pub mod clock;
pub mod config;
pub mod crypto;
pub mod device;
pub mod federation;
pub mod group;
pub mod ids;
pub mod message;
pub mod messaging;
pub mod psi;
pub mod relay;
pub mod router;
pub mod routes;
pub mod search;
pub mod sfu_api;
pub mod signaling;
pub mod text;
