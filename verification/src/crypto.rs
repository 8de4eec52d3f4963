//! Session cryptography: the handshake, the ratchet and the session that
//! encrypts and decrypts with the keys the ratchet hands out.

pub mod double_ratchet;
pub mod primitives;
pub mod session;
pub mod x3dh;
