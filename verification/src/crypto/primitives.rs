//! The cryptographic primitives that the session engine is built on.
//!
//! Each primitive is computed by an outside crate. Its result is given a name
//! here, a function of the inputs with no definition, and the contracts of the
//! engine are stated over those names. Nothing in this file is proved: what
//! each function claims of the outside code is said above it.

use vstd::prelude::*;
use chacha20poly1305::aead::{Aead, AeadCore, KeyInit, Payload};
use chacha20poly1305::{ChaCha20Poly1305, Key, Nonce};
use hkdf::Hkdf;
use rand_core::OsRng;
use sha2::{Digest, Sha256};
use x25519_dalek::{PublicKey, StaticSecret};

verus! {

/// The X25519 shared secret of a secret key and a peer's public key.
pub uninterp spec fn x25519_shared(secret: Seq<u8>, public: Seq<u8>) -> Seq<u8>;

/// The X25519 public key that belongs to a secret key.
pub uninterp spec fn x25519_public(secret: Seq<u8>) -> Seq<u8>;

/// The SHA-256 digest of a byte string.
pub uninterp spec fn sha256(data: Seq<u8>) -> Seq<u8>;

/// The first 32 bytes of HKDF-SHA256 output for a salt (or none), input key
/// material and an info label.
pub uninterp spec fn hkdf_sha256(salt: Option<Seq<u8>>, ikm: Seq<u8>, info: Seq<u8>) -> Seq<u8>;

/// The ChaCha20-Poly1305 encryption of `msg` under `key` and `nonce` with
/// `aad` bound in: the ciphertext followed by the 16-byte tag.
pub uninterp spec fn chacha20poly1305_seal(key: Seq<u8>, nonce: Seq<u8>, aad: Seq<u8>, msg: Seq<u8>) -> Seq<u8>;

/// The ChaCha20-Poly1305 decryption of `sealed` under `key` and `nonce` with
/// `aad` bound in; `None` where the tag does not verify.
pub uninterp spec fn chacha20poly1305_open(key: Seq<u8>, nonce: Seq<u8>, aad: Seq<u8>, sealed: Seq<u8>) -> Option<Seq<u8>>;

/// The number of whole 64-byte blocks from which on the cipher refuses a
/// plaintext.
pub const MAX_BLOCKS: usize = 0xffff_ffff;

/// Whether the cipher accepts a plaintext of `len` bytes.
pub open spec fn sealable(len: nat) -> bool {
    len / 64 < MAX_BLOCKS
}

/// Calls `x25519_dalek::StaticSecret::diffie_hellman` on the two keys, loaded
/// from their bytes. Claimed: the result is a function of the two keys alone.
#[verifier::external_body]
pub(crate) fn diffie_hellman(secret: &[u8; 32], public: &[u8; 32]) -> (shared: [u8; 32])
    ensures
        shared@ == x25519_shared(secret@, public@),
{
    StaticSecret::from(*secret).diffie_hellman(&PublicKey::from(*public)).to_bytes()
}

/// Calls `x25519_dalek::PublicKey::from` on the secret key, loaded from its
/// bytes. Claimed: the result is a function of the secret key alone.
#[verifier::external_body]
pub(crate) fn public_key(secret: &[u8; 32]) -> (public: [u8; 32])
    ensures
        public@ == x25519_public(secret@),
{
    PublicKey::from(&StaticSecret::from(*secret)).to_bytes()
}

/// Calls `x25519_dalek::StaticSecret::random_from_rng` with the operating
/// system's generator, which panics where the system has no randomness to
/// give. Nothing is claimed of the bytes.
#[verifier::external_body]
pub(crate) fn random_secret() -> (secret: [u8; 32]) {
    StaticSecret::random_from_rng(OsRng).to_bytes()
}

/// Calls `ChaCha20Poly1305::generate_nonce` with the operating system's
/// generator, which panics where the system has no randomness to give.
/// Nothing is claimed of the bytes.
#[verifier::external_body]
pub(crate) fn random_nonce() -> (nonce: [u8; 12]) {
    ChaCha20Poly1305::generate_nonce(&mut OsRng).into()
}

/// Calls `sha2::Sha256::digest`. Claimed: the result is a function of the
/// data alone.
#[verifier::external_body]
pub(crate) fn sha256_digest(data: &[u8]) -> (digest: [u8; 32])
    ensures
        digest@ == sha256(data@),
{
    Sha256::digest(data).into()
}

/// Calls `hkdf::Hkdf::<Sha256>::new` and then `expand` for 32 bytes of
/// output, a length that `expand` never refuses. Claimed: the result is a
/// function of salt, input key material and info alone.
#[verifier::external_body]
pub(crate) fn hkdf_expand(salt: Option<&[u8]>, ikm: &[u8], info: &[u8]) -> (okm: [u8; 32])
    ensures
        okm@ == hkdf_sha256(
            match salt {
                Some(s) => Some(s@),
                None => None,
            },
            ikm@,
            info@,
        ),
{
    let mut okm = [0u8; 32];
    Hkdf::<Sha256>::new(salt, ikm).expand(info, &mut okm).unwrap();
    okm
}

/// Calls `ChaCha20Poly1305::encrypt`. Claimed: it succeeds exactly on the
/// plaintexts shorter than the cipher's block limit; the result is a function
/// of key, nonce, associated data and plaintext alone, 16 bytes longer than
/// the plaintext; and decryption under the same key, nonce and associated data
/// gives the plaintext back.
#[verifier::external_body]
pub(crate) fn aead_seal(key: &[u8; 32], nonce: &[u8; 12], aad: &[u8], msg: &[u8]) -> (sealed: Option<Vec<u8>>)
    ensures
        sealed.is_some() <==> sealable(msg@.len()),
        sealed matches Some(bytes) ==> {
            &&& bytes@ == chacha20poly1305_seal(key@, nonce@, aad@, msg@)
            &&& bytes@.len() == msg@.len() + 16
            &&& chacha20poly1305_open(key@, nonce@, aad@, bytes@) == Some(msg@)
        },
{
    let cipher = ChaCha20Poly1305::new(Key::from_slice(key));
    cipher.encrypt(Nonce::from_slice(nonce), Payload { msg, aad }).ok()
}

/// Calls `ChaCha20Poly1305::decrypt`. Claimed: whether it succeeds, and the
/// plaintext where it does, is a function of key, nonce, associated data and
/// sealed bytes alone.
#[verifier::external_body]
pub(crate) fn aead_open(key: &[u8; 32], nonce: &[u8; 12], aad: &[u8], sealed: &[u8]) -> (opened: Option<Vec<u8>>)
    ensures
        match opened {
            Some(bytes) => chacha20poly1305_open(key@, nonce@, aad@, sealed@) == Some(bytes@),
            None => chacha20poly1305_open(key@, nonce@, aad@, sealed@).is_none(),
        },
{
    let cipher = ChaCha20Poly1305::new(Key::from_slice(key));
    cipher.decrypt(Nonce::from_slice(nonce), Payload { msg: sealed, aad }).ok()
}

} // verus!
