//! The X3DH handshake: one shared secret from long-term, signed-prekey,
//! one-time-prekey and ephemeral key material.

use vstd::prelude::*;
use crate::crypto::primitives::{
    diffie_hellman, public_key, random_secret, sha256, sha256_digest, x25519_public, x25519_shared,
};

verus! {

/// A party's long-term identity key pair.
pub struct IdentityKeyPair {
    pub private: [u8; 32],
    pub public: [u8; 32],
}

/// A signed prekey pair.
pub struct SignedPreKeyPair {
    pub private: [u8; 32],
    pub public: [u8; 32],
}

/// A one-time prekey pair.
pub struct OneTimePreKeyPair {
    pub private: [u8; 32],
    pub public: [u8; 32],
}

/// The 32 zero bytes that stand in for the fourth Diffie-Hellman product when
/// the peer published no one-time prekey.
pub open spec fn filler() -> Seq<u8> {
    Seq::new(32, |i: int| 0u8)
}

/// The shared secret of a handshake: the digest of the four Diffie-Hellman
/// products, concatenated in their fixed order.
pub open spec fn x3dh_secret(
    identity_priv: Seq<u8>,
    ephemeral_priv: Seq<u8>,
    remote_identity_pub: Seq<u8>,
    remote_signed_prekey_pub: Seq<u8>,
    remote_onetime_prekey_pub: Option<Seq<u8>>,
) -> Seq<u8> {
    sha256(
        x25519_shared(ephemeral_priv, remote_signed_prekey_pub)
            + x25519_shared(identity_priv, remote_signed_prekey_pub)
            + x25519_shared(ephemeral_priv, remote_identity_pub)
            + match remote_onetime_prekey_pub {
                Some(otk) => x25519_shared(ephemeral_priv, otk),
                None => filler(),
            },
    )
}

/// The bytes of an optional key.
pub open spec fn key_view(key: Option<&[u8; 32]>) -> Option<Seq<u8>> {
    match key {
        Some(k) => Some(k@),
        None => None,
    }
}

/// A fresh X25519 key pair: a random secret key and the public key that
/// belongs to it.
pub fn generate_keypair() -> (pair: ([u8; 32], [u8; 32]))
    ensures
        pair.1@ == x25519_public(pair.0@),
{
    let private = random_secret();
    let public = public_key(&private);
    (private, public)
}

/// Appends the 32 bytes of `block` to `buffer`.
fn append_block(buffer: &mut Vec<u8>, block: &[u8; 32])
    ensures
        final(buffer)@ == old(buffer)@ + block@,
{
    let mut i: usize = 0;
    while i < 32
        invariant
            i <= 32,
            buffer@ == old(buffer)@ + block@.take(i as int),
        decreases 32 - i,
    {
        buffer.push(block[i]);
        assert(block@.take(i as int + 1) =~= block@.take(i as int).push(block@[i as int]));
        i += 1;
    }
    assert(block@.take(32) =~= block@);
}

/// Computes the shared secret of a handshake from the initiator's side.
///
/// The result depends on the five keys alone, so the same keys always give
/// the same secret.
pub fn x3dh_agree(
    alice_identity_priv: &[u8; 32],
    alice_ephemeral_priv: &[u8; 32],
    bob_identity_pub: &[u8; 32],
    bob_signed_prekey_pub: &[u8; 32],
    bob_onetime_prekey_pub: Option<&[u8; 32]>,
) -> (shared_secret: [u8; 32])
    ensures
        shared_secret@ == x3dh_secret(
            alice_identity_priv@,
            alice_ephemeral_priv@,
            bob_identity_pub@,
            bob_signed_prekey_pub@,
            key_view(bob_onetime_prekey_pub),
        ),
{
    let dh1 = diffie_hellman(alice_ephemeral_priv, bob_signed_prekey_pub);
    let dh2 = diffie_hellman(alice_identity_priv, bob_signed_prekey_pub);
    let dh3 = diffie_hellman(alice_ephemeral_priv, bob_identity_pub);
    let dh4 = match bob_onetime_prekey_pub {
        Some(otk) => diffie_hellman(alice_ephemeral_priv, otk),
        None => {
            let zeros = [0u8; 32];
            assert(zeros@ =~= filler());
            zeros
        },
    };
    let mut material: Vec<u8> = Vec::new();
    append_block(&mut material, &dh1);
    append_block(&mut material, &dh2);
    append_block(&mut material, &dh3);
    append_block(&mut material, &dh4);
    assert(material@ =~= dh1@ + dh2@ + dh3@ + dh4@);
    sha256_digest(material.as_slice())
}

} // verus!
