//! A secure session: one ratchet per peer, and the AEAD that encrypts and
//! decrypts with the message keys the ratchet hands out.

use vstd::prelude::*;
use vstd::slice::slice_subrange;
use crate::crypto::double_ratchet::{message_key, RatchetState, RatchetView};
use crate::crypto::primitives::{
    aead_open, aead_seal, chacha20poly1305_open, chacha20poly1305_seal, random_nonce, random_secret,
    sealable,
};
use crate::crypto::x3dh::{key_view, x3dh_agree, x3dh_secret};

verus! {

/// The length of the nonce that precedes the AEAD output in a ciphertext.
pub const NONCE_LEN: usize = 12;

/// The length of the tag that ends the AEAD output.
pub const TAG_LEN: usize = 16;

/// The ciphertext that goes on the wire: the nonce, then the AEAD output.
pub open spec fn wire_ciphertext(key: Seq<u8>, nonce: Seq<u8>, aad: Seq<u8>, plaintext: Seq<u8>) -> Seq<u8> {
    nonce + chacha20poly1305_seal(key, nonce, aad, plaintext)
}

/// What a wire ciphertext opens to under `key`: nothing where it is too short
/// to hold a nonce, else what the AEAD gives for the bytes after the nonce.
pub open spec fn opened(key: Seq<u8>, aad: Seq<u8>, ciphertext: Seq<u8>) -> Option<Seq<u8>> {
    if ciphertext.len() < NONCE_LEN {
        None
    } else {
        chacha20poly1305_open(key, ciphertext.take(NONCE_LEN as int), aad, ciphertext.skip(NONCE_LEN as int))
    }
}

/// Whether `ciphertext` is what a session in state `state` may produce for
/// `plaintext`: a nonce, then the plaintext sealed under the next sending key,
/// which opens to the plaintext again under that key.
pub open spec fn encrypts_to(state: RatchetView, plaintext: Seq<u8>, aad: Seq<u8>, ciphertext: Seq<u8>) -> bool {
    let key = message_key(state.send_chain_key);
    &&& ciphertext.len() == NONCE_LEN + plaintext.len() + TAG_LEN
    &&& ciphertext == wire_ciphertext(key, ciphertext.take(NONCE_LEN as int), aad, plaintext)
    &&& opened(key, aad, ciphertext) == Some(plaintext)
}

/// What a session in state `state` decrypts `ciphertext` to: what it opens to
/// under the next receiving key.
pub open spec fn decrypted(state: RatchetView, aad: Seq<u8>, ciphertext: Seq<u8>) -> Option<Seq<u8>> {
    opened(message_key(state.recv_chain_key), aad, ciphertext)
}

/// The state in which the initiator of a handshake starts: the ratchet is
/// seeded with the handshake's shared secret, the ephemeral key is the own
/// ratchet key, and the responder's signed prekey is the peer's.
pub open spec fn initiator_start(
    identity_priv: Seq<u8>,
    ephemeral_priv: Seq<u8>,
    remote_identity_pub: Seq<u8>,
    remote_signed_prekey_pub: Seq<u8>,
    remote_onetime_prekey_pub: Option<Seq<u8>>,
) -> RatchetView {
    RatchetView::initial(
        x3dh_secret(
            identity_priv,
            ephemeral_priv,
            remote_identity_pub,
            remote_signed_prekey_pub,
            remote_onetime_prekey_pub,
        ),
        ephemeral_priv,
        remote_signed_prekey_pub,
    )
}

/// The bytes of an optional plaintext.
pub open spec fn bytes_view(bytes: Option<Vec<u8>>) -> Option<Seq<u8>> {
    match bytes {
        Some(b) => Some(b@),
        None => None,
    }
}

/// A session that encrypts, in a state whose two chains are in step, produces
/// a ciphertext that the same session then decrypts to the plaintext it was
/// given, with the same associated data.
pub proof fn lemma_decrypt_inverts_encrypt(state: RatchetView, plaintext: Seq<u8>, aad: Seq<u8>, ciphertext: Seq<u8>)
    requires
        state.send_chain_key == state.recv_chain_key,
        encrypts_to(state, plaintext, aad, ciphertext),
    ensures
        decrypted(state.sent(), aad, ciphertext) == Some(plaintext),
{
}

/// A fresh session has its two chains in step, and a session whose chains
/// are in step has them in step again once it has encrypted one message and
/// decrypted one.
pub proof fn lemma_chains_in_step(shared_secret: Seq<u8>, dhs_private: Seq<u8>, dhr_public: Seq<u8>, state: RatchetView)
    ensures
        RatchetView::initial(shared_secret, dhs_private, dhr_public).send_chain_key == RatchetView::initial(
            shared_secret,
            dhs_private,
            dhr_public,
        ).recv_chain_key,
        state.send_chain_key == state.recv_chain_key ==> state.sent().received().send_chain_key
            == state.sent().received().recv_chain_key,
{
}

/// A session whose receiving chain is where the sender's sending chain was
/// decrypts what the sender produced to the sender's plaintext.
pub proof fn lemma_peer_decrypts(sender: RatchetView, receiver: RatchetView, plaintext: Seq<u8>, aad: Seq<u8>, ciphertext: Seq<u8>)
    requires
        receiver.recv_chain_key == sender.send_chain_key,
        encrypts_to(sender, plaintext, aad, ciphertext),
    ensures
        decrypted(receiver, aad, ciphertext) == Some(plaintext),
{
}

/// A secure session with one peer.
pub struct SecureSession {
    pub ratchet: RatchetState,
}

impl SecureSession {
    /// Starts a session as the initiator, with the given ephemeral key.
    pub fn initiate_as_alice_with(
        alice_identity_priv: &[u8; 32],
        alice_ephemeral_priv: [u8; 32],
        bob_identity_pub: &[u8; 32],
        bob_signed_prekey_pub: &[u8; 32],
        bob_onetime_prekey_pub: Option<&[u8; 32]>,
    ) -> (session: SecureSession)
        ensures
            session.ratchet@ == initiator_start(
                alice_identity_priv@,
                alice_ephemeral_priv@,
                bob_identity_pub@,
                bob_signed_prekey_pub@,
                key_view(bob_onetime_prekey_pub),
            ),
    {
        let shared_secret = x3dh_agree(
            alice_identity_priv,
            &alice_ephemeral_priv,
            bob_identity_pub,
            bob_signed_prekey_pub,
            bob_onetime_prekey_pub,
        );
        let ratchet = RatchetState::new(shared_secret, alice_ephemeral_priv, *bob_signed_prekey_pub);
        SecureSession { ratchet }
    }

    /// Starts a session as the initiator, with a fresh random ephemeral key,
    /// which the session keeps as its ratchet secret key.
    pub fn initiate_as_alice(
        alice_identity_priv: &[u8; 32],
        bob_identity_pub: &[u8; 32],
        bob_signed_prekey_pub: &[u8; 32],
        bob_onetime_prekey_pub: Option<&[u8; 32]>,
    ) -> (session: SecureSession)
        ensures
            session.ratchet@ == initiator_start(
                alice_identity_priv@,
                session.ratchet@.dhs_private,
                bob_identity_pub@,
                bob_signed_prekey_pub@,
                key_view(bob_onetime_prekey_pub),
            ),
    {
        let alice_ephemeral = random_secret();
        SecureSession::initiate_as_alice_with(
            alice_identity_priv,
            alice_ephemeral,
            bob_identity_pub,
            bob_signed_prekey_pub,
            bob_onetime_prekey_pub,
        )
    }

    /// Starts a session as the responder, from the shared secret and the
    /// initiator's ephemeral public key.
    pub fn initiate_as_bob(shared_secret: [u8; 32], bob_ephemeral_priv: [u8; 32], alice_ephemeral_pub: [u8; 32]) -> (session: SecureSession)
        ensures
            session.ratchet@ == RatchetView::initial(shared_secret@, bob_ephemeral_priv@, alice_ephemeral_pub@),
    {
        let ratchet = RatchetState::new(shared_secret, bob_ephemeral_priv, alice_ephemeral_pub);
        SecureSession { ratchet }
    }

    /// Encrypts `plaintext` under the next sending key and the given nonce,
    /// with `associated_data` bound in. The nonce must not be used twice.
    pub fn encrypt_message_with_nonce(&mut self, plaintext: &[u8], associated_data: &[u8], nonce: &[u8; 12]) -> (ciphertext: Vec<u8>)
        requires
            old(self).ratchet.message_number < u32::MAX,
            sealable(plaintext@.len()),
        ensures
            final(self).ratchet@ == old(self).ratchet@.sent(),
            ciphertext@ == wire_ciphertext(
                message_key(old(self).ratchet@.send_chain_key),
                nonce@,
                associated_data@,
                plaintext@,
            ),
            encrypts_to(old(self).ratchet@, plaintext@, associated_data@, ciphertext@),
    {
        let msg_key = self.ratchet.next_send_message_key();
        let mut result: Vec<u8> = Vec::new();
        let mut i: usize = 0;
        while i < 12
            invariant
                i <= 12,
                result@ == nonce@.take(i as int),
            decreases 12 - i,
        {
            result.push(nonce[i]);
            assert(nonce@.take(i as int + 1) =~= nonce@.take(i as int).push(nonce@[i as int]));
            i += 1;
        }
        assert(nonce@.take(12) =~= nonce@);
        match aead_seal(&msg_key, nonce, associated_data, plaintext) {
            Some(mut sealed) => {
                let ghost body = sealed@;
                result.append(&mut sealed);
                assert(result@.take(NONCE_LEN as int) =~= nonce@);
                assert(result@.skip(NONCE_LEN as int) =~= body);
            },
            // Not reached: the cipher accepts every plaintext of an accepted
            // length.
            None => {},
        }
        result
    }

    /// Encrypts `plaintext` under the next sending key and a fresh random
    /// nonce, which is the first twelve bytes of the result.
    pub fn encrypt_message(&mut self, plaintext: &[u8], associated_data: &[u8]) -> (ciphertext: Vec<u8>)
        requires
            old(self).ratchet.message_number < u32::MAX,
            sealable(plaintext@.len()),
        ensures
            final(self).ratchet@ == old(self).ratchet@.sent(),
            encrypts_to(old(self).ratchet@, plaintext@, associated_data@, ciphertext@),
    {
        let nonce = random_nonce();
        self.encrypt_message_with_nonce(plaintext, associated_data, &nonce)
    }

    /// Decrypts `ciphertext` under the next receiving key. A ciphertext too
    /// short to hold a nonce is refused and draws no key; any other draws the
    /// key, and is refused where the AEAD does not authenticate it.
    pub fn decrypt_message(&mut self, ciphertext: &[u8], associated_data: &[u8]) -> (plaintext: Option<Vec<u8>>)
        ensures
            bytes_view(plaintext) == decrypted(old(self).ratchet@, associated_data@, ciphertext@),
            ciphertext@.len() < NONCE_LEN ==> final(self).ratchet@ == old(self).ratchet@,
            ciphertext@.len() >= NONCE_LEN ==> final(self).ratchet@ == old(self).ratchet@.received(),
    {
        if ciphertext.len() < 12 {
            return None;
        }
        let msg_key = self.ratchet.next_recv_message_key();
        let mut nonce = [0u8; 12];
        let mut i: usize = 0;
        while i < 12
            invariant
                i <= 12,
                ciphertext@.len() >= 12,
                forall|k: int| 0 <= k < i ==> nonce@[k] == ciphertext@[k],
            decreases 12 - i,
        {
            nonce[i] = ciphertext[i];
            i += 1;
        }
        assert(nonce@ =~= ciphertext@.take(NONCE_LEN as int));
        let body = slice_subrange(ciphertext, 12, ciphertext.len());
        assert(body@ =~= ciphertext@.skip(NONCE_LEN as int));
        aead_open(&msg_key, &nonce, associated_data, body)
    }
}

} // verus!
