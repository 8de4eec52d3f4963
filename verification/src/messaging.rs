//! The messaging layer: wraps a session's ciphertext into the wire message
//! and feeds received wire messages to the session.

use vstd::prelude::*;
use crate::clock::unix_now;
use crate::crypto::double_ratchet::RatchetView;
use crate::crypto::primitives::{public_key, random_nonce, sealable, sha256, sha256_digest, x25519_public};
use crate::crypto::session::{bytes_view, decrypted, encrypts_to, SecureSession, NONCE_LEN};
use crate::message::EncryptedMessage;

verus! {

/// The state in which a wire message that carries the ratchet key
/// `their_pub` is decrypted: after a ratchet step to that key where it is a
/// well-formed key other than the one stored, else the state as it is.
pub open spec fn caught_up(state: RatchetView, their_pub: Seq<u8>) -> RatchetView {
    if their_pub != state.dhr_public && their_pub.len() == 32 {
        state.ratcheted(their_pub)
    } else {
        state
    }
}

/// The state in which `caught_up(state, their_pub)` leaves a session that
/// went on to decrypt `ciphertext`.
pub open spec fn after_receipt(state: RatchetView, their_pub: Seq<u8>, ciphertext: Seq<u8>) -> RatchetView {
    if ciphertext.len() < NONCE_LEN {
        caught_up(state, their_pub)
    } else {
        caught_up(state, their_pub).received()
    }
}

/// Whether `msg` is a wire message that a session in state `state` may
/// produce at time `now` for `plaintext`.
pub open spec fn sends(state: RatchetView, plaintext: Seq<u8>, aad: Seq<u8>, now: i64, msg: EncryptedMessage) -> bool {
    &&& encrypts_to(state, plaintext, aad, msg.ciphertext@)
    &&& msg.dh_ratchet_pub@ == x25519_public(state.dhs_private)
    &&& msg.sender_blind@ == sha256(x25519_public(state.dhs_private))
    &&& msg.message_number == state.message_number + 1
    &&& msg.timestamp == now
    &&& msg.target_device_id@ == Seq::<char>::empty()
    &&& msg.ttl == 0
}

/// Copies a byte slice.
fn to_vec(bytes: &[u8]) -> (copy: Vec<u8>)
    ensures
        copy@ == bytes@,
{
    let mut copy: Vec<u8> = Vec::new();
    let mut i: usize = 0;
    while i < bytes.len()
        invariant
            i <= bytes@.len(),
            copy@ == bytes@.take(i as int),
        decreases bytes@.len() - i,
    {
        copy.push(bytes[i]);
        assert(bytes@.take(i as int + 1) =~= bytes@.take(i as int).push(bytes@[i as int]));
        i += 1;
    }
    assert(bytes@.take(bytes@.len() as int) =~= bytes@);
    copy
}

/// Reads a 32-byte key from a byte slice of that length.
fn key_from_slice(bytes: &[u8]) -> (key: Option<[u8; 32]>)
    ensures
        match key {
            Some(k) => bytes@.len() == 32 && k@ == bytes@,
            None => bytes@.len() != 32,
        },
{
    if bytes.len() != 32 {
        return None;
    }
    let mut key = [0u8; 32];
    let mut i: usize = 0;
    while i < 32
        invariant
            i <= 32,
            bytes@.len() == 32,
            forall|k: int| 0 <= k < i ==> key@[k] == bytes@[k],
        decreases 32 - i,
    {
        key[i] = bytes[i];
        i += 1;
    }
    assert(key@ =~= bytes@);
    Some(key)
}

/// Whether two byte strings are the same.
fn same_bytes(a: &[u8], b: &[u8]) -> (same: bool)
    ensures
        same == (a@ == b@),
{
    if a.len() != b.len() {
        return false;
    }
    let mut i: usize = 0;
    while i < a.len()
        invariant
            i <= a@.len(),
            a@.len() == b@.len(),
            forall|k: int| 0 <= k < i ==> a@[k] == b@[k],
        decreases a@.len() - i,
    {
        if a[i] != b[i] {
            return false;
        }
        i += 1;
    }
    assert(a@ =~= b@);
    true
}

/// One side of a conversation at the messaging layer.
pub struct Messenger {
    pub session: SecureSession,
}

impl Messenger {
    /// Encrypts `plaintext` with the given nonce and stamps the wire message
    /// with the time `now`, the sender's ratchet public key, the hash of that
    /// key in place of an identity, and the message counter.
    pub fn send_message_at(&mut self, plaintext: &[u8], aad: &[u8], nonce: &[u8; 12], now: i64) -> (msg: EncryptedMessage)
        requires
            old(self).session.ratchet.message_number < u32::MAX,
            sealable(plaintext@.len()),
        ensures
            final(self).session.ratchet@ == old(self).session.ratchet@.sent(),
            sends(old(self).session.ratchet@, plaintext@, aad@, now, msg),
            msg.ciphertext@.take(NONCE_LEN as int) == nonce@,
    {
        let ciphertext = self.session.encrypt_message_with_nonce(plaintext, aad, nonce);
        assert(ciphertext@.take(NONCE_LEN as int) =~= nonce@);
        let sender_pub = public_key(&self.session.ratchet.dhs_private);
        let sender_blind = to_vec(sha256_digest(sender_pub.as_slice()).as_slice());
        EncryptedMessage {
            ciphertext,
            sender_blind,
            dh_ratchet_pub: to_vec(sender_pub.as_slice()),
            message_number: self.session.ratchet.message_number,
            timestamp: now,
            target_device_id: String::new(),
            ttl: 0,
        }
    }

    /// Encrypts `plaintext` with a fresh random nonce and stamps the wire
    /// message with the current time.
    pub fn send_message(&mut self, plaintext: &[u8], aad: &[u8]) -> (msg: EncryptedMessage)
        requires
            old(self).session.ratchet.message_number < u32::MAX,
            sealable(plaintext@.len()),
        ensures
            final(self).session.ratchet@ == old(self).session.ratchet@.sent(),
            sends(old(self).session.ratchet@, plaintext@, aad@, msg.timestamp, msg),
    {
        let nonce = random_nonce();
        let now = unix_now();
        self.send_message_at(plaintext, aad, &nonce, now)
    }

    /// Decrypts a wire message. Where the message carries a well-formed
    /// ratchet key other than the stored one, the ratchet first steps to that
    /// key. A message that does not authenticate gives no plaintext.
    pub fn receive_message(&mut self, msg: &EncryptedMessage, aad: &[u8]) -> (plaintext: Option<Vec<u8>>)
        ensures
            bytes_view(plaintext) == decrypted(
                caught_up(old(self).session.ratchet@, msg.dh_ratchet_pub@),
                aad@,
                msg.ciphertext@,
            ),
            final(self).session.ratchet@ == after_receipt(
                old(self).session.ratchet@,
                msg.dh_ratchet_pub@,
                msg.ciphertext@,
            ),
    {
        if !same_bytes(msg.dh_ratchet_pub.as_slice(), self.session.ratchet.dhr_public.as_slice()) {
            match key_from_slice(msg.dh_ratchet_pub.as_slice()) {
                Some(new_pub) => {
                    self.session.ratchet.ratchet(new_pub);
                },
                None => {},
            }
        }
        self.session.decrypt_message(msg.ciphertext.as_slice(), aad)
    }
}

} // verus!
