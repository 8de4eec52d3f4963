//! The wire value that sessions produce and the relay holds.

use vstd::prelude::*;

verus! {

/// One encrypted message as it travels between clients and relays.
///
/// The relay never looks inside `ciphertext`; it reads `timestamp` and `ttl`
/// to decide when the message may be discarded, and `target_device_id` to find
/// the queue it belongs to.
#[derive(Clone, Debug, PartialEq, Eq)]
pub struct EncryptedMessage {
    /// Nonce followed by the AEAD output.
    pub ciphertext: Vec<u8>,
    /// Hash of the sender's ratchet public key, sent in place of an identity.
    pub sender_blind: Vec<u8>,
    /// The sender's current ratchet public key.
    pub dh_ratchet_pub: Vec<u8>,
    /// The sender's message counter after this message.
    pub message_number: u32,
    /// Seconds since the epoch at which the message was produced.
    pub timestamp: i64,
    /// The identifier of the queue the message is bound for.
    pub target_device_id: String,
    /// Lifetime in seconds; zero means that the message never expires.
    pub ttl: i64,
}

impl EncryptedMessage {
    /// The instant at which the message's lifetime ends.
    pub open spec fn expiry(&self) -> int {
        self.timestamp + self.ttl
    }

    /// Whether the message may be discarded at time `now`: it has a lifetime
    /// (a `ttl` other than zero) and that lifetime has ended.
    pub open spec fn expired_at(&self, now: int) -> bool {
        self.ttl != 0 && self.expiry() <= now
    }

    /// Decides `expired_at` without overflow, whatever the three numbers are.
    pub fn is_expired(&self, now: i64) -> (expired: bool)
        ensures
            expired == self.expired_at(now as int),
    {
        if self.ttl == 0 {
            return false;
        }
        match self.timestamp.checked_add(self.ttl) {
            Some(end) => end <= now,
            // The sum left the range of i64: it lies beyond every `now` on the
            // side of the summands' common sign.
            None => self.timestamp < 0,
        }
    }
}

} // verus!
