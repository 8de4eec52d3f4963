//! The Double Ratchet key schedule: a root key, one chain key per direction,
//! and a fresh message key for every message.

use vstd::prelude::*;
use vstd::string::StringSliceAdditionalSpecFns;
use crate::crypto::primitives::{diffie_hellman, hkdf_expand, hkdf_sha256, x25519_shared};

verus! {

/// The label under which a root key is derived.
pub open spec fn root_label() -> Seq<u8> {
    "root".spec_bytes()
}

/// The label under which a chain key is derived or advanced.
pub open spec fn chain_label() -> Seq<u8> {
    "chain".spec_bytes()
}

/// The label under which a message key is derived.
pub open spec fn message_label() -> Seq<u8> {
    "msg".spec_bytes()
}

/// The message key that a chain key gives.
pub open spec fn message_key(chain_key: Seq<u8>) -> Seq<u8> {
    hkdf_sha256(None, chain_key, message_label())
}

/// The chain key that follows a chain key.
pub open spec fn next_chain_key(chain_key: Seq<u8>) -> Seq<u8> {
    hkdf_sha256(None, chain_key, chain_label())
}

/// The state of one side of a Double Ratchet conversation.
pub struct RatchetState {
    pub root_key: [u8; 32],
    pub send_chain_key: [u8; 32],
    pub recv_chain_key: [u8; 32],
    /// This side's current ratchet secret key.
    pub dhs_private: [u8; 32],
    /// The peer's current ratchet public key.
    pub dhr_public: [u8; 32],
    /// Messages sent since the last ratchet step.
    pub message_number: u32,
}

/// A ratchet state as plain values.
pub struct RatchetView {
    pub root_key: Seq<u8>,
    pub send_chain_key: Seq<u8>,
    pub recv_chain_key: Seq<u8>,
    pub dhs_private: Seq<u8>,
    pub dhr_public: Seq<u8>,
    pub message_number: nat,
}

impl RatchetView {
    /// The state that a conversation starts in: root key and both chain keys
    /// come from the handshake's shared secret, and nothing was sent yet.
    pub open spec fn initial(shared_secret: Seq<u8>, dhs_private: Seq<u8>, dhr_public: Seq<u8>) -> RatchetView {
        RatchetView {
            root_key: hkdf_sha256(None, shared_secret, root_label()),
            send_chain_key: hkdf_sha256(None, shared_secret, chain_label()),
            recv_chain_key: hkdf_sha256(None, shared_secret, chain_label()),
            dhs_private,
            dhr_public,
            message_number: 0,
        }
    }

    /// The state after a ratchet step to the peer's new public key: the
    /// Diffie-Hellman product of the own secret key and the new key is mixed
    /// into the root key, which gives a new root key and a new receiving chain.
    pub open spec fn ratcheted(self, new_dhr_public: Seq<u8>) -> RatchetView {
        let dh_output = x25519_shared(self.dhs_private, new_dhr_public);
        RatchetView {
            root_key: hkdf_sha256(Some(self.root_key), dh_output, root_label()),
            recv_chain_key: hkdf_sha256(Some(self.root_key), dh_output, chain_label()),
            dhr_public: new_dhr_public,
            message_number: 0,
            ..self
        }
    }

    /// The state after one message key was drawn from the sending chain.
    pub open spec fn sent(self) -> RatchetView {
        RatchetView {
            send_chain_key: next_chain_key(self.send_chain_key),
            message_number: self.message_number + 1,
            ..self
        }
    }

    /// The state after one message key was drawn from the receiving chain.
    pub open spec fn received(self) -> RatchetView {
        RatchetView { recv_chain_key: next_chain_key(self.recv_chain_key), ..self }
    }
}

impl View for RatchetState {
    type V = RatchetView;

    open spec fn view(&self) -> RatchetView {
        RatchetView {
            root_key: self.root_key@,
            send_chain_key: self.send_chain_key@,
            recv_chain_key: self.recv_chain_key@,
            dhs_private: self.dhs_private@,
            dhr_public: self.dhr_public@,
            message_number: self.message_number as nat,
        }
    }
}

impl RatchetState {
    /// Starts a conversation from the handshake's shared secret, the own
    /// ratchet secret key and the peer's ratchet public key.
    pub fn new(shared_secret: [u8; 32], dhs_private: [u8; 32], dhr_public: [u8; 32]) -> (state: RatchetState)
        ensures
            state@ == RatchetView::initial(shared_secret@, dhs_private@, dhr_public@),
    {
        let root_key = hkdf_expand(None, shared_secret.as_slice(), "root".as_bytes());
        let chain_key = hkdf_expand(None, shared_secret.as_slice(), "chain".as_bytes());
        RatchetState {
            root_key,
            send_chain_key: chain_key,
            recv_chain_key: chain_key,
            dhs_private,
            dhr_public,
            message_number: 0,
        }
    }

    /// Performs one ratchet step to the peer's new public key. Afterwards the
    /// stored peer key is the new key and the message counter is back at zero.
    pub fn ratchet(&mut self, new_dhr_public: [u8; 32])
        ensures
            final(self)@ == old(self)@.ratcheted(new_dhr_public@),
            final(self).message_number == 0,
            final(self).dhr_public@ == new_dhr_public@,
    {
        let dh_output = diffie_hellman(&self.dhs_private, &new_dhr_public);
        let new_root = hkdf_expand(Some(self.root_key.as_slice()), dh_output.as_slice(), "root".as_bytes());
        let new_chain = hkdf_expand(Some(self.root_key.as_slice()), dh_output.as_slice(), "chain".as_bytes());
        self.root_key = new_root;
        self.recv_chain_key = new_chain;
        self.dhr_public = new_dhr_public;
        self.message_number = 0;
    }

    /// Draws the next message key from the sending chain, advances the chain
    /// and counts the message.
    pub fn next_send_message_key(&mut self) -> (msg_key: [u8; 32])
        requires
            old(self).message_number < u32::MAX,
        ensures
            msg_key@ == message_key(old(self)@.send_chain_key),
            final(self)@ == old(self)@.sent(),
    {
        let msg_key = hkdf_expand(None, self.send_chain_key.as_slice(), "msg".as_bytes());
        let advanced = hkdf_expand(None, self.send_chain_key.as_slice(), "chain".as_bytes());
        self.send_chain_key = advanced;
        self.message_number += 1;
        msg_key
    }

    /// Draws the next message key from the receiving chain and advances the
    /// chain.
    pub fn next_recv_message_key(&mut self) -> (msg_key: [u8; 32])
        ensures
            msg_key@ == message_key(old(self)@.recv_chain_key),
            final(self)@ == old(self)@.received(),
    {
        let msg_key = hkdf_expand(None, self.recv_chain_key.as_slice(), "msg".as_bytes());
        let advanced = hkdf_expand(None, self.recv_chain_key.as_slice(), "chain".as_bytes());
        self.recv_chain_key = advanced;
        msg_key
    }
}

} // verus!
