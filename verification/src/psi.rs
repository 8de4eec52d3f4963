//! Private set intersection: blinding an element and evaluating a blinded
//! element under the server's key.

use vstd::prelude::*;
use crate::crypto::primitives::{diffie_hellman, public_key, random_secret, x25519_public, x25519_shared};

verus! {

/// A group element as it travels in a request or an answer.
#[derive(Clone, Copy, Debug, PartialEq, Eq)]
pub struct BlindedElementPayload {
    pub element: [u8; 32],
}

/// A fresh random key for the server.
pub fn generate_server_oprf_key() -> (key: [u8; 32]) {
    random_secret()
}

/// Blinds an input: a fresh random secret and the element that belongs to it.
/// The element does not depend on the input.
pub fn blind(_input: &[u8]) -> (blinded: ([u8; 32], [u8; 32]))
    ensures
        blinded.1@ == x25519_public(blinded.0@),
{
    let client_secret = random_secret();
    let client_public = public_key(&client_secret);
    (client_secret, client_public)
}

/// Evaluates a blinded element under the server's key.
pub fn evaluate(server_secret: &[u8; 32], blinded_element: &[u8; 32]) -> (evaluated: [u8; 32])
    ensures
        evaluated@ == x25519_shared(server_secret@, blinded_element@),
{
    diffie_hellman(server_secret, blinded_element)
}

/// Applies the client's secret to an evaluated element.
pub fn unblind(client_secret: &[u8; 32], evaluated_element: &[u8; 32]) -> (unblinded: [u8; 32])
    ensures
        unblinded@ == x25519_shared(client_secret@, evaluated_element@),
{
    diffie_hellman(client_secret, evaluated_element)
}

/// Answers a request to blind an element with a freshly blinded element: the
/// element that belongs to some secret, which is not kept.
pub fn blind_element(payload: BlindedElementPayload) -> (answer: BlindedElementPayload)
    ensures
        exists|secret: Seq<u8>| answer.element@ == #[trigger] x25519_public(secret),
{
    let (_client_secret, blinded_element) = blind(payload.element.as_slice());
    BlindedElementPayload { element: blinded_element }
}

/// Answers a request to evaluate an element under the server's key.
pub fn evaluate_element(oprf_key: &[u8; 32], payload: BlindedElementPayload) -> (answer: BlindedElementPayload)
    ensures
        answer.element@ == x25519_shared(oprf_key@, payload.element@),
{
    BlindedElementPayload { element: evaluate(oprf_key, &payload.element) }
}

} // verus!
