use connexa_server::batch::{BatchEvent, MessageBatch};
use connexa_server::federation::{
    federation_endpoint, federation_message, find_server, register_server, FederationState, Server,
};
use connexa_server::message::EncryptedMessage;
use connexa_server::relay::{store_message_for_recipient, MessageStore, RelayError};

fn message(body: &[u8], to: &str, timestamp: i64, ttl: i64) -> EncryptedMessage {
    EncryptedMessage {
        ciphertext: body.to_vec(),
        sender_blind: Vec::new(),
        dh_ratchet_pub: Vec::new(),
        message_number: 0,
        timestamp,
        target_device_id: to.to_string(),
        ttl,
    }
}

#[test]
fn fetch_returns_stored_messages_in_order_once() {
    let mut store = MessageStore::new();
    assert_eq!(store.store_message("bob", message(b"1", "bob", 0, 0), true), Ok(()));
    assert_eq!(store.store_message("carol", message(b"x", "carol", 0, 0), true), Ok(()));
    assert_eq!(store.store_message("bob", message(b"2", "bob", 0, 0), true), Ok(()));
    assert_eq!(store.store_message("bob", message(b"3", "bob", 0, 0), true), Ok(()));
    let got = store.fetch_messages("bob", true).unwrap();
    assert_eq!(got, vec![message(b"1", "bob", 0, 0), message(b"2", "bob", 0, 0), message(b"3", "bob", 0, 0)]);
    assert_eq!(store.fetch_messages("bob", true), Ok(Vec::new()));
    assert_eq!(store.fetch_messages("carol", true), Ok(vec![message(b"x", "carol", 0, 0)]));
}

#[test]
fn fetch_for_unknown_recipient_is_empty() {
    let mut store = MessageStore::new();
    assert_eq!(store.fetch_messages("nobody", true), Ok(Vec::new()));
}

#[test]
fn unauthenticated_store_fails_and_changes_nothing() {
    let mut store = MessageStore::new();
    assert_eq!(
        store.store_message("bob", message(b"1", "bob", 0, 0), false),
        Err(RelayError::Unauthenticated)
    );
    assert_eq!(store.fetch_messages("bob", true), Ok(Vec::new()));
}

#[test]
fn unauthenticated_fetch_fails_and_changes_nothing() {
    let mut store = MessageStore::new();
    store.store_message("bob", message(b"1", "bob", 0, 0), true).unwrap();
    assert_eq!(store.fetch_messages("bob", false), Err(RelayError::Unauthenticated));
    assert_eq!(store.fetch_messages("bob", true), Ok(vec![message(b"1", "bob", 0, 0)]));
}

#[test]
fn store_for_recipient_reports_whether_to_notify() {
    let mut store = MessageStore::new();
    assert_eq!(store_message_for_recipient(&mut store, "bob", message(b"1", "bob", 0, 0), true), Ok(()));
    assert_eq!(
        store_message_for_recipient(&mut store, "bob", message(b"2", "bob", 0, 0), false),
        Err(RelayError::Unauthenticated)
    );
    assert_eq!(store.fetch_messages("bob", true), Ok(vec![message(b"1", "bob", 0, 0)]));
}

#[test]
fn cleanup_drops_expired_and_keeps_valid() {
    let mut store = MessageStore::new();
    store.store_message("bob", message(b"old", "bob", 100, 50), true).unwrap();
    store.store_message("bob", message(b"forever", "bob", 100, 0), true).unwrap();
    store.store_message("bob", message(b"fresh", "bob", 100, 500), true).unwrap();
    store.store_message("bob", message(b"edge", "bob", 100, 100), true).unwrap();
    store.store_message("carol", message(b"gone", "carol", 0, 1), true).unwrap();
    store.cleanup_expired_at(200);
    assert_eq!(
        store.fetch_messages("bob", true),
        Ok(vec![message(b"forever", "bob", 100, 0), message(b"fresh", "bob", 100, 500)])
    );
    assert_eq!(store.fetch_messages("carol", true), Ok(Vec::new()));
}

#[test]
fn cleanup_keeps_a_message_until_its_lifetime_ends() {
    let mut store = MessageStore::new();
    store.store_message("bob", message(b"m", "bob", 100, 100), true).unwrap();
    store.cleanup_expired_at(199);
    store.cleanup_expired_at(i64::MIN);
    assert_eq!(store.fetch_messages("bob", true), Ok(vec![message(b"m", "bob", 100, 100)]));
}

#[test]
fn expiry_does_not_overflow() {
    assert!(!message(b"", "", i64::MAX, 1).is_expired(i64::MAX));
    assert!(message(b"", "", i64::MIN, -1).is_expired(i64::MIN));
    assert!(message(b"", "", 10, -20).is_expired(0));
    assert!(!message(b"", "", 10, -20).is_expired(-11));
    assert!(message(b"", "", 10, -20).is_expired(-10));
    assert!(!message(b"", "", i64::MIN, 0).is_expired(i64::MAX));
}

#[test]
fn cleanup_reads_the_clock() {
    let mut store = MessageStore::new();
    store.store_message("bob", message(b"past", "bob", 0, 1), true).unwrap();
    store.store_message("bob", message(b"future", "bob", i64::MAX / 2, 1), true).unwrap();
    store.cleanup_expired();
    assert_eq!(store.fetch_messages("bob", true), Ok(vec![message(b"future", "bob", i64::MAX / 2, 1)]));
}

#[test]
fn relay_error_reasons() {
    assert_eq!(RelayError::RecipientNotFound.message(), "Recipient not found");
    assert_eq!(RelayError::InternalError.message(), "Internal error");
    assert_eq!(RelayError::Unauthenticated.message(), "Unauthenticated");
}

#[test]
fn batch_flushes_in_arrival_order() {
    let mut store = MessageStore::new();
    let mut batch = MessageBatch::new();
    batch.on_event(&mut store, BatchEvent::Arrived(message(b"1", "bob", 0, 0)));
    batch.on_event(&mut store, BatchEvent::Arrived(message(b"a", "carol", 0, 0)));
    batch.on_event(&mut store, BatchEvent::Arrived(message(b"2", "bob", 0, 0)));
    assert_eq!(batch.messages.len(), 3);
    assert_eq!(store.fetch_messages("bob", true), Ok(Vec::new()));
    batch.on_event(&mut store, BatchEvent::Tick);
    assert!(batch.messages.is_empty());
    assert_eq!(
        store.fetch_messages("bob", true),
        Ok(vec![message(b"1", "bob", 0, 0), message(b"2", "bob", 0, 0)])
    );
    assert_eq!(store.fetch_messages("carol", true), Ok(vec![message(b"a", "carol", 0, 0)]));
}

#[test]
fn flush_of_an_empty_batch_moves_nothing() {
    let mut store = MessageStore::new();
    let mut batch = MessageBatch::new();
    assert_eq!(batch.flush(&mut store), 0);
    batch.push(message(b"1", "bob", 0, 0));
    assert_eq!(batch.flush(&mut store), 1);
    assert_eq!(batch.flush(&mut store), 0);
    assert_eq!(store.fetch_messages("bob", true), Ok(vec![message(b"1", "bob", 0, 0)]));
}

#[test]
fn federated_message_lands_in_its_target_queue() {
    let mut store = MessageStore::new();
    federation_message(&mut store, message(b"hi", "dave", 5, 0));
    assert_eq!(store.fetch_messages("dave", true), Ok(vec![message(b"hi", "dave", 5, 0)]));
}

#[test]
fn registry_appends_and_finds_first() {
    let mut state = FederationState::new();
    assert!(state.servers.is_empty());
    register_server(&mut state, Server { name: "a.example".to_string(), url: "http://a".to_string() });
    register_server(&mut state, Server { name: "b.example".to_string(), url: "http://b".to_string() });
    register_server(&mut state, Server { name: "a.example".to_string(), url: "http://a2".to_string() });
    assert_eq!(state.servers.len(), 3);
    assert_eq!(state.servers[0].url, "http://a");
    assert_eq!(find_server(&state.servers, &"a.example".to_string()), Some(0));
    assert_eq!(find_server(&state.servers, &"b.example".to_string()), Some(1));
    assert_eq!(find_server(&state.servers, &"c.example".to_string()), None);
}

#[test]
fn federation_endpoint_trims_trailing_slashes() {
    let server = |url: &str| Server { name: "n".to_string(), url: url.to_string() };
    assert_eq!(federation_endpoint(&server("http://peer:3000")), "http://peer:3000/federation/message");
    assert_eq!(federation_endpoint(&server("http://peer:3000/")), "http://peer:3000/federation/message");
    assert_eq!(federation_endpoint(&server("http://peer///")), "http://peer/federation/message");
    assert_eq!(federation_endpoint(&server("")), "/federation/message");
    assert_eq!(federation_endpoint(&server("//")), "/federation/message");
}
