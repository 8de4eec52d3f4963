//! The message endpoints: posting a message drives the delivery router, and
//! reading fetches and clears the caller's queues.

use vstd::prelude::*;
use crate::clock::unix_now;
use crate::federation::Server;
use crate::group::{contains_member, is_member, Group};
use crate::ids::{format_uuid, peer_id_parses, uuid_parse, uuid_text};
use crate::message::EncryptedMessage;
use crate::relay::{fetched, pending, MessageStore, Queues};
use crate::router::{
    classify, classify_spec, group_topic, group_topic_spec, peer_topic, route_spec, select_route, Route,
};

verus! {

/// The body of a request to post a message.
pub struct SendMessagePayload {
    pub recipient_user_id: String,
    /// The bytes to deliver; the relay treats them as opaque ciphertext.
    pub plaintext: Vec<u8>,
}

/// A caller whose credentials were verified.
pub struct AuthenticatedUser {
    pub user_id: String,
}

/// What is to be done with a posted message.
pub enum Delivery {
    /// Publish `payload` on the gossip topic `topic`.
    Publish { topic: String, payload: Vec<u8> },
    /// Post `message` to the peer relay `server`.
    Forward { server: Server, message: EncryptedMessage },
    /// Put `message` on the delivery queue for store-and-forward.
    Enqueue { message: EncryptedMessage },
}

/// Whether `message` is the wire message that the relay makes of a posted
/// payload: the payload as ciphertext, bound for the recipient, stamped with
/// `now`, without ratchet data and without a lifetime.
pub open spec fn wraps(message: EncryptedMessage, recipient: Seq<char>, payload: Seq<u8>, now: i64) -> bool {
    &&& message.ciphertext@ == payload
    &&& message.sender_blind@ == Seq::<u8>::empty()
    &&& message.dh_ratchet_pub@ == Seq::<u8>::empty()
    &&& message.message_number == 0
    &&& message.timestamp == now
    &&& message.target_device_id@ == recipient
    &&& message.ttl == 0
}

/// Whether `delivery` is what the route `route` asks for, for a payload
/// posted to `recipient` at time `now`.
pub open spec fn delivers(
    delivery: Delivery,
    route: Route,
    recipient: Seq<char>,
    payload: Seq<u8>,
    now: i64,
    servers: Seq<Server>,
) -> bool {
    match route {
        Route::GroupBroadcast { id } => delivery matches Delivery::Publish { topic, payload: sent }
            && topic@ == group_topic_spec(id) && sent@ == payload,
        Route::DirectPeer => delivery matches Delivery::Publish { topic, payload: sent } && topic@
            == "connexa-messages"@ && sent@ == payload,
        Route::Federation { server } => delivery matches Delivery::Forward { server: peer, message }
            && server < servers.len() && peer.name@ == servers[server as int].name@ && peer.url@
            == servers[server as int].url@ && wraps(message, recipient, payload, now),
        Route::Queue => delivery matches Delivery::Enqueue { message } && wraps(
            message,
            recipient,
            payload,
            now,
        ),
    }
}

/// Wraps a posted payload into a wire message.
fn wrap(recipient: String, payload: Vec<u8>, now: i64) -> (message: EncryptedMessage)
    ensures
        wraps(message, recipient@, payload@, now),
{
    EncryptedMessage {
        ciphertext: payload,
        sender_blind: Vec::new(),
        dh_ratchet_pub: Vec::new(),
        message_number: 0,
        timestamp: now,
        target_device_id: recipient,
        ttl: 0,
    }
}

/// Prepares what `route` asks for.
pub fn deliver(route: Route, recipient: String, payload: Vec<u8>, now: i64, servers: &Vec<Server>) -> (delivery: Delivery)
    requires
        route matches Route::Federation { server } ==> server < servers@.len(),
    ensures
        delivers(delivery, route, recipient@, payload@, now, servers@),
{
    match route {
        Route::GroupBroadcast { id } => Delivery::Publish { topic: group_topic(id), payload },
        Route::DirectPeer => Delivery::Publish { topic: peer_topic(), payload },
        Route::Federation { server } => {
            let peer = Server { name: servers[server].name.clone(), url: servers[server].url.clone() };
            Delivery::Forward { server: peer, message: wrap(recipient, payload, now) }
        },
        Route::Queue => Delivery::Enqueue { message: wrap(recipient, payload, now) },
    }
}

/// Routes a message posted at time `now`: classifies the recipient, picks
/// the transport and prepares the delivery. `reachable` says whether the
/// recipient, taken as a network peer, is connected. The principal shows
/// that the caller was authenticated; it is not recorded, since the wire
/// message carries no cleartext sender.
pub fn post_message_at(
    _user: &AuthenticatedUser,
    payload: SendMessagePayload,
    groups: &Vec<Group>,
    servers: &Vec<Server>,
    reachable: bool,
    now: i64,
) -> (delivery: Delivery)
    ensures
        delivers(
            delivery,
            route_spec(
                classify_spec(
                    payload.recipient_user_id@,
                    uuid_parse(payload.recipient_user_id@),
                    peer_id_parses(payload.recipient_user_id@),
                    groups@,
                    servers@,
                ),
                reachable,
            ),
            payload.recipient_user_id@,
            payload.plaintext@,
            now,
            servers@,
        ),
{
    let class = classify(payload.recipient_user_id.as_str(), groups, servers);
    let route = select_route(class, reachable);
    deliver(route, payload.recipient_user_id, payload.plaintext, now, servers)
}

/// Routes a message posted now, as `post_message_at` does at the time the
/// clock shows.
pub fn post_message(
    user: &AuthenticatedUser,
    payload: SendMessagePayload,
    groups: &Vec<Group>,
    servers: &Vec<Server>,
    reachable: bool,
) -> (delivery: Delivery)
    ensures
        exists|now: i64| #[trigger]
            delivers(
                delivery,
                route_spec(
                    classify_spec(
                        payload.recipient_user_id@,
                        uuid_parse(payload.recipient_user_id@),
                        peer_id_parses(payload.recipient_user_id@),
                        groups@,
                        servers@,
                    ),
                    reachable,
                ),
                payload.recipient_user_id@,
                payload.plaintext@,
                now,
                servers@,
            ),
{
    let now = unix_now();
    post_message_at(user, payload, groups, servers, reachable, now)
}

/// What a read hands out and what it leaves: the caller's own queue, then,
/// group by group in the order of `groups`, the queue of each group that the
/// caller is a member of. Each queue is cleared as it is read.
pub open spec fn inbox(queues: Queues, user: Seq<char>, groups: Seq<Group>) -> (Seq<EncryptedMessage>, Queues)
    decreases groups.len(),
{
    if groups.len() == 0 {
        (pending(queues, user), fetched(queues, user))
    } else {
        let (messages, left) = inbox(queues, user, groups.drop_last());
        let group = groups.last();
        if is_member(group.members@, user) {
            (messages + pending(left, uuid_text(group.id)), fetched(left, uuid_text(group.id)))
        } else {
            (messages, left)
        }
    }
}

/// Fetches and clears the caller's own queue and the queues of the groups
/// that the caller is a member of.
pub fn get_messages(store: &mut MessageStore, user: &AuthenticatedUser, groups: &Vec<Group>) -> (messages: Vec<EncryptedMessage>)
    ensures
        messages@ == inbox(old(store)@, user.user_id@, groups@).0,
        final(store)@ == inbox(old(store)@, user.user_id@, groups@).1,
{
    let mut messages = match store.fetch_messages(user.user_id.as_str(), true) {
        Ok(own) => own,
        Err(_) => Vec::new(),
    };
    let mut i: usize = 0;
    assert(groups@.take(0) =~= Seq::<Group>::empty());
    while i < groups.len()
        invariant
            i <= groups@.len(),
            messages@ == inbox(old(store)@, user.user_id@, groups@.take(i as int)).0,
            store@ == inbox(old(store)@, user.user_id@, groups@.take(i as int)).1,
        decreases groups@.len() - i,
    {
        assert(groups@.take(i as int + 1).drop_last() =~= groups@.take(i as int));
        assert(groups@.take(i as int + 1).last() == groups@[i as int]);
        if contains_member(&groups[i].members, &user.user_id) {
            let id = format_uuid(groups[i].id);
            match store.fetch_messages(id.as_str(), true) {
                Ok(mut more) => {
                    messages.append(&mut more);
                },
                Err(_) => {},
            }
        }
        i += 1;
    }
    assert(groups@.take(i as int) =~= groups@);
    messages
}

} // verus!
