//! The delivery router: which transport an outgoing message takes.
//!
//! A recipient identifier is tried, in this order, as the id of a group known
//! here, as a network peer id, and as a handle at a federated domain. What
//! matches none of them, and a peer that cannot be reached, goes to the
//! store-and-forward queue.

use vstd::prelude::*;
use vstd::string::StringExecFns;
use crate::federation::{find_server, lemma_server_position, server_known, server_position, Server};
use crate::group::{find_group, group_known, Group};
use crate::text::{char_from, find_char};
use crate::ids::{format_uuid, is_peer_id, parse_uuid, peer_id_parses, uuid_parse, uuid_text};

verus! {

/// What kind of recipient an identifier names.
#[derive(Clone, Copy, Debug, PartialEq, Eq)]
pub enum RecipientClass {
    /// A group known here, by its id.
    Group { id: u128 },
    /// A network peer.
    Peer,
    /// A handle at the domain of a registered peer relay, by the relay's
    /// position in the registry.
    Federated { server: usize },
    /// Anything else.
    Opaque,
}

/// The transport that a message takes.
#[derive(Clone, Copy, Debug, PartialEq, Eq)]
pub enum Route {
    /// Publish on the group's broadcast topic.
    GroupBroadcast { id: u128 },
    /// Publish on the topic that connected peers listen to.
    DirectPeer,
    /// Forward to the peer relay at this position in the registry.
    Federation { server: usize },
    /// Enqueue for store-and-forward.
    Queue,
}

/// The domain of a handle: what stands between its first `@` and the next
/// one, or its end. An identifier without `@` has none.
pub open spec fn domain_of(text: Seq<char>) -> Option<Seq<char>> {
    let first = char_from(text, '@', 0);
    if first >= text.len() {
        None
    } else {
        Some(text.subrange(first + 1, char_from(text, '@', first + 1)))
    }
}

/// The class of a recipient identifier, given the group id and the peer id it
/// parses to, if any. The order of the tests is the order of priority.
pub open spec fn classify_spec(
    recipient: Seq<char>,
    group_id: Option<u128>,
    peer: bool,
    groups: Seq<Group>,
    servers: Seq<Server>,
) -> RecipientClass {
    if group_id.is_some() && group_known(groups, group_id.unwrap()) {
        RecipientClass::Group { id: group_id.unwrap() }
    } else if peer {
        RecipientClass::Peer
    } else if domain_of(recipient).is_some() && server_known(servers, domain_of(recipient).unwrap()) {
        RecipientClass::Federated { server: server_position(servers, domain_of(recipient).unwrap()) as usize }
    } else {
        RecipientClass::Opaque
    }
}

/// The transport for a class of recipient; `reachable` says whether a peer is
/// connected, and matters for a peer alone.
pub open spec fn route_spec(class: RecipientClass, reachable: bool) -> Route {
    match class {
        RecipientClass::Group { id } => Route::GroupBroadcast { id },
        RecipientClass::Peer => if reachable {
            Route::DirectPeer
        } else {
            Route::Queue
        },
        RecipientClass::Federated { server } => Route::Federation { server },
        RecipientClass::Opaque => Route::Queue,
    }
}

/// The name of a group's broadcast topic.
pub open spec fn group_topic_spec(id: u128) -> Seq<char> {
    "connexa-group-"@ + uuid_text(id)
}

/// An identifier that parses as the id of a group known here goes to that
/// group's broadcast, whether or not it also parses as a peer id, names a
/// federated domain, or the peer is reachable.
pub proof fn lemma_group_takes_priority(
    recipient: Seq<char>,
    id: u128,
    peer: bool,
    reachable: bool,
    groups: Seq<Group>,
    servers: Seq<Server>,
)
    requires
        group_known(groups, id),
    ensures
        route_spec(classify_spec(recipient, Some(id), peer, groups, servers), reachable)
            == (Route::GroupBroadcast { id }),
{
}

/// A message is forwarded to a peer relay only where the recipient is a
/// handle whose domain is that relay's name; every other identifier that is
/// neither a known group nor a reachable peer is queued.
pub proof fn lemma_route_is_total(
    recipient: Seq<char>,
    group_id: Option<u128>,
    peer: bool,
    reachable: bool,
    groups: Seq<Group>,
    servers: Seq<Server>,
)
    requires
        servers.len() <= usize::MAX,
    ensures
        match route_spec(classify_spec(recipient, group_id, peer, groups, servers), reachable) {
            Route::GroupBroadcast { id } => group_id == Some(id) && group_known(groups, id),
            Route::DirectPeer => peer && reachable && !(group_id.is_some() && group_known(
                groups,
                group_id.unwrap(),
            )),
            Route::Federation { server } => {
                &&& !peer
                &&& !(group_id.is_some() && group_known(groups, group_id.unwrap()))
                &&& server < servers.len()
                &&& domain_of(recipient) == Some(servers[server as int].name@)
            },
            Route::Queue => !(group_id.is_some() && group_known(groups, group_id.unwrap())) && !(peer
                && reachable) && (peer || !(domain_of(recipient).is_some() && server_known(
                servers,
                domain_of(recipient).unwrap(),
            ))),
        },
{
    if domain_of(recipient).is_some() {
        lemma_server_position(servers, domain_of(recipient).unwrap());
    }
}

/// The domain of a handle, if `text` is one.
pub fn domain(text: &str) -> (name: Option<String>)
    ensures
        match name {
            Some(d) => domain_of(text@) == Some(d@),
            None => domain_of(text@).is_none(),
        },
{
    let len = text.unicode_len();
    let first = find_char(text, '@', 0);
    if first >= len {
        return None;
    }
    let next = find_char(text, '@', first + 1);
    Some(String::from_str(text.substring_char(first + 1, next)))
}

/// Classifies a recipient identifier, given what it parses to.
pub fn classify_parsed(
    recipient: &str,
    group_id: Option<u128>,
    peer: bool,
    groups: &Vec<Group>,
    servers: &Vec<Server>,
) -> (class: RecipientClass)
    ensures
        class == classify_spec(recipient@, group_id, peer, groups@, servers@),
        class matches RecipientClass::Federated { server } ==> server < servers@.len(),
{
    if let Some(id) = group_id {
        if find_group(groups, id).is_some() {
            return RecipientClass::Group { id };
        }
    }
    if peer {
        return RecipientClass::Peer;
    }
    if let Some(name) = domain(recipient) {
        if let Some(server) = find_server(servers, &name) {
            return RecipientClass::Federated { server };
        }
    }
    RecipientClass::Opaque
}

/// Classifies a recipient identifier: parses it as a group id and as a peer
/// id, and decides as `classify_parsed` does.
pub fn classify(recipient: &str, groups: &Vec<Group>, servers: &Vec<Server>) -> (class: RecipientClass)
    ensures
        class == classify_spec(recipient@, uuid_parse(recipient@), peer_id_parses(recipient@), groups@, servers@),
        class matches RecipientClass::Federated { server } ==> server < servers@.len(),
{
    let group_id = parse_uuid(recipient);
    let peer = is_peer_id(recipient);
    classify_parsed(recipient, group_id, peer, groups, servers)
}

/// The transport for a class of recipient.
pub fn select_route(class: RecipientClass, reachable: bool) -> (route: Route)
    ensures
        route == route_spec(class, reachable),
{
    match class {
        RecipientClass::Group { id } => Route::GroupBroadcast { id },
        RecipientClass::Peer => {
            if reachable {
                Route::DirectPeer
            } else {
                Route::Queue
            }
        },
        RecipientClass::Federated { server } => Route::Federation { server },
        RecipientClass::Opaque => Route::Queue,
    }
}

/// The name of the broadcast topic of the group with id `id`.
pub fn group_topic(id: u128) -> (topic: String)
    ensures
        topic@ == group_topic_spec(id),
{
    let text = format_uuid(id);
    String::from_str("connexa-group-").concat(text.as_str())
}

/// The name of the topic on which messages for connected peers are published.
pub fn peer_topic() -> (topic: String)
    ensures
        topic@ == "connexa-messages"@,
{
    String::from_str("connexa-messages")
}

} // verus!
