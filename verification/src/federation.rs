//! Federation: the registry of peer relays and the address at which a peer
//! takes messages.

use vstd::prelude::*;
use vstd::string::StringExecFns;
use crate::search::{first_index, lemma_first_index, lemma_first_index_is};
use crate::message::EncryptedMessage;
use crate::relay::{stored, MessageStore};

verus! {

/// A peer relay.
#[derive(Clone, Debug, PartialEq, Eq)]
pub struct Server {
    pub name: String,
    pub url: String,
}

/// The registry of peer relays, in the order in which they registered.
pub struct FederationState {
    pub servers: Vec<Server>,
}

/// The servers named `name`.
pub open spec fn named(name: Seq<char>) -> spec_fn(Server) -> bool {
    |s: Server| s.name@ == name
}

/// The position of the first server named `name`; the number of servers where
/// there is none.
pub open spec fn server_position(servers: Seq<Server>, name: Seq<char>) -> int {
    first_index(servers, named(name))
}

/// Whether a server named `name` is registered.
pub open spec fn server_known(servers: Seq<Server>, name: Seq<char>) -> bool {
    server_position(servers, name) < servers.len()
}

/// What `server_position` means: it is in range, no server before it has the
/// name, and the server at it has the name where there is one.
pub proof fn lemma_server_position(servers: Seq<Server>, name: Seq<char>)
    ensures
        0 <= server_position(servers, name) <= servers.len(),
        forall|k: int| 0 <= k < server_position(servers, name) ==> (#[trigger] servers[k]).name@ != name,
        server_known(servers, name) ==> servers[server_position(servers, name)].name@ == name,
{
    lemma_first_index(servers, named(name));
}

/// A URL without the slashes at its end.
pub open spec fn trim_slashes(url: Seq<char>) -> Seq<char>
    decreases url.len(),
{
    if url.len() > 0 && url.last() == '/' {
        trim_slashes(url.drop_last())
    } else {
        url
    }
}

/// The address at which the relay at `url` takes federated messages.
pub open spec fn endpoint_of(url: Seq<char>) -> Seq<char> {
    trim_slashes(url) + "/federation/message"@
}

/// Finds the first server named `name`.
pub fn find_server(servers: &Vec<Server>, name: &String) -> (at: Option<usize>)
    ensures
        match at {
            Some(i) => server_known(servers@, name@) && i == server_position(servers@, name@)
                && servers@[i as int].name@ == name@,
            None => !server_known(servers@, name@),
        },
{
    let mut i: usize = 0;
    while i < servers.len()
        invariant
            i <= servers@.len(),
            forall|k: int| 0 <= k < i ==> (#[trigger] servers@[k]).name@ != name@,
        decreases servers@.len() - i,
    {
        if servers[i].name == *name {
            proof {
                lemma_first_index_is(servers@, named(name@), i as int);
            }
            return Some(i);
        }
        i += 1;
    }
    proof {
        lemma_first_index_is(servers@, named(name@), i as int);
    }
    None
}

/// The address to which a message for `server` is posted.
pub fn federation_endpoint(server: &Server) -> (address: String)
    ensures
        address@ == endpoint_of(server.url@),
{
    let url = server.url.as_str();
    let mut end: usize = url.unicode_len();
    assert(url@.take(end as int) =~= url@);
    while end > 0 && url.get_char(end - 1) == '/'
        invariant
            end <= url@.len(),
            trim_slashes(url@) == trim_slashes(url@.take(end as int)),
        decreases end,
    {
        assert(url@.take(end as int).drop_last() =~= url@.take(end as int - 1));
        end -= 1;
    }
    let trimmed = url.substring_char(0, end);
    assert(trimmed@ =~= url@.take(end as int));
    String::from_str(trimmed).concat("/federation/message")
}

impl FederationState {
    /// A registry without servers.
    pub fn new() -> (state: FederationState)
        ensures
            state.servers@ == Seq::<Server>::empty(),
    {
        FederationState { servers: Vec::new() }
    }
}

/// Appends `server` to the registry. Servers registered before stay as they
/// are, at their positions.
pub fn register_server(state: &mut FederationState, server: Server)
    ensures
        final(state).servers@ == old(state).servers@.push(server),
{
    state.servers.push(server);
}

/// Takes a message from a peer relay into the queue of the recipient that the
/// message names. A registered peer is trusted, so the store is asked as an
/// authenticated caller.
pub fn federation_message(store: &mut MessageStore, message: EncryptedMessage)
    ensures
        final(store)@ == stored(old(store)@, message.target_device_id@, message),
{
    let recipient = message.target_device_id.clone();
    let _ = store.store_message(recipient.as_str(), message, true);
}

} // verus!
