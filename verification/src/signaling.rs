//! Call signaling: who is in which room, and where a signal goes.

use vstd::prelude::*;
use crate::group::{find_member, joined, names};
use crate::search::{first_index, lemma_first_index_is};

verus! {

/// A signal between the parties of a call.
#[derive(Clone, Debug, PartialEq, Eq)]
pub struct SignalMessage {
    pub from: String,
    /// The recipient of a direct signal; empty in a group call.
    pub to: String,
    /// `offer`, `answer`, `ice` or `join`.
    pub msg_type: String,
    pub payload: String,
    /// The room of a group call.
    pub room_id: Option<String>,
}

/// A room of a group call and the users in it, each once, in the order in
/// which they joined.
#[derive(Clone, Debug, PartialEq, Eq)]
pub struct Room {
    pub id: String,
    pub users: Vec<String>,
}

/// Where a signal goes.
#[derive(Clone, Debug, PartialEq, Eq)]
pub enum SignalAction {
    /// The sender joins the room.
    Join { room: String },
    /// The signal goes to everyone else in the room.
    Broadcast { room: String },
    /// The signal goes to one user.
    Direct { to: String },
    /// The signal names neither a room nor a recipient and is dropped.
    Ignore,
}

/// Whether `action` is where `signal` goes: a signal with a room joins it
/// when its type is `join` and is broadcast in it otherwise; one without a
/// room goes to its recipient if it names one.
pub open spec fn acts(signal: SignalMessage, action: SignalAction) -> bool {
    match signal.room_id {
        Some(room_id) => if signal.msg_type@ == "join"@ {
            action matches SignalAction::Join { room } && room@ == room_id@
        } else {
            action matches SignalAction::Broadcast { room } && room@ == room_id@
        },
        None => if signal.to@.len() > 0 {
            action matches SignalAction::Direct { to } && to@ == signal.to@
        } else {
            action is Ignore
        },
    }
}

/// Decides where a signal goes.
pub fn signal_action(signal: &SignalMessage) -> (action: SignalAction)
    ensures
        acts(*signal, action),
{
    match &signal.room_id {
        Some(room_id) => {
            if signal.msg_type == "join".to_owned() {
                SignalAction::Join { room: room_id.clone() }
            } else {
                SignalAction::Broadcast { room: room_id.clone() }
            }
        },
        None => {
            if signal.to.as_str().unicode_len() > 0 {
                SignalAction::Direct { to: signal.to.clone() }
            } else {
                SignalAction::Ignore
            }
        },
    }
}

/// The rooms with id `id`.
pub open spec fn with_room_id(id: Seq<char>) -> spec_fn(Room) -> bool {
    |r: Room| r.id@ == id
}

/// The position of the first room with id `id`; the number of rooms where
/// there is none.
pub open spec fn room_position(rooms: Seq<Room>, id: Seq<char>) -> int {
    first_index(rooms, with_room_id(id))
}

/// Finds the first room with id `id`.
pub fn find_room(rooms: &Vec<Room>, id: &String) -> (at: Option<usize>)
    ensures
        match at {
            Some(i) => i == room_position(rooms@, id@) && i < rooms@.len() && rooms@[i as int].id@ == id@,
            None => room_position(rooms@, id@) == rooms@.len(),
        },
{
    let mut i: usize = 0;
    while i < rooms.len()
        invariant
            i <= rooms@.len(),
            forall|k: int| 0 <= k < i ==> (#[trigger] rooms@[k]).id@ != id@,
        decreases rooms@.len() - i,
    {
        if rooms[i].id == *id {
            proof {
                lemma_first_index_is(rooms@, with_room_id(id@), i as int);
            }
            return Some(i);
        }
        i += 1;
    }
    proof {
        lemma_first_index_is(rooms@, with_room_id(id@), i as int);
    }
    None
}

/// Puts a user into a room, which is opened if it does not exist. A user who
/// is in the room already stays in it once.
pub fn join_room(rooms: &mut Vec<Room>, room_id: &str, user_id: &str)
    ensures
        room_position(old(rooms)@, room_id@) == old(rooms)@.len() ==> {
            &&& final(rooms)@.len() == old(rooms)@.len() + 1
            &&& final(rooms)@.drop_last() == old(rooms)@
            &&& final(rooms)@.last().id@ == room_id@
            &&& names(final(rooms)@.last().users@) == seq![user_id@]
        },
        room_position(old(rooms)@, room_id@) < old(rooms)@.len() ==> {
            let at = room_position(old(rooms)@, room_id@);
            &&& final(rooms)@.len() == old(rooms)@.len()
            &&& forall|k: int| 0 <= k < old(rooms)@.len() && k != at ==> #[trigger] final(rooms)@[k] == old(rooms)@[k]
            &&& final(rooms)@[at].id == old(rooms)@[at].id
            &&& names(final(rooms)@[at].users@) == joined(old(rooms)@[at].users@, user_id@)
        },
{
    let id = room_id.to_owned();
    let user = user_id.to_owned();
    match find_room(rooms, &id) {
        Some(at) => {
            if find_member(&rooms[at].users, &user).is_none() {
                rooms[at].users.push(user);
                assert(names(rooms@[at as int].users@) =~= names(old(rooms)@[at as int].users@).push(user_id@));
            }
        },
        None => {
            let mut users: Vec<String> = Vec::new();
            users.push(user);
            assert(names(users@) =~= seq![user_id@]);
            rooms.push(Room { id, users });
            assert(rooms@.drop_last() =~= old(rooms)@);
        },
    }
}

/// The users of `users` other than `sender`, in their order.
pub open spec fn others(users: Seq<String>, sender: Seq<char>) -> Seq<Seq<char>>
    decreases users.len(),
{
    if users.len() == 0 {
        Seq::empty()
    } else if users.last()@ == sender {
        others(users.drop_last(), sender)
    } else {
        others(users.drop_last(), sender).push(users.last()@)
    }
}

/// The users that a signal from `from_user` in room `room_id` goes to:
/// everyone in the room but the sender, and nobody where there is no such
/// room.
pub fn broadcast_to_room(rooms: &Vec<Room>, room_id: &str, from_user: &str) -> (recipients: Vec<String>)
    ensures
        names(recipients@) == if room_position(rooms@, room_id@) < rooms@.len() {
            others(rooms@[room_position(rooms@, room_id@)].users@, from_user@)
        } else {
            Seq::<Seq<char>>::empty()
        },
{
    let id = room_id.to_owned();
    let sender = from_user.to_owned();
    let mut recipients: Vec<String> = Vec::new();
    assert(names(recipients@) =~= Seq::<Seq<char>>::empty());
    match find_room(rooms, &id) {
        Some(at) => {
            let users = &rooms[at].users;
            let mut i: usize = 0;
            assert(users@.take(0) =~= Seq::<String>::empty());
            while i < users.len()
                invariant
                    i <= users@.len(),
                    names(recipients@) == others(users@.take(i as int), from_user@),
                    sender@ == from_user@,
                decreases users@.len() - i,
            {
                assert(users@.take(i as int + 1).drop_last() =~= users@.take(i as int));
                assert(users@.take(i as int + 1).last() == users@[i as int]);
                if users[i] != sender {
                    let ghost before = names(recipients@);
                    recipients.push(users[i].clone());
                    assert(names(recipients@) =~= before.push(users@[i as int]@));
                }
                i += 1;
            }
            assert(users@.take(i as int) =~= users@);
        },
        None => {},
    }
    recipients
}

} // verus!
