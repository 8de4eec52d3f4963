//! Devices and the linking of a new device to a user's account.

use vstd::prelude::*;
use crate::clock::unix_now;
use crate::ids::{format_uuid, fresh_uuid};
use crate::search::{first_index, lemma_first_index_is};

verus! {

/// A device of a user. Its id is a UUID, held as a 128-bit number.
#[derive(Clone, Debug, PartialEq, Eq)]
pub struct Device {
    pub id: u128,
    pub user_id: String,
    pub name: String,
    /// Seconds since the epoch at which the device was added.
    pub added_at: i64,
    pub verified: bool,
    /// The token that completes the linking; gone once the device is linked.
    pub link_token: Option<String>,
}

/// The body of a request to start linking a device.
pub struct InitiateLinkPayload {
    pub device_name: String,
}

/// The answer to a request to start linking a device.
pub struct LinkTokenResponse {
    pub link_token: String,
}

/// The body of a request to complete the linking of a device.
pub struct CompleteLinkPayload {
    pub link_token: String,
    pub device_name: String,
}

/// Why a device operation was refused.
#[derive(Clone, Copy, Debug, PartialEq, Eq)]
pub enum DeviceError {
    /// No device waits for the token.
    InvalidLinkToken,
    /// The user has no device with the id.
    NotFound,
}

impl DeviceError {
    /// The reason in words.
    pub fn message(&self) -> (text: String)
        ensures
            text@ == match self {
                DeviceError::InvalidLinkToken => "Invalid or expired link token"@,
                DeviceError::NotFound => "Device not found or not owned by user"@,
            },
    {
        match self {
            DeviceError::InvalidLinkToken => "Invalid or expired link token".to_owned(),
            DeviceError::NotFound => "Device not found or not owned by user".to_owned(),
        }
    }
}

/// Whether a device waits to be linked with `token`.
pub open spec fn awaits(device: Device, token: Seq<char>) -> bool {
    device.link_token matches Some(t) && t@ == token
}

/// The devices that wait to be linked with `token`.
pub open spec fn awaiting(token: Seq<char>) -> spec_fn(Device) -> bool {
    |d: Device| awaits(d, token)
}

/// The devices of `user` with id `id`.
pub open spec fn owned_with_id(user: Seq<char>, id: u128) -> spec_fn(Device) -> bool {
    |d: Device| d.id == id && d.user_id@ == user
}

/// The positions, in rising order, of the devices of `user` among the first
/// `upto` devices.
pub open spec fn positions_of(devices: Seq<Device>, user: Seq<char>, upto: int) -> Seq<usize>
    decreases upto,
{
    if upto <= 0 {
        Seq::empty()
    } else if devices[upto - 1].user_id@ == user {
        positions_of(devices, user, upto - 1).push((upto - 1) as usize)
    } else {
        positions_of(devices, user, upto - 1)
    }
}

/// Adds an unverified device that waits to be linked with `link_token`, and
/// answers with the token.
pub fn initiate_link_with(
    devices: &mut Vec<Device>,
    device_id: u128,
    link_token: String,
    user_id: String,
    payload: InitiateLinkPayload,
    now: i64,
) -> (response: LinkTokenResponse)
    ensures
        response.link_token@ == link_token@,
        final(devices)@.len() == old(devices)@.len() + 1,
        final(devices)@.drop_last() == old(devices)@,
        final(devices)@.last().id == device_id,
        final(devices)@.last().user_id@ == user_id@,
        final(devices)@.last().name@ == payload.device_name@,
        final(devices)@.last().added_at == now,
        !final(devices)@.last().verified,
        awaits(final(devices)@.last(), link_token@),
{
    let token = link_token.clone();
    devices.push(
        Device {
            id: device_id,
            user_id,
            name: payload.device_name,
            added_at: now,
            verified: false,
            link_token: Some(link_token),
        },
    );
    assert(devices@.drop_last() =~= old(devices)@);
    LinkTokenResponse { link_token: token }
}

/// Adds an unverified device with a fresh random id, which waits to be
/// linked with a fresh random token, and answers with the token.
pub fn initiate_link(devices: &mut Vec<Device>, user_id: String, payload: InitiateLinkPayload) -> (response: LinkTokenResponse)
    ensures
        final(devices)@.len() == old(devices)@.len() + 1,
        final(devices)@.drop_last() == old(devices)@,
        final(devices)@.last().user_id@ == user_id@,
        final(devices)@.last().name@ == payload.device_name@,
        !final(devices)@.last().verified,
        awaits(final(devices)@.last(), response.link_token@),
{
    let link_token = format_uuid(fresh_uuid());
    let device_id = fresh_uuid();
    let now = unix_now();
    initiate_link_with(devices, device_id, link_token, user_id, payload, now)
}

/// Completes the linking of the first device that waits for the token of
/// `payload`: the device is verified, takes the name of `payload` and waits
/// no longer. Returns the device's position.
pub fn complete_link(devices: &mut Vec<Device>, payload: CompleteLinkPayload) -> (outcome: Result<usize, DeviceError>)
    ensures
        match outcome {
            Ok(at) => {
                &&& at == first_index(old(devices)@, awaiting(payload.link_token@))
                &&& at < old(devices)@.len()
                &&& final(devices)@.len() == old(devices)@.len()
                &&& forall|k: int| 0 <= k < old(devices)@.len() && k != at ==> #[trigger] final(devices)@[k] == old(devices)@[k]
                &&& final(devices)@[at as int].verified
                &&& final(devices)@[at as int].link_token.is_none()
                &&& final(devices)@[at as int].name@ == payload.device_name@
                &&& final(devices)@[at as int].id == old(devices)@[at as int].id
                &&& final(devices)@[at as int].user_id == old(devices)@[at as int].user_id
                &&& final(devices)@[at as int].added_at == old(devices)@[at as int].added_at
            },
            Err(e) => {
                &&& e == DeviceError::InvalidLinkToken
                &&& first_index(old(devices)@, awaiting(payload.link_token@)) == old(devices)@.len()
                &&& final(devices)@ == old(devices)@
            },
        },
{
    let mut i: usize = 0;
    while i < devices.len()
        invariant
            i <= devices@.len(),
            devices@ == old(devices)@,
            forall|k: int| 0 <= k < i ==> !awaits(#[trigger] devices@[k], payload.link_token@),
        decreases devices@.len() - i,
    {
        let waits = match &devices[i].link_token {
            Some(token) => *token == payload.link_token,
            None => false,
        };
        if waits {
            proof {
                lemma_first_index_is(devices@, awaiting(payload.link_token@), i as int);
            }
            devices[i].verified = true;
            devices[i].link_token = None;
            devices[i].name = payload.device_name;
            return Ok(i);
        }
        i += 1;
    }
    proof {
        lemma_first_index_is(devices@, awaiting(payload.link_token@), i as int);
    }
    Err(DeviceError::InvalidLinkToken)
}

/// The positions of the devices of `user_id`, in rising order.
pub fn list_devices(devices: &Vec<Device>, user_id: &String) -> (positions: Vec<usize>)
    ensures
        positions@ == positions_of(devices@, user_id@, devices@.len() as int),
{
    let mut positions: Vec<usize> = Vec::new();
    let mut i: usize = 0;
    while i < devices.len()
        invariant
            i <= devices@.len(),
            positions@ == positions_of(devices@, user_id@, i as int),
        decreases devices@.len() - i,
    {
        if devices[i].user_id == *user_id {
            positions.push(i);
        }
        i += 1;
    }
    positions
}

/// Removes the first device of `user_id` with id `device_id`.
pub fn unlink_device(devices: &mut Vec<Device>, user_id: &String, device_id: u128) -> (outcome: Result<(), DeviceError>)
    ensures
        match outcome {
            Ok(_) => {
                let at = first_index(old(devices)@, owned_with_id(user_id@, device_id));
                at < old(devices)@.len() && final(devices)@ == old(devices)@.remove(at)
            },
            Err(e) => {
                &&& e == DeviceError::NotFound
                &&& first_index(old(devices)@, owned_with_id(user_id@, device_id)) == old(devices)@.len()
                &&& final(devices)@ == old(devices)@
            },
        },
{
    let mut i: usize = 0;
    while i < devices.len()
        invariant
            i <= devices@.len(),
            devices@ == old(devices)@,
            forall|k: int| 0 <= k < i ==> !((#[trigger] devices@[k]).id == device_id && devices@[k].user_id@ == user_id@),
        decreases devices@.len() - i,
    {
        if devices[i].id == device_id && devices[i].user_id == *user_id {
            proof {
                lemma_first_index_is(devices@, owned_with_id(user_id@, device_id), i as int);
            }
            let _ = devices.remove(i);
            return Ok(());
        }
        i += 1;
    }
    proof {
        lemma_first_index_is(devices@, owned_with_id(user_id@, device_id), i as int);
    }
    Err(DeviceError::NotFound)
}

} // verus!
