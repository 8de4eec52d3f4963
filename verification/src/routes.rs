//! The HTTP surface: which endpoint answers which method and path.
//!
//! A path segment that starts with `:` stands for a parameter.

use vstd::prelude::*;

verus! {

/// An HTTP method.
#[derive(Clone, Copy, Debug, PartialEq, Eq)]
pub enum Method {
    Get,
    Post,
    Delete,
}

/// What a request is answered by.
#[derive(Clone, Copy, Debug, PartialEq, Eq)]
pub enum Endpoint {
    PostMessage,
    GetMessages,
    UploadMedia,
    DownloadMedia,
    BlindElement,
    EvaluateElement,
    RegisterServer,
    FederationMessage,
    CreateGroup,
    GetGroup,
    InviteToGroup,
    JoinGroup,
    LeaveGroup,
    RemoveFromGroup,
    SendGroupMessage,
    ReceiveGroupMessage,
    InitiateLink,
    CompleteLink,
    ListDevices,
    UnlinkDevice,
    SfuToken,
    Signaling,
    WebrtcOffer,
    WebrtcAnswer,
    WebrtcCandidate,
}

/// One line of a routing table.
#[derive(Clone, Copy, Debug, PartialEq, Eq)]
pub struct RouteEntry {
    pub method: Method,
    pub path: &'static str,
    pub endpoint: Endpoint,
}

/// A line of a routing table as plain values.
pub struct RouteLine {
    pub method: Method,
    pub path: Seq<char>,
    pub endpoint: Endpoint,
}

impl View for RouteEntry {
    type V = RouteLine;

    open spec fn view(&self) -> RouteLine {
        RouteLine { method: self.method, path: self.path@, endpoint: self.endpoint }
    }
}

/// A routing table as plain values, line by line.
pub open spec fn lines(table: Seq<RouteEntry>) -> Seq<RouteLine> {
    table.map_values(|entry: RouteEntry| entry@)
}

/// A line of a routing table.
pub open spec fn line(method: Method, path: Seq<char>, endpoint: Endpoint) -> RouteLine {
    RouteLine { method, path, endpoint }
}

/// The routes of the messaging endpoints.
pub fn app() -> (table: Vec<RouteEntry>)
    ensures
        lines(table@) == seq![
            line(Method::Post, "/message"@, Endpoint::PostMessage),
            line(Method::Get, "/messages/:recipient_id"@, Endpoint::GetMessages),
            line(Method::Post, "/media/upload"@, Endpoint::UploadMedia),
            line(Method::Get, "/media/download/:hash"@, Endpoint::DownloadMedia),
            line(Method::Post, "/psi/blind"@, Endpoint::BlindElement),
            line(Method::Post, "/psi/evaluate"@, Endpoint::EvaluateElement),
        ],
{
    let mut table: Vec<RouteEntry> = Vec::new();
    table.push(RouteEntry { method: Method::Post, path: "/message", endpoint: Endpoint::PostMessage });
    table.push(RouteEntry { method: Method::Get, path: "/messages/:recipient_id", endpoint: Endpoint::GetMessages });
    table.push(RouteEntry { method: Method::Post, path: "/media/upload", endpoint: Endpoint::UploadMedia });
    table.push(RouteEntry { method: Method::Get, path: "/media/download/:hash", endpoint: Endpoint::DownloadMedia });
    table.push(RouteEntry { method: Method::Post, path: "/psi/blind", endpoint: Endpoint::BlindElement });
    table.push(RouteEntry { method: Method::Post, path: "/psi/evaluate", endpoint: Endpoint::EvaluateElement });
    assert(lines(table@) =~= seq![
        line(Method::Post, "/message"@, Endpoint::PostMessage),
        line(Method::Get, "/messages/:recipient_id"@, Endpoint::GetMessages),
        line(Method::Post, "/media/upload"@, Endpoint::UploadMedia),
        line(Method::Get, "/media/download/:hash"@, Endpoint::DownloadMedia),
        line(Method::Post, "/psi/blind"@, Endpoint::BlindElement),
        line(Method::Post, "/psi/evaluate"@, Endpoint::EvaluateElement),
    ]);
    table
}

/// The routes of the federation endpoints.
pub fn federation_router() -> (table: Vec<RouteEntry>)
    ensures
        lines(table@) == seq![
            line(Method::Post, "/federation/register"@, Endpoint::RegisterServer),
            line(Method::Post, "/federation/message"@, Endpoint::FederationMessage),
        ],
{
    let mut table: Vec<RouteEntry> = Vec::new();
    table.push(RouteEntry { method: Method::Post, path: "/federation/register", endpoint: Endpoint::RegisterServer });
    table.push(RouteEntry { method: Method::Post, path: "/federation/message", endpoint: Endpoint::FederationMessage });
    assert(lines(table@) =~= seq![
        line(Method::Post, "/federation/register"@, Endpoint::RegisterServer),
        line(Method::Post, "/federation/message"@, Endpoint::FederationMessage),
    ]);
    table
}

/// The routes of the group endpoints.
pub fn group_router() -> (table: Vec<RouteEntry>)
    ensures
        lines(table@) == seq![
            line(Method::Post, "/group"@, Endpoint::CreateGroup),
            line(Method::Get, "/group/:group_id"@, Endpoint::GetGroup),
            line(Method::Post, "/group/:group_id/invite"@, Endpoint::InviteToGroup),
            line(Method::Post, "/group/:group_id/join"@, Endpoint::JoinGroup),
            line(Method::Post, "/group/:group_id/leave"@, Endpoint::LeaveGroup),
            line(Method::Post, "/group/:group_id/remove"@, Endpoint::RemoveFromGroup),
        ],
{
    let mut table: Vec<RouteEntry> = Vec::new();
    table.push(RouteEntry { method: Method::Post, path: "/group", endpoint: Endpoint::CreateGroup });
    table.push(RouteEntry { method: Method::Get, path: "/group/:group_id", endpoint: Endpoint::GetGroup });
    table.push(RouteEntry { method: Method::Post, path: "/group/:group_id/invite", endpoint: Endpoint::InviteToGroup });
    table.push(RouteEntry { method: Method::Post, path: "/group/:group_id/join", endpoint: Endpoint::JoinGroup });
    table.push(RouteEntry { method: Method::Post, path: "/group/:group_id/leave", endpoint: Endpoint::LeaveGroup });
    table.push(RouteEntry { method: Method::Post, path: "/group/:group_id/remove", endpoint: Endpoint::RemoveFromGroup });
    assert(lines(table@) =~= seq![
        line(Method::Post, "/group"@, Endpoint::CreateGroup),
        line(Method::Get, "/group/:group_id"@, Endpoint::GetGroup),
        line(Method::Post, "/group/:group_id/invite"@, Endpoint::InviteToGroup),
        line(Method::Post, "/group/:group_id/join"@, Endpoint::JoinGroup),
        line(Method::Post, "/group/:group_id/leave"@, Endpoint::LeaveGroup),
        line(Method::Post, "/group/:group_id/remove"@, Endpoint::RemoveFromGroup),
    ]);
    table
}

/// The routes of the group message endpoints.
pub fn group_message_router() -> (table: Vec<RouteEntry>)
    ensures
        lines(table@) == seq![
            line(Method::Post, "/group/:group_id/message"@, Endpoint::SendGroupMessage),
            line(Method::Post, "/group/:group_id/receive"@, Endpoint::ReceiveGroupMessage),
        ],
{
    let mut table: Vec<RouteEntry> = Vec::new();
    table.push(RouteEntry { method: Method::Post, path: "/group/:group_id/message", endpoint: Endpoint::SendGroupMessage });
    table.push(RouteEntry { method: Method::Post, path: "/group/:group_id/receive", endpoint: Endpoint::ReceiveGroupMessage });
    assert(lines(table@) =~= seq![
        line(Method::Post, "/group/:group_id/message"@, Endpoint::SendGroupMessage),
        line(Method::Post, "/group/:group_id/receive"@, Endpoint::ReceiveGroupMessage),
    ]);
    table
}

/// The routes of the device endpoints.
pub fn device_router() -> (table: Vec<RouteEntry>)
    ensures
        lines(table@) == seq![
            line(Method::Post, "/device/link/initiate"@, Endpoint::InitiateLink),
            line(Method::Post, "/device/link/complete"@, Endpoint::CompleteLink),
            line(Method::Get, "/devices"@, Endpoint::ListDevices),
            line(Method::Delete, "/device/:device_id"@, Endpoint::UnlinkDevice),
        ],
{
    let mut table: Vec<RouteEntry> = Vec::new();
    table.push(RouteEntry { method: Method::Post, path: "/device/link/initiate", endpoint: Endpoint::InitiateLink });
    table.push(RouteEntry { method: Method::Post, path: "/device/link/complete", endpoint: Endpoint::CompleteLink });
    table.push(RouteEntry { method: Method::Get, path: "/devices", endpoint: Endpoint::ListDevices });
    table.push(RouteEntry { method: Method::Delete, path: "/device/:device_id", endpoint: Endpoint::UnlinkDevice });
    assert(lines(table@) =~= seq![
        line(Method::Post, "/device/link/initiate"@, Endpoint::InitiateLink),
        line(Method::Post, "/device/link/complete"@, Endpoint::CompleteLink),
        line(Method::Get, "/devices"@, Endpoint::ListDevices),
        line(Method::Delete, "/device/:device_id"@, Endpoint::UnlinkDevice),
    ]);
    table
}

/// The route of the call-token endpoint.
pub fn sfu_router() -> (table: Vec<RouteEntry>)
    ensures
        lines(table@) == seq![line(Method::Get, "/sfu/token"@, Endpoint::SfuToken)],
{
    let mut table: Vec<RouteEntry> = Vec::new();
    table.push(RouteEntry { method: Method::Get, path: "/sfu/token", endpoint: Endpoint::SfuToken });
    assert(lines(table@) =~= seq![line(Method::Get, "/sfu/token"@, Endpoint::SfuToken)]);
    table
}

/// The route of the signaling socket.
pub fn signaling_router() -> (table: Vec<RouteEntry>)
    ensures
        lines(table@) == seq![line(Method::Get, "/signaling"@, Endpoint::Signaling)],
{
    let mut table: Vec<RouteEntry> = Vec::new();
    table.push(RouteEntry { method: Method::Get, path: "/signaling", endpoint: Endpoint::Signaling });
    assert(lines(table@) =~= seq![line(Method::Get, "/signaling"@, Endpoint::Signaling)]);
    table
}

/// The routes of the call negotiation endpoints.
pub fn webrtc_router() -> (table: Vec<RouteEntry>)
    ensures
        lines(table@) == seq![
            line(Method::Post, "/webrtc/offer"@, Endpoint::WebrtcOffer),
            line(Method::Post, "/webrtc/answer"@, Endpoint::WebrtcAnswer),
            line(Method::Post, "/webrtc/candidate"@, Endpoint::WebrtcCandidate),
        ],
{
    let mut table: Vec<RouteEntry> = Vec::new();
    table.push(RouteEntry { method: Method::Post, path: "/webrtc/offer", endpoint: Endpoint::WebrtcOffer });
    table.push(RouteEntry { method: Method::Post, path: "/webrtc/answer", endpoint: Endpoint::WebrtcAnswer });
    table.push(RouteEntry { method: Method::Post, path: "/webrtc/candidate", endpoint: Endpoint::WebrtcCandidate });
    assert(lines(table@) =~= seq![
        line(Method::Post, "/webrtc/offer"@, Endpoint::WebrtcOffer),
        line(Method::Post, "/webrtc/answer"@, Endpoint::WebrtcAnswer),
        line(Method::Post, "/webrtc/candidate"@, Endpoint::WebrtcCandidate),
    ]);
    table
}

} // verus!
