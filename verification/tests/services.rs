use connexa_server::api::AuthenticatedUser;
use connexa_server::auth::{
    authenticate, bearer_token, begin_auth, finish_auth, insecure_auth_allowed, AuthError, AuthStep, Claims,
};
use connexa_server::config::{parse_topics, Config};
use connexa_server::text::{find_char, trim_bounds};
use connexa_server::device::{
    complete_link, initiate_link, initiate_link_with, list_devices, unlink_device, CompleteLinkPayload, Device,
    DeviceError, InitiateLinkPayload,
};
use connexa_server::group::{
    create_group, create_group_with, get_group, invite_to_group, join_group, leave_group, remove_from_group,
    CreateGroupPayload, Group, GroupError, GroupType, InvitePayload,
};
use connexa_server::psi::{
    blind, blind_element, evaluate, evaluate_element, generate_server_oprf_key, unblind, BlindedElementPayload,
};
use connexa_server::routes::{
    app, device_router, federation_router, group_message_router, group_router, sfu_router, signaling_router,
    webrtc_router, Endpoint, Method, RouteEntry,
};
use connexa_server::sfu_api::{jitsi_claims, jitsi_claims_at, jitsi_claims_for, JitsiFeatures};
use connexa_server::signaling::{broadcast_to_room, find_room, join_room, signal_action, Room, SignalAction, SignalMessage};

fn s(text: &str) -> String {
    text.to_string()
}

fn groups() -> Vec<Group> {
    let mut groups = Vec::new();
    assert_eq!(create_group_with(&mut groups, 1, s("alice"), CreateGroupPayload { name: s("one") }, 10), 0);
    assert_eq!(create_group_with(&mut groups, 2, s("bob"), CreateGroupPayload { name: s("two") }, 20), 1);
    groups
}

#[test]
fn create_group_makes_the_creator_the_only_member() {
    let groups = groups();
    assert_eq!(
        groups[0],
        Group { id: 1, name: s("one"), created_at: 10, members: vec![s("alice")], group_type: GroupType::Private }
    );
    assert_eq!(groups[1].members, vec![s("bob")]);
}

#[test]
fn create_group_draws_a_fresh_id() {
    let mut groups = Vec::new();
    assert_eq!(create_group(&mut groups, s("alice"), CreateGroupPayload { name: s("a") }), 0);
    assert_eq!(create_group(&mut groups, s("alice"), CreateGroupPayload { name: s("b") }), 1);
    assert_ne!(groups[0].id, groups[1].id);
    assert_eq!(groups[1].name, "b");
    assert_eq!(groups[1].members, vec![s("alice")]);
    assert!(groups[0].created_at > 1_600_000_000);
}

#[test]
fn get_group_finds_or_reports() {
    let groups = groups();
    assert_eq!(get_group(&groups, 2), Ok(1));
    assert_eq!(get_group(&groups, 3), Err(GroupError::NotFound));
}

#[test]
fn invite_needs_a_member_and_adds_once() {
    let mut groups = groups();
    assert_eq!(
        invite_to_group(&mut groups, 1, &s("bob"), InvitePayload { user_id: s("carol") }),
        Err(GroupError::InviterNotMember)
    );
    assert_eq!(
        invite_to_group(&mut groups, 9, &s("alice"), InvitePayload { user_id: s("carol") }),
        Err(GroupError::NotFound)
    );
    assert_eq!(groups[0].members, vec![s("alice")]);
    assert_eq!(invite_to_group(&mut groups, 1, &s("alice"), InvitePayload { user_id: s("carol") }), Ok(0));
    assert_eq!(invite_to_group(&mut groups, 1, &s("carol"), InvitePayload { user_id: s("alice") }), Ok(0));
    assert_eq!(groups[0].members, vec![s("alice"), s("carol")]);
    assert_eq!(groups[1].members, vec![s("bob")]);
}

#[test]
fn join_adds_once() {
    let mut groups = groups();
    assert_eq!(join_group(&mut groups, 2, s("dave")), Ok(1));
    assert_eq!(join_group(&mut groups, 2, s("dave")), Ok(1));
    assert_eq!(join_group(&mut groups, 5, s("dave")), Err(GroupError::NotFound));
    assert_eq!(groups[1].members, vec![s("bob"), s("dave")]);
}

#[test]
fn leave_needs_membership() {
    let mut groups = groups();
    join_group(&mut groups, 1, s("bob")).unwrap();
    join_group(&mut groups, 1, s("carol")).unwrap();
    assert_eq!(leave_group(&mut groups, 1, &s("dave")), Err(GroupError::NotMember));
    assert_eq!(leave_group(&mut groups, 7, &s("bob")), Err(GroupError::NotFound));
    assert_eq!(leave_group(&mut groups, 1, &s("bob")), Ok(0));
    assert_eq!(groups[0].members, vec![s("alice"), s("carol")]);
    assert_eq!(leave_group(&mut groups, 1, &s("bob")), Err(GroupError::NotMember));
}

#[test]
fn remove_needs_two_members() {
    let mut groups = groups();
    join_group(&mut groups, 1, s("bob")).unwrap();
    let remove = |groups: &mut Vec<Group>, id: u128, by: &str, whom: &str| {
        remove_from_group(groups, id, &s(by), InvitePayload { user_id: s(whom) })
    };
    assert_eq!(remove(&mut groups, 3, "alice", "bob"), Err(GroupError::NotFound));
    assert_eq!(remove(&mut groups, 1, "carol", "bob"), Err(GroupError::RemoverNotMember));
    assert_eq!(remove(&mut groups, 1, "alice", "carol"), Err(GroupError::TargetNotMember));
    assert_eq!(groups[0].members, vec![s("alice"), s("bob")]);
    assert_eq!(remove(&mut groups, 1, "alice", "bob"), Ok(0));
    assert_eq!(groups[0].members, vec![s("alice")]);
}

#[test]
fn group_error_reasons() {
    assert_eq!(GroupError::NotFound.message(), "Group not found");
    assert_eq!(GroupError::InviterNotMember.message(), "Only group members can invite.");
    assert_eq!(GroupError::NotMember.message(), "You are not a member of this group.");
    assert_eq!(GroupError::RemoverNotMember.message(), "Only group members can remove.");
    assert_eq!(GroupError::TargetNotMember.message(), "User is not a member of this group.");
}

#[test]
fn test_device_linking_flow() {
    // Without token verification the bearer token is the caller's id.
    let user = match begin_auth(true, bearer_token("Bearer test-user")) {
        AuthStep::Accept(user) => user,
        _ => panic!("without verification a bearer token is the caller's id"),
    };
    let mut devices: Vec<Device> = Vec::new();

    let response = initiate_link(&mut devices, user.user_id.clone(), InitiateLinkPayload { device_name: s("Test Device") });
    let link_token = response.link_token;

    let at = complete_link(
        &mut devices,
        CompleteLinkPayload { link_token, device_name: s("Test Device") },
    )
    .expect("Failed to complete link");
    assert_eq!(devices[at].verified, true);

    let listed = list_devices(&devices, &user.user_id);
    let found = listed.iter().any(|&at| devices[at].verified == true && devices[at].name == "Test Device");
    assert!(found, "Linked device not found or not verified");
}

#[test]
fn device_linking_exact() {
    let mut devices: Vec<Device> = Vec::new();
    let response = initiate_link_with(
        &mut devices,
        11,
        s("token-1"),
        s("test-user"),
        InitiateLinkPayload { device_name: s("Test Device") },
        5,
    );
    assert_eq!(response.link_token, "token-1");
    assert_eq!(
        devices,
        vec![Device {
            id: 11,
            user_id: s("test-user"),
            name: s("Test Device"),
            added_at: 5,
            verified: false,
            link_token: Some(s("token-1")),
        }]
    );
    initiate_link_with(&mut devices, 12, s("token-2"), s("other"), InitiateLinkPayload { device_name: s("x") }, 6);

    assert_eq!(
        complete_link(&mut devices, CompleteLinkPayload { link_token: s("nope"), device_name: s("n") }),
        Err(DeviceError::InvalidLinkToken)
    );
    assert!(!devices[0].verified);
    assert_eq!(
        complete_link(&mut devices, CompleteLinkPayload { link_token: s("token-1"), device_name: s("Phone") }),
        Ok(0)
    );
    assert!(devices[0].verified);
    assert_eq!(devices[0].link_token, None);
    assert_eq!(devices[0].name, "Phone");
    assert_eq!(devices[0].id, 11);
    assert!(!devices[1].verified);
    // A token completes one linking only.
    assert_eq!(
        complete_link(&mut devices, CompleteLinkPayload { link_token: s("token-1"), device_name: s("again") }),
        Err(DeviceError::InvalidLinkToken)
    );

    assert_eq!(list_devices(&devices, &s("test-user")), vec![0]);
    assert_eq!(list_devices(&devices, &s("other")), vec![1]);
    assert_eq!(list_devices(&devices, &s("nobody")), Vec::<usize>::new());

    assert_eq!(unlink_device(&mut devices, &s("other"), 11), Err(DeviceError::NotFound));
    assert_eq!(unlink_device(&mut devices, &s("test-user"), 99), Err(DeviceError::NotFound));
    assert_eq!(devices.len(), 2);
    assert_eq!(unlink_device(&mut devices, &s("test-user"), 11), Ok(()));
    assert_eq!(devices.len(), 1);
    assert_eq!(devices[0].id, 12);
}

#[test]
fn initiate_link_draws_fresh_tokens() {
    let mut devices: Vec<Device> = Vec::new();
    let first = initiate_link(&mut devices, s("u"), InitiateLinkPayload { device_name: s("a") });
    let second = initiate_link(&mut devices, s("u"), InitiateLinkPayload { device_name: s("b") });
    assert_ne!(first.link_token, second.link_token);
    assert_eq!(first.link_token.len(), 36);
    assert_eq!(devices[0].link_token, Some(first.link_token));
    assert_ne!(devices[0].id, devices[1].id);
    assert_eq!(list_devices(&devices, &s("u")), vec![0, 1]);
}

#[test]
fn device_error_reasons() {
    assert_eq!(DeviceError::InvalidLinkToken.message(), "Invalid or expired link token");
    assert_eq!(DeviceError::NotFound.message(), "Device not found or not owned by user");
}

fn signal(to: &str, msg_type: &str, room: Option<&str>) -> SignalMessage {
    SignalMessage { from: s("alice"), to: s(to), msg_type: s(msg_type), payload: s("sdp"), room_id: room.map(s) }
}

#[test]
fn signals_go_where_they_name() {
    assert_eq!(signal_action(&signal("", "join", Some("r"))), SignalAction::Join { room: s("r") });
    assert_eq!(signal_action(&signal("bob", "offer", Some("r"))), SignalAction::Broadcast { room: s("r") });
    assert_eq!(signal_action(&signal("bob", "offer", None)), SignalAction::Direct { to: s("bob") });
    assert_eq!(signal_action(&signal("bob", "join", None)), SignalAction::Direct { to: s("bob") });
    assert_eq!(signal_action(&signal("", "ice", None)), SignalAction::Ignore);
}

#[test]
fn rooms_hold_each_user_once() {
    let mut rooms: Vec<Room> = Vec::new();
    join_room(&mut rooms, "r", "alice");
    join_room(&mut rooms, "r", "bob");
    join_room(&mut rooms, "q", "carol");
    join_room(&mut rooms, "r", "alice");
    assert_eq!(
        rooms,
        vec![Room { id: s("r"), users: vec![s("alice"), s("bob")] }, Room { id: s("q"), users: vec![s("carol")] }]
    );
    assert_eq!(find_room(&rooms, &s("q")), Some(1));
    assert_eq!(find_room(&rooms, &s("z")), None);
}

#[test]
fn broadcast_reaches_everyone_but_the_sender() {
    let mut rooms: Vec<Room> = Vec::new();
    join_room(&mut rooms, "r", "alice");
    join_room(&mut rooms, "r", "bob");
    join_room(&mut rooms, "r", "carol");
    assert_eq!(broadcast_to_room(&rooms, "r", "bob"), vec![s("alice"), s("carol")]);
    assert_eq!(broadcast_to_room(&rooms, "r", "dave"), vec![s("alice"), s("bob"), s("carol")]);
    assert_eq!(broadcast_to_room(&rooms, "none", "bob"), Vec::<String>::new());
}

#[test]
fn psi_evaluation_commutes() {
    let server = generate_server_oprf_key();
    assert_ne!(server, generate_server_oprf_key());
    let (client_secret, blinded) = blind(b"element");
    let (other_secret, other_blinded) = blind(b"element");
    assert_ne!(client_secret, other_secret);
    assert_ne!(blinded, other_blinded);
    let evaluated = evaluate(&server, &blinded);
    assert_ne!(evaluated, blinded);
    assert_eq!(evaluate_element(&server, BlindedElementPayload { element: blinded }).element, evaluated);
    // Both orders of applying the two secrets give the same element.
    let other_evaluated = evaluate(&server, &other_blinded);
    assert_eq!(unblind(&client_secret, &other_evaluated), unblind(&other_secret, &evaluated));
    let answer = blind_element(BlindedElementPayload { element: [3u8; 32] });
    assert_ne!(answer.element, [3u8; 32]);
}

#[test]
fn bearer_token_is_what_follows_the_scheme() {
    assert_eq!(bearer_token("Bearer abc.def"), Some(s("abc.def")));
    assert_eq!(bearer_token("Bearer "), Some(String::new()));
    assert_eq!(bearer_token("Bearer"), None);
    assert_eq!(bearer_token("bearer abc"), None);
    assert_eq!(bearer_token("Basic abc"), None);
    assert_eq!(bearer_token(""), None);
    assert_eq!(bearer_token("Bearer  two"), Some(s(" two")));
    assert_eq!(bearer_token("Bearer héllo"), Some(s("héllo")));
}

#[test]
fn principal_is_the_subject() {
    let user: AuthenticatedUser = authenticate(Claims { sub: s("test-user"), exp: 4_000_000_000 });
    assert_eq!(user.user_id, "test-user");
}

#[test]
fn call_token_claims_exact() {
    let claims = jitsi_claims_at("u1", "test_user", "", "test_user@example.com", 1_000_000);
    assert_eq!(claims.aud, "jitsi");
    assert_eq!(claims.iss, "connexa");
    assert_eq!(claims.sub, "*");
    assert_eq!(claims.exp, 1_010_800);
    assert_eq!(claims.nbf, 999_940);
    assert_eq!(claims.context.user.id, "u1");
    assert_eq!(claims.context.user.name, "test_user");
    assert_eq!(claims.context.user.avatar, "");
    assert_eq!(claims.context.user.email, "test_user@example.com");
    assert_eq!(
        claims.context.features,
        JitsiFeatures { livestreaming: true, recording: true, transcription: true, outbound_call: true }
    );
    let edge = jitsi_claims_at("u", "n", "a", "e", i64::MAX - 10800);
    assert_eq!(edge.exp, i64::MAX);
    let low = jitsi_claims_at("u", "n", "a", "e", i64::MIN + 60);
    assert_eq!(low.nbf, i64::MIN);
}

#[test]
fn call_token_claims_for_every_instant() {
    let claims = jitsi_claims_for("u1", "n", "a", "e", 1_000_000).expect("an instant near the epoch is in range");
    assert_eq!(claims.exp, 1_010_800);
    assert_eq!(claims.nbf, 999_940);
    assert_eq!(claims.context.user.id, "u1");
    assert_eq!(claims.context.user.email, "e");
    assert_eq!(jitsi_claims_for("u", "n", "a", "e", i64::MAX - 10800).map(|c| c.exp), Some(i64::MAX));
    assert_eq!(jitsi_claims_for("u", "n", "a", "e", i64::MIN + 60).map(|c| c.nbf), Some(i64::MIN));
    assert!(jitsi_claims_for("u", "n", "a", "e", i64::MAX - 10799).is_none());
    assert!(jitsi_claims_for("u", "n", "a", "e", i64::MAX).is_none());
    assert!(jitsi_claims_for("u", "n", "a", "e", i64::MIN + 59).is_none());
    assert!(jitsi_claims_for("u", "n", "a", "e", i64::MIN).is_none());
}

#[test]
fn call_token_claims_now() {
    let claims = jitsi_claims("u1", "n", "a", "e").expect("the clock shows a time near the present");
    assert_eq!(claims.exp - claims.nbf, 10860);
    assert!(claims.nbf > 1_600_000_000);
    assert_eq!(claims.context.user.id, "u1");
}

#[test]
fn routing_tables() {
    let entry = |method, path, endpoint| RouteEntry { method, path, endpoint };
    assert_eq!(sfu_router(), vec![entry(Method::Get, "/sfu/token", Endpoint::SfuToken)]);
    assert_eq!(
        webrtc_router(),
        vec![
            entry(Method::Post, "/webrtc/offer", Endpoint::WebrtcOffer),
            entry(Method::Post, "/webrtc/answer", Endpoint::WebrtcAnswer),
            entry(Method::Post, "/webrtc/candidate", Endpoint::WebrtcCandidate),
        ]
    );
    assert_eq!(
        app(),
        vec![
            entry(Method::Post, "/message", Endpoint::PostMessage),
            entry(Method::Get, "/messages/:recipient_id", Endpoint::GetMessages),
            entry(Method::Post, "/media/upload", Endpoint::UploadMedia),
            entry(Method::Get, "/media/download/:hash", Endpoint::DownloadMedia),
            entry(Method::Post, "/psi/blind", Endpoint::BlindElement),
            entry(Method::Post, "/psi/evaluate", Endpoint::EvaluateElement),
        ]
    );
    assert_eq!(
        federation_router(),
        vec![
            entry(Method::Post, "/federation/register", Endpoint::RegisterServer),
            entry(Method::Post, "/federation/message", Endpoint::FederationMessage),
        ]
    );
    assert_eq!(group_router().len(), 6);
    assert_eq!(group_router()[3], entry(Method::Post, "/group/:group_id/join", Endpoint::JoinGroup));
    assert_eq!(
        group_message_router(),
        vec![
            entry(Method::Post, "/group/:group_id/message", Endpoint::SendGroupMessage),
            entry(Method::Post, "/group/:group_id/receive", Endpoint::ReceiveGroupMessage),
        ]
    );
    assert_eq!(device_router()[3], entry(Method::Delete, "/device/:device_id", Endpoint::UnlinkDevice));
    assert_eq!(device_router().len(), 4);
    assert_eq!(signaling_router(), vec![entry(Method::Get, "/signaling", Endpoint::Signaling)]);
}

#[test]
fn insecure_mode_is_switched_by_its_setting() {
    assert!(insecure_auth_allowed(Some("1")));
    assert!(insecure_auth_allowed(Some("true")));
    assert!(insecure_auth_allowed(Some("TRUE")));
    assert!(insecure_auth_allowed(Some("True")));
    assert!(!insecure_auth_allowed(Some("0")));
    assert!(!insecure_auth_allowed(Some("yes")));
    assert!(!insecure_auth_allowed(Some("")));
    assert!(!insecure_auth_allowed(Some(" true")));
    assert!(!insecure_auth_allowed(None));
}

#[test]
fn authentication_steps() {
    match begin_auth(true, Some(s("anything"))) {
        AuthStep::Accept(user) => assert_eq!(user.user_id, "anything"),
        _ => panic!("without verification a bearer token is the caller's id"),
    }
    match begin_auth(true, None) {
        AuthStep::Accept(user) => assert_eq!(user.user_id, "test-user"),
        _ => panic!("without verification a caller without a token is the test user"),
    }
    match begin_auth(false, None) {
        AuthStep::Reject(e) => {
            assert_eq!(e, AuthError::MissingHeader);
            assert_eq!(e.message(), "Missing or invalid Authorization header");
        }
        _ => panic!("with verification a request without a token is refused"),
    }
    match begin_auth(false, Some(s("a.b.c"))) {
        AuthStep::Verify { token } => assert_eq!(token, "a.b.c"),
        _ => panic!("with verification a token is verified"),
    }
    match finish_auth(Ok(Claims { sub: s("bob"), exp: 1 })) {
        Ok(user) => assert_eq!(user.user_id, "bob"),
        Err(_) => panic!("verified claims give a principal"),
    }
    match finish_auth(Err(s("ExpiredSignature"))) {
        Err(e) => assert_eq!(e.message(), "Invalid token: ExpiredSignature"),
        Ok(_) => panic!("a token that did not verify is refused"),
    }
}

#[test]
fn topics_are_split_trimmed_and_filtered() {
    assert_eq!(parse_topics("connexa-cover-traffic"), vec![s("connexa-cover-traffic")]);
    assert_eq!(parse_topics("a,b"), vec![s("a"), s("b")]);
    assert_eq!(parse_topics(" a , b\t,,  ,c "), vec![s("a"), s("b"), s("c")]);
    assert_eq!(parse_topics(""), Vec::<String>::new());
    assert_eq!(parse_topics(",,,"), Vec::<String>::new());
    assert_eq!(parse_topics("a b , c"), vec![s("a b"), s("c")]);
    assert_eq!(parse_topics("\u{a0}x\u{2003},é"), vec![s("x"), s("é")]);
    assert_eq!(parse_topics("a,"), vec![s("a")]);
}

#[test]
fn config_defaults_and_overrides() {
    let defaults = Config::from_values(None, None, None, None);
    assert_eq!(
        defaults,
        Config {
            database_url: s("sqlite:connexa.db"),
            http_addr: s("127.0.0.1:3000"),
            p2p_listen: s("/ip4/0.0.0.0/tcp/0"),
            gossip_topics: vec![s("connexa-cover-traffic")],
        }
    );
    let set = Config::from_values(Some(s("sqlite::memory:")), Some(s("0.0.0.0:80")), Some(s("/ip4/1.2.3.4/tcp/9")), Some(s("x, y")));
    assert_eq!(
        set,
        Config {
            database_url: s("sqlite::memory:"),
            http_addr: s("0.0.0.0:80"),
            p2p_listen: s("/ip4/1.2.3.4/tcp/9"),
            gossip_topics: vec![s("x"), s("y")],
        }
    );
}

#[test]
fn text_search_and_trim() {
    assert_eq!(find_char("a@b@c", '@', 0), 1);
    assert_eq!(find_char("a@b@c", '@', 2), 3);
    assert_eq!(find_char("a@b@c", '@', 4), 5);
    assert_eq!(find_char("é@", '@', 0), 1);
    assert_eq!(trim_bounds("  ab  ", 0, 6), (2, 4));
    assert_eq!(trim_bounds("  ab  ", 1, 3), (2, 3));
    assert_eq!(trim_bounds("    ", 0, 4), (4, 4));
    assert_eq!(trim_bounds("ab", 0, 2), (0, 2));
    assert_eq!(trim_bounds("ab", 1, 1), (1, 1));
}
