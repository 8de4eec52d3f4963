//! Call tokens: the claims of a token that admits a user to a call.

use vstd::prelude::*;
use crate::clock::unix_now;

verus! {

/// How long a call token is valid, in seconds.
pub const TOKEN_LIFETIME: i64 = 10800;

/// How far before its issue a call token is already valid, in seconds.
pub const TOKEN_LEEWAY: i64 = 60;

/// The user that a call token is issued to.
pub struct JitsiUser {
    pub id: String,
    pub name: String,
    pub avatar: String,
    pub email: String,
}

/// What a call token allows.
#[derive(Clone, Copy, Debug, PartialEq, Eq)]
pub struct JitsiFeatures {
    pub livestreaming: bool,
    pub recording: bool,
    pub transcription: bool,
    pub outbound_call: bool,
}

/// The context of a call token.
pub struct JitsiContext {
    pub user: JitsiUser,
    pub features: JitsiFeatures,
}

/// The claims of a call token.
pub struct JitsiClaims {
    pub aud: String,
    pub iss: String,
    pub sub: String,
    pub exp: i64,
    pub nbf: i64,
    pub context: JitsiContext,
}

/// The claims of a call token issued to a user at time `now`: valid from a
/// minute before `now` until three hours after it, for every room, with every
/// feature allowed.
pub fn jitsi_claims_at(user_id: &str, user_name: &str, user_avatar: &str, user_email: &str, now: i64) -> (claims: JitsiClaims)
    requires
        i64::MIN + TOKEN_LEEWAY <= now <= i64::MAX - TOKEN_LIFETIME,
    ensures
        claims.aud@ == "jitsi"@,
        claims.iss@ == "connexa"@,
        claims.sub@ == "*"@,
        claims.exp == now + TOKEN_LIFETIME,
        claims.nbf == now - TOKEN_LEEWAY,
        claims.context.user.id@ == user_id@,
        claims.context.user.name@ == user_name@,
        claims.context.user.avatar@ == user_avatar@,
        claims.context.user.email@ == user_email@,
        claims.context.features == (JitsiFeatures {
            livestreaming: true,
            recording: true,
            transcription: true,
            outbound_call: true,
        }),
{
    JitsiClaims {
        aud: "jitsi".to_owned(),
        iss: "connexa".to_owned(),
        sub: "*".to_owned(),
        exp: now + TOKEN_LIFETIME,
        nbf: now - TOKEN_LEEWAY,
        context: JitsiContext {
            user: JitsiUser {
                id: user_id.to_owned(),
                name: user_name.to_owned(),
                avatar: user_avatar.to_owned(),
                email: user_email.to_owned(),
            },
            features: JitsiFeatures { livestreaming: true, recording: true, transcription: true, outbound_call: true },
        },
    }
}

/// The claims of a call token issued to a user now; `None` where the clock
/// shows a time so far from the epoch that the token's validity cannot be
/// written down. Whatever the clock shows, it decides the result as `issues`.
pub fn jitsi_claims(user_id: &str, user_name: &str, user_avatar: &str, user_email: &str) -> (claims: Option<JitsiClaims>)
    ensures
        exists|now: i64| #[trigger] issues(claims, user_id@, user_name@, user_avatar@, user_email@, now),
{
    let now = unix_now();
    jitsi_claims_for(user_id, user_name, user_avatar, user_email, now)
}

/// Whether the validity of a token issued at `now` can be written down: both
/// of its ends are instants that the clock can show.
pub open spec fn issuable(now: i64) -> bool {
    i64::MIN + TOKEN_LEEWAY <= now <= i64::MAX - TOKEN_LIFETIME
}

/// Whether `claims` are the claims of a call token issued to the given user at
/// `now`: valid from a minute before `now` until three hours after it, for
/// every room, with every feature allowed.
pub open spec fn issued_to(
    claims: JitsiClaims,
    user_id: Seq<char>,
    user_name: Seq<char>,
    user_avatar: Seq<char>,
    user_email: Seq<char>,
    now: i64,
) -> bool {
    &&& claims.aud@ == "jitsi"@
    &&& claims.iss@ == "connexa"@
    &&& claims.sub@ == "*"@
    &&& claims.exp == now + TOKEN_LIFETIME
    &&& claims.nbf == now - TOKEN_LEEWAY
    &&& claims.context.user.id@ == user_id
    &&& claims.context.user.name@ == user_name
    &&& claims.context.user.avatar@ == user_avatar
    &&& claims.context.user.email@ == user_email
    &&& claims.context.features == (JitsiFeatures {
        livestreaming: true,
        recording: true,
        transcription: true,
        outbound_call: true,
    })
}

/// Whether `outcome` is what issuing a call token to the given user at `now`
/// gives: the claims where the validity can be written down, else nothing.
pub open spec fn issues(
    outcome: Option<JitsiClaims>,
    user_id: Seq<char>,
    user_name: Seq<char>,
    user_avatar: Seq<char>,
    user_email: Seq<char>,
    now: i64,
) -> bool {
    match outcome {
        Some(claims) => issuable(now) && issued_to(claims, user_id, user_name, user_avatar, user_email, now),
        None => !issuable(now),
    }
}

/// The claims of a call token issued to a user at time `now`, for every
/// `now`: `None` exactly where the token's validity cannot be written down.
pub fn jitsi_claims_for(user_id: &str, user_name: &str, user_avatar: &str, user_email: &str, now: i64) -> (claims: Option<JitsiClaims>)
    ensures
        issues(claims, user_id@, user_name@, user_avatar@, user_email@, now),
{
    if i64::MIN + TOKEN_LEEWAY <= now && now <= i64::MAX - TOKEN_LIFETIME {
        Some(jitsi_claims_at(user_id, user_name, user_avatar, user_email, now))
    } else {
        None
    }
}

} // verus!
