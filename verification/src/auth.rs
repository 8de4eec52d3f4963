//! Authentication at the boundary: the bearer token of a request and the
//! principal that verified claims stand for.

use vstd::prelude::*;
use vstd::string::StringExecFns;
use crate::api::AuthenticatedUser;
use crate::text::{lowercase, to_lowercase};

verus! {

/// The claims of a verified token.
#[derive(Clone, Debug, PartialEq, Eq)]
pub struct Claims {
    /// The subject: the id of the user or device.
    pub sub: String,
    /// Seconds since the epoch at which the token expires.
    pub exp: usize,
}

/// The token of an `Authorization` header: what follows `Bearer `. A header
/// that does not start so has none.
pub open spec fn bearer_of(header: Seq<char>) -> Option<Seq<char>> {
    if header.len() >= 7 && header.take(7) == "Bearer "@ {
        Some(header.skip(7))
    } else {
        None
    }
}

/// The token of an `Authorization` header.
pub fn bearer_token(header: &str) -> (token: Option<String>)
    ensures
        match token {
            Some(t) => bearer_of(header@) == Some(t@),
            None => bearer_of(header@).is_none(),
        },
{
    let prefix = "Bearer ";
    proof {
        reveal_strlit("Bearer ");
    }
    let len = header.unicode_len();
    if len < 7 {
        return None;
    }
    let mut i: usize = 0;
    while i < 7
        invariant
            i <= 7,
            len == header@.len(),
            len >= 7,
            prefix@ == "Bearer "@,
            prefix@.len() == 7,
            forall|k: int| 0 <= k < i ==> header@[k] == prefix@[k],
        decreases 7 - i,
    {
        if header.get_char(i) != prefix.get_char(i) {
            assert(header@.take(7)[i as int] != prefix@[i as int]);
            return None;
        }
        i += 1;
    }
    assert(header@.take(7) =~= prefix@);
    let rest = header.substring_char(7, len);
    assert(rest@ =~= header@.skip(7));
    Some(String::from_str(rest))
}

/// The principal that verified claims stand for: their subject.
pub fn authenticate(claims: Claims) -> (user: AuthenticatedUser)
    ensures
        user.user_id@ == claims.sub@,
{
    AuthenticatedUser { user_id: claims.sub }
}

/// Why a request was not authenticated.
#[derive(Clone, Debug, PartialEq, Eq)]
pub enum AuthError {
    /// The request carries no bearer token.
    MissingHeader,
    /// The token did not verify, for the reason given.
    InvalidToken { reason: String },
}

impl AuthError {
    /// The reason in words.
    pub fn message(&self) -> (text: String)
        ensures
            text@ == match self {
                AuthError::MissingHeader => "Missing or invalid Authorization header"@,
                AuthError::InvalidToken { reason } => "Invalid token: "@ + reason@,
            },
    {
        match self {
            AuthError::MissingHeader => "Missing or invalid Authorization header".to_owned(),
            AuthError::InvalidToken { reason } => String::from_str("Invalid token: ").concat(reason.as_str()),
        }
    }
}

/// What is to be done with a request's credentials.
pub enum AuthStep {
    /// The caller is taken as this principal.
    Accept(AuthenticatedUser),
    /// The request is refused.
    Reject(AuthError),
    /// The token is to be verified; its claims decide.
    Verify { token: String },
}

/// Whether a setting switches token verification off: it does where it is
/// `1` or, in any case of letters, `true`.
pub open spec fn allows_insecure(value: Option<Seq<char>>) -> bool {
    match value {
        Some(v) => v == "1"@ || lowercase(v) == "true"@,
        None => false,
    }
}

/// The text of an optional setting.
pub open spec fn text_view(value: Option<&str>) -> Option<Seq<char>> {
    match value {
        Some(v) => Some(v@),
        None => None,
    }
}

/// Whether a setting switches token verification off.
pub fn insecure_auth_allowed(value: Option<&str>) -> (allowed: bool)
    ensures
        allowed == allows_insecure(text_view(value)),
{
    match value {
        Some(v) => v.to_owned() == "1".to_owned() || to_lowercase(v) == "true".to_owned(),
        None => false,
    }
}

/// The first step of authentication. Without verification any bearer token
/// is taken as the caller's id, and a caller without one is the test user.
/// With verification a request without a bearer token is refused, and a
/// token goes on to be verified.
pub fn begin_auth(insecure: bool, bearer: Option<String>) -> (step: AuthStep)
    ensures
        match step {
            AuthStep::Accept(user) => insecure && user.user_id@ == (match bearer {
                Some(token) => token@,
                None => "test-user"@,
            }),
            AuthStep::Reject(e) => !insecure && bearer.is_none() && e == AuthError::MissingHeader,
            AuthStep::Verify { token } => !insecure && bearer == Some(token),
        },
{
    if insecure {
        match bearer {
            Some(token) => AuthStep::Accept(AuthenticatedUser { user_id: token }),
            None => AuthStep::Accept(AuthenticatedUser { user_id: "test-user".to_owned() }),
        }
    } else {
        match bearer {
            Some(token) => AuthStep::Verify { token },
            None => AuthStep::Reject(AuthError::MissingHeader),
        }
    }
}

/// The last step of authentication: verified claims give their subject as
/// the principal, and a token that did not verify is refused with the reason.
pub fn finish_auth(decoded: Result<Claims, String>) -> (outcome: Result<AuthenticatedUser, AuthError>)
    ensures
        match decoded {
            Ok(claims) => outcome matches Ok(user) && user.user_id@ == claims.sub@,
            Err(reason) => outcome == Err::<AuthenticatedUser, AuthError>(AuthError::InvalidToken { reason }),
        },
{
    match decoded {
        Ok(claims) => Ok(authenticate(claims)),
        Err(reason) => Err(AuthError::InvalidToken { reason }),
    }
}

} // verus!
