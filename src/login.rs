//! The device-authorization handshake: the request's parameters, and what the
//! platform's answer means.
use vstd::prelude::*;
use crate::json::{json_i64_member, json_str_member, opt_str_view, i64_member, str_member};
use crate::records::{stored_device_auth, DeviceAuthBinary, DeviceAuthView};
use crate::store::{store_error_text, StoreError};

verus! {

/// The key under which the live session is stored, in the `Config` category.
pub const DEVICE_AUTH_FILE_NAME: &'static str = "devauth";

/// What the login flow knows of the device-authorization state.
pub enum DeviceAuthStatus {
    /// A session has been issued and stored.
    Authorized(DeviceAuthBinary),
    /// The user has not confirmed the code yet.
    Pending(String),
    /// The device code has expired.
    InvalidCode(String),
    /// The stored refresh token was refused.
    InvalidRefreshToken(String),
}

/// Why a device-authorization attempt failed.
#[derive(Clone, Debug)]
pub enum AuthError {
    /// The request did not reach the platform, or its answer was cut off.
    Transport(String),
    /// The platform refused the request, with its description.
    InvalidRequest(String),
    /// The platform answered with a status that is not handled.
    UnexpectedStatus(u16),
    /// The answer did not hold a well-formed session.
    Json,
    /// The session could not be stored.
    Store(StoreError),
}

pub open spec fn digit(d: nat) -> char {
    seq!['0', '1', '2', '3', '4', '5', '6', '7', '8', '9'][d as int]
}

/// The decimal digits of `n`, most significant first.
pub open spec fn decimal(n: nat) -> Seq<char>
    decreases n,
{
    if n < 10 {
        seq![digit(n)]
    } else {
        decimal(n / 10).push(digit(n % 10))
    }
}

pub open spec fn unexpected_status_prefix() -> Seq<char> {
    "Unexpected response status: "@
}

pub open spec fn unknown_error() -> Seq<char> {
    "Unknown Error"@
}

/// The message of an answer with an unhandled status.
pub open spec fn unexpected_status_text(code: u16) -> Seq<char> {
    unexpected_status_prefix() + decimal(code as nat)
}

/// Relies on std's `Display` for `u16` (through `format!`): the decimal digits of `n`.
#[verifier::external_body]
fn decimal_text(n: u16) -> (r: String)
    ensures
        r@ == decimal(n as nat),
{
    format!("{}", n)
}

/// The human-readable text of each error of the flow.
pub open spec fn auth_error_text(e: AuthError) -> Seq<char> {
    match e {
        AuthError::Transport(m) => m@,
        AuthError::InvalidRequest(d) => d@,
        AuthError::UnexpectedStatus(c) => unexpected_status_text(c),
        AuthError::Json => "The answer does not hold a device-authorization session"@,
        AuthError::Store(e) => store_error_text(e),
    }
}

impl AuthError {
    /// The human-readable message that the flow reports to its caller.
    pub fn message(&self) -> (r: String)
        ensures
            r@ == auth_error_text(*self),
    {
        match self {
            AuthError::Transport(m) => m.clone(),
            AuthError::InvalidRequest(d) => d.clone(),
            AuthError::UnexpectedStatus(c) => {
                let mut m = "Unexpected response status: ".to_owned();
                let d = decimal_text(*c);
                m.append(d.as_str());
                m
            },
            AuthError::Json => "The answer does not hold a device-authorization session".to_owned(),
            AuthError::Store(e) => e.message(),
        }
    }
}

/// The session described by the answer's members, when all are present and
/// both durations are positive and fit their fields.
pub open spec fn session_of(
    dc: Option<Seq<char>>,
    exp: Option<i64>,
    ival: Option<i64>,
    uc: Option<Seq<char>>,
    vu: Option<Seq<char>>,
) -> Option<DeviceAuthView> {
    if dc is Some && exp is Some && ival is Some && uc is Some && vu is Some && 0 < exp->0
        && exp->0 <= i32::MAX && 0 < ival->0 {
        Some(
            DeviceAuthView {
                device_code: dc->0,
                expires_in: exp->0 as i32,
                interval: ival->0,
                user_code: uc->0,
                verification_uri: vu->0,
                has_verified: true,
            },
        )
    } else {
        None
    }
}

/// The session that an accepted answer `body` describes.
pub open spec fn session_in(body: Seq<char>) -> Option<DeviceAuthView> {
    session_of(
        json_str_member(body, "device_code"@),
        json_i64_member(body, "expires_in"@),
        json_i64_member(body, "interval"@),
        json_str_member(body, "user_code"@),
        json_str_member(body, "verification_uri"@),
    )
}

/// `r` is the outcome of an answer with the given status and body.
pub open spec fn outcome_of(status: u16, body: Seq<char>, r: Result<DeviceAuthBinary, AuthError>) -> bool {
    if status == 200 {
        match session_in(body) {
            Some(v) => r matches Ok(s) && s@ == v,
            None => r matches Err(AuthError::Json),
        }
    } else if status == 400 {
        r matches Err(AuthError::InvalidRequest(d)) && d@ == rejection_text(
            json_str_member(body, "error_description"@),
        )
    } else {
        r matches Err(AuthError::UnexpectedStatus(c)) && c == status
    }
}

/// The description of a refused request: the platform's, or a generic one.
pub open spec fn rejection_text(description: Option<Seq<char>>) -> Seq<char> {
    match description {
        Some(d) => d,
        None => unknown_error(),
    }
}

/// The session built from the members of an accepted answer; it is marked as
/// verified, since it is stored as soon as it is issued.
pub fn session_from_fields(
    dc: Option<String>,
    exp: Option<i64>,
    ival: Option<i64>,
    uc: Option<String>,
    vu: Option<String>,
) -> (r: Result<DeviceAuthBinary, AuthError>)
    ensures
        match session_of(opt_str_view(dc), exp, ival, opt_str_view(uc), opt_str_view(vu)) {
            Some(v) => r matches Ok(s) && s@ == v,
            None => r matches Err(AuthError::Json),
        },
{
    match (dc, exp, ival, uc, vu) {
        (Some(dc), Some(exp), Some(ival), Some(uc), Some(vu)) => {
            if 0 < exp && exp <= i32::MAX as i64 && 0 < ival {
                Ok(DeviceAuthBinary::new(dc, exp as i32, ival, uc, vu, true))
            } else {
                Err(AuthError::Json)
            }
        },
        _ => Err(AuthError::Json),
    }
}

/// The error for a refused request, from the description found in its body.
pub fn rejection(description: Option<String>) -> (r: AuthError)
    ensures
        r matches AuthError::InvalidRequest(d) && d@ == rejection_text(opt_str_view(description)),
{
    match description {
        Some(d) => AuthError::InvalidRequest(d),
        None => {
            let d = "Unknown Error".to_owned();
            AuthError::InvalidRequest(d)
        },
    }
}

/// What an answer to the device-authorization request means: a session on
/// 200, the platform's description on 400, the status otherwise.
pub fn device_auth_outcome(status: u16, body: &str) -> (r: Result<DeviceAuthBinary, AuthError>)
    ensures
        outcome_of(status, body@, r),
{
    if status == 200 {
        let dc = str_member(body, "device_code");
        let exp = i64_member(body, "expires_in");
        let ival = i64_member(body, "interval");
        let uc = str_member(body, "user_code");
        let vu = str_member(body, "verification_uri");
        session_from_fields(dc, exp, ival, uc, vu)
    } else if status == 400 {
        Err(rejection(str_member(body, "error_description")))
    } else {
        Err(AuthError::UnexpectedStatus(status))
    }
}

/// The session that an answer issues, with the bytes to store under
/// `DEVICE_AUTH_FILE_NAME` before the first poll.
pub fn issue_session(status: u16, body: &str) -> (r: Result<(DeviceAuthBinary, Vec<u8>), AuthError>)
    ensures
        match r {
            Ok((s, b)) => outcome_of(status, body@, Ok(s)) && s.has_verified && b@
                == stored_device_auth(s@),
            Err(e) => outcome_of(status, body@, Err(e)),
        },
{
    match device_auth_outcome(status, body) {
        Ok(s) => {
            let b = s.to_bytes();
            Ok((s, b.unwrap()))
        },
        Err(e) => Err(e),
    }
}

/// Every session that an accepted answer issues is the one its members
/// describe, and is marked as verified.
pub proof fn law_issued_session_is_verified(body: Seq<char>)
    requires
        session_in(body) is Some,
    ensures
        session_in(body)->0.has_verified,
        forall|s: DeviceAuthBinary|
            #![trigger outcome_of(200, body, Ok(s))]
            outcome_of(200, body, Ok(s)) ==> s@ == session_in(body)->0 && s.has_verified,
{
}

/// What the login asks for: the application's client id and the scopes it requests.
#[derive(Clone, Debug)]
pub struct AuthConfig {
    pub client_id: String,
    pub scopes: Vec<String>,
}

/// The scopes joined by single spaces.
pub open spec fn space_joined(s: Seq<Seq<char>>) -> Seq<char>
    decreases s.len(),
{
    if s.len() == 0 {
        Seq::empty()
    } else if s.len() == 1 {
        s[0]
    } else {
        space_joined(s.drop_last()) + seq![' '] + s.last()
    }
}

impl AuthConfig {
    /// The `scope` parameter of the requests: the scopes joined by single spaces.
    pub fn scope_param(&self) -> (r: String)
        ensures
            r@ == space_joined(self.scopes@.map_values(|s: String| s@)),
    {
        let ghost views = self.scopes@.map_values(|s: String| s@);
        let mut out = String::new();
        let mut i: usize = 0;
        while i < self.scopes.len()
            invariant
                i <= self.scopes@.len(),
                views == self.scopes@.map_values(|s: String| s@),
                out@ == space_joined(views.subrange(0, i as int)),
            decreases self.scopes@.len() - i,
        {
            proof {
                reveal_strlit(" ");
                assert(views.subrange(0, i + 1).drop_last() =~= views.subrange(0, i as int));
            }
            if i > 0 {
                out.append(" ");
            }
            out.append(self.scopes[i].as_str());
            assert(out@ =~= space_joined(views.subrange(0, i + 1)));
            i += 1;
        }
        assert(views.subrange(0, i as int) =~= views);
        out
    }
}

} // verus!
