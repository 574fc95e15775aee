//! The token exchange: what an answer of the token endpoint means.
use vstd::prelude::*;
use crate::json::{
    json_str_list_member, json_str_member, json_u64_member, opt_list_view, opt_str_view,
    str_list_member, str_member, u64_member,
};
use crate::records::{AppConfigFile, AppConfigView};

verus! {

/// The grant type that identifies the device-code flow at the token endpoint.
pub const DEVICE_CODE_GRANT_TYPE: &'static str = "urn:ietf:params:oauth:grant-type:device_code";

/// Why a token exchange did not give a token.
#[derive(Clone, Debug)]
pub enum TwitchTokenError {
    /// The request did not reach the platform, or its answer was cut off.
    RequestError(String),
    /// A successful answer did not hold a token.
    JsonError,
    /// The platform refused the exchange; the body of its answer.
    ApiError(String),
}

/// The token pair granted by the platform.
#[derive(Clone, Debug)]
pub struct TwitchAccessToken {
    pub access_token: String,
    pub refresh_token: String,
    pub expires_in: u64,
    pub token_type: String,
}

/// `r` holds the token described by the given members, or `JsonError` when one is missing.
pub open spec fn token_fields_give(
    at: Option<Seq<char>>,
    rt: Option<Seq<char>>,
    exp: Option<u64>,
    tt: Option<Seq<char>>,
    r: Result<TwitchAccessToken, TwitchTokenError>,
) -> bool {
    if at is Some && rt is Some && exp is Some && tt is Some {
        r matches Ok(t) && t.access_token@ == at->0 && t.refresh_token@ == rt->0 && t.expires_in
            == exp->0 && t.token_type@ == tt->0
    } else {
        r matches Err(TwitchTokenError::JsonError)
    }
}

/// `r` is what an answer of the token endpoint means: the token of a successful
/// answer, the body of a refusal.
pub open spec fn token_outcome(success: bool, body: Seq<char>, r: Result<TwitchAccessToken, TwitchTokenError>) -> bool {
    if success {
        token_fields_give(
            json_str_member(body, "access_token"@),
            json_str_member(body, "refresh_token"@),
            json_u64_member(body, "expires_in"@),
            json_str_member(body, "token_type"@),
            r,
        )
    } else {
        r matches Err(TwitchTokenError::ApiError(m)) && m@ == body
    }
}

/// The token built from the members of a successful answer.
pub fn token_from_fields(
    at: Option<String>,
    rt: Option<String>,
    exp: Option<u64>,
    tt: Option<String>,
) -> (r: Result<TwitchAccessToken, TwitchTokenError>)
    ensures
        token_fields_give(opt_str_view(at), opt_str_view(rt), exp, opt_str_view(tt), r),
{
    match (at, rt, exp, tt) {
        (Some(at), Some(rt), Some(exp), Some(tt)) => Ok(
            TwitchAccessToken { access_token: at, refresh_token: rt, expires_in: exp, token_type: tt },
        ),
        _ => Err(TwitchTokenError::JsonError),
    }
}

/// What an answer of the token endpoint means: `success` is whether its
/// status was a success, `body` its text.
pub fn token_from_response(success: bool, body: &str) -> (r: Result<TwitchAccessToken, TwitchTokenError>)
    ensures
        token_outcome(success, body@, r),
{
    if success {
        let at = str_member(body, "access_token");
        let rt = str_member(body, "refresh_token");
        let exp = u64_member(body, "expires_in");
        let tt = str_member(body, "token_type");
        token_from_fields(at, rt, exp, tt)
    } else {
        Err(TwitchTokenError::ApiError(body.to_owned()))
    }
}

/// The granted scopes named by an answer: its `scope` array, or none.
pub open spec fn scopes_or_none(scope: Option<Seq<Seq<char>>>) -> Seq<Seq<char>> {
    match scope {
        Some(s) => s,
        None => Seq::empty(),
    }
}

/// The credential record of a granted token and its scopes; `JsonError` when
/// the lifetime does not fit the record's field.
pub fn credential_from(token: TwitchAccessToken, scope: Option<Vec<String>>) -> (r: Result<
    AppConfigFile,
    TwitchTokenError,
>)
    ensures
        token.expires_in <= isize::MAX ==> (r matches Ok(c) && c@ == (AppConfigView {
            access_token: token.access_token@,
            refresh_token: token.refresh_token@,
            expires_in: token.expires_in as isize,
            scope: scopes_or_none(opt_list_view(scope)),
        })),
        token.expires_in > isize::MAX ==> r matches Err(TwitchTokenError::JsonError),
{
    if token.expires_in > isize::MAX as u64 {
        return Err(TwitchTokenError::JsonError);
    }
    let list = match scope {
        Some(s) => s,
        None => Vec::new(),
    };
    let c = AppConfigFile::new(token.access_token, token.refresh_token, token.expires_in as isize, list);
    assert(c.scope@.map_values(|s: String| s@) =~= scopes_or_none(opt_list_view(scope)));
    Ok(c)
}

/// The credential record that a successful answer `body` describes: all four
/// token members present and a lifetime that fits the record's field.
pub open spec fn credential_in(body: Seq<char>) -> Option<AppConfigView> {
    let at = json_str_member(body, "access_token"@);
    let rt = json_str_member(body, "refresh_token"@);
    let exp = json_u64_member(body, "expires_in"@);
    let tt = json_str_member(body, "token_type"@);
    if at is Some && rt is Some && exp is Some && tt is Some && exp->0 <= isize::MAX {
        Some(
            AppConfigView {
                access_token: at->0,
                refresh_token: rt->0,
                expires_in: exp->0 as isize,
                scope: scopes_or_none(json_str_list_member(body, "scope"@)),
            },
        )
    } else {
        None
    }
}

/// The credential record that an answer of the token endpoint grants: on a
/// successful answer the record it describes, else `JsonError`; on a refusal
/// its body.
pub fn credential_from_response(success: bool, body: &str) -> (r: Result<AppConfigFile, TwitchTokenError>)
    ensures
        success ==> match credential_in(body@) {
            Some(v) => r matches Ok(c) && c@ == v,
            None => r matches Err(TwitchTokenError::JsonError),
        },
        !success ==> (r matches Err(TwitchTokenError::ApiError(m)) && m@ == body@),
{
    match token_from_response(success, body) {
        Ok(t) => credential_from(t, str_list_member(body, "scope")),
        Err(e) => Err(e),
    }
}

} // verus!
