use berry_auth::flow::{classify_code, poll_outcome, FlowPhase, PollLoop, PollOutcome, PollStep};
use berry_auth::records::{AppConfigFile, DeviceAuthBinary};
use berry_auth::token::{credential_from_response, token_from_response, TwitchTokenError};

fn session(interval: i64, expires_in: i32) -> DeviceAuthBinary {
    DeviceAuthBinary::new("d".to_string(), expires_in, interval, "u".to_string(), "v".to_string(), true)
}

#[test]
fn always_pending_expires_within_lifetime() {
    let mut l = PollLoop::start(&session(5, 10));
    let mut polls = 0;
    let mut waited = 0;
    let end = loop {
        match l.next_step() {
            PollStep::Wait(w) => waited += w,
            PollStep::Poll => {
                polls += 1;
                l.on_poll(PollOutcome::AuthorizationPending);
            }
            PollStep::Done(p) => break p,
        }
    };
    assert_eq!(end, FlowPhase::Expired);
    assert!(waited <= 10);
    assert!(polls <= 2);
    assert_eq!(l.phase, FlowPhase::Expired);
}

#[test]
fn slow_down_lengthens_the_second_wait() {
    let mut l = PollLoop::start(&session(5, 1800));
    let mut waits = vec![];
    let mut outcomes = vec![PollOutcome::SlowDown, PollOutcome::AuthorizationPending, PollOutcome::Granted]
        .into_iter();
    let end = loop {
        match l.next_step() {
            PollStep::Wait(w) => waits.push(w),
            PollStep::Poll => l.on_poll(outcomes.next().unwrap()),
            PollStep::Done(p) => break p,
        }
    };
    assert_eq!(end, FlowPhase::Authorized);
    assert_eq!(waits, vec![5, 10, 10]);
    assert!(waits[1] > waits[0]);
}

#[test]
fn terminal_outcomes() {
    for (o, p) in [
        (PollOutcome::ExpiredToken, FlowPhase::Expired),
        (PollOutcome::AccessDenied, FlowPhase::Denied),
        (PollOutcome::Failed, FlowPhase::Failed),
        (PollOutcome::Granted, FlowPhase::Authorized),
    ] {
        let mut l = PollLoop::start(&session(2, 60));
        assert_eq!(l.next_step(), PollStep::Wait(2));
        assert_eq!(l.next_step(), PollStep::Poll);
        l.on_poll(o);
        assert_eq!(l.next_step(), PollStep::Done(p));
        assert_eq!(l.polls, 1);
    }
}

#[test]
fn last_wait_is_cut_at_expiry() {
    let mut l = PollLoop::start(&session(4, 6));
    assert_eq!(l.next_step(), PollStep::Wait(4));
    assert_eq!(l.next_step(), PollStep::Poll);
    l.on_poll(PollOutcome::AuthorizationPending);
    assert_eq!(l.next_step(), PollStep::Wait(2));
    assert_eq!(l.next_step(), PollStep::Done(FlowPhase::Expired));
    assert_eq!(l.elapsed, 6);
}

#[test]
fn error_codes() {
    assert_eq!(classify_code(Some("authorization_pending".to_string())), PollOutcome::AuthorizationPending);
    assert_eq!(classify_code(Some("slow_down".to_string())), PollOutcome::SlowDown);
    assert_eq!(classify_code(Some("expired_token".to_string())), PollOutcome::ExpiredToken);
    assert_eq!(classify_code(Some("access_denied".to_string())), PollOutcome::AccessDenied);
    assert_eq!(classify_code(Some("invalid_grant".to_string())), PollOutcome::Failed);
    assert_eq!(classify_code(None), PollOutcome::Failed);
}

#[test]
fn poll_outcomes_from_bodies() {
    let pending: Result<AppConfigFile, TwitchTokenError> =
        Err(TwitchTokenError::ApiError(r#"{"status":400,"message":"authorization_pending"}"#.to_string()));
    assert_eq!(poll_outcome(&pending), PollOutcome::AuthorizationPending);
    let slow: Result<AppConfigFile, TwitchTokenError> =
        Err(TwitchTokenError::ApiError(r#"{"error":"slow_down"}"#.to_string()));
    assert_eq!(poll_outcome(&slow), PollOutcome::SlowDown);
    let raw: Result<AppConfigFile, TwitchTokenError> =
        Err(TwitchTokenError::ApiError("gateway timeout".to_string()));
    assert_eq!(poll_outcome(&raw), PollOutcome::Failed);
    let transport: Result<AppConfigFile, TwitchTokenError> =
        Err(TwitchTokenError::RequestError("reset".to_string()));
    assert_eq!(poll_outcome(&transport), PollOutcome::Failed);
    let ok: Result<u8, TwitchTokenError> = Ok(1);
    assert_eq!(poll_outcome(&ok), PollOutcome::Granted);
}

const GRANTED: &str = r#"{"access_token":"at","refresh_token":"rt","expires_in":14400,"scope":["chat:read","bits:read"],"token_type":"bearer"}"#;

#[test]
fn granted_token() {
    let t = token_from_response(true, GRANTED).unwrap();
    assert_eq!(t.access_token, "at");
    assert_eq!(t.refresh_token, "rt");
    assert_eq!(t.expires_in, 14400);
    assert_eq!(t.token_type, "bearer");
}

#[test]
fn refused_token_keeps_body() {
    match token_from_response(false, "not json at all") {
        Err(TwitchTokenError::ApiError(b)) => assert_eq!(b, "not json at all"),
        _ => panic!("expected an API error"),
    }
}

#[test]
fn malformed_token_answer() {
    assert!(matches!(token_from_response(true, r#"{"access_token":"at"}"#), Err(TwitchTokenError::JsonError)));
    assert!(matches!(token_from_response(true, "<html>"), Err(TwitchTokenError::JsonError)));
}

#[test]
fn credential_keeps_scope_order() {
    let c = credential_from_response(true, GRANTED).unwrap();
    assert_eq!(c.access_token, "at");
    assert_eq!(c.refresh_token, "rt");
    assert_eq!(c.expires_in, 14400);
    assert_eq!(c.scope, vec!["chat:read".to_string(), "bits:read".to_string()]);
    let bare = credential_from_response(
        true,
        r#"{"access_token":"a","refresh_token":"r","expires_in":0,"token_type":"bearer"}"#,
    )
    .unwrap();
    assert!(bare.scope.is_empty());
}

#[test]
fn incomplete_or_oversized_grant_is_rejected() {
    let missing = r#"{"access_token":"a","expires_in":10,"token_type":"bearer"}"#;
    assert!(matches!(credential_from_response(true, missing), Err(TwitchTokenError::JsonError)));
    let huge = r#"{"access_token":"a","refresh_token":"r","expires_in":18446744073709551615,"token_type":"bearer"}"#;
    assert!(matches!(credential_from_response(true, huge), Err(TwitchTokenError::JsonError)));
}
