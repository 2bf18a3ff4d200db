use kit::auth::{
    classify_token_response, flow_step, get_github_token, initial_state, parse_device_response,
    parse_token_response, AuthError, FlowAction, FlowEvent, FlowState, PollOutcome,
    TokenLookup, TokenResponse,
};
use kit::config::save_credentials;

const DEVICE_BODY: &str = "{\"device_code\":\"d1\",\"user_code\":\"ABCD-1234\",\
                           \"verification_uri\":\"https://github.com/login/device\",\
                           \"interval\":5}";

#[test]
fn device_response_parses_all_four_members() {
    let d = parse_device_response(DEVICE_BODY).expect("well-formed session");
    assert_eq!(d.device_code, "d1");
    assert_eq!(d.user_code, "ABCD-1234");
    assert_eq!(d.verification_uri, "https://github.com/login/device");
    assert_eq!(d.interval, 5);
}

#[test]
fn device_response_requires_every_member() {
    assert!(parse_device_response("{\"device_code\":\"d\",\"user_code\":\"u\",\"interval\":5}")
        .is_none());
    assert!(parse_device_response(
        "{\"device_code\":\"d\",\"user_code\":\"u\",\"verification_uri\":\"v\"}"
    )
    .is_none());
    // the interval must be a plain number
    assert!(parse_device_response(
        "{\"device_code\":\"d\",\"user_code\":\"u\",\"verification_uri\":\"v\",\"interval\":\"5\"}"
    )
    .is_none());
    // a number too large for the interval is refused rather than wrapped
    assert!(parse_device_response(
        "{\"device_code\":\"d\",\"user_code\":\"u\",\"verification_uri\":\"v\",\
         \"interval\":99999999999999999999999}"
    )
    .is_none());
}

#[test]
fn token_response_members_are_optional() {
    let t = parse_token_response("{\"access_token\":\"ghu_xxx\"}").unwrap();
    assert_eq!(t.access_token.as_deref(), Some("ghu_xxx"));
    assert!(t.error.is_none());
    let p = parse_token_response("{\"error\":\"authorization_pending\"}").unwrap();
    assert!(p.access_token.is_none());
    assert_eq!(p.error.as_deref(), Some("authorization_pending"));
    let e = parse_token_response("{}").unwrap();
    assert!(e.access_token.is_none() && e.error.is_none());
    assert!(parse_token_response("{\"access_token\":5}").is_none());
}

#[test]
fn poll_answers_classify_by_their_error_code() {
    let pending = TokenResponse { access_token: None, error: Some("authorization_pending".into()) };
    assert!(matches!(classify_token_response(&pending), PollOutcome::Pending));
    let denied = TokenResponse { access_token: None, error: Some("access_denied".into()) };
    assert!(matches!(classify_token_response(&denied), PollOutcome::Denied));
    let other = TokenResponse { access_token: None, error: Some("slow_down".into()) };
    match classify_token_response(&other) {
        PollOutcome::ProviderError(e) => assert_eq!(e, "slow_down"),
        _ => panic!("another code is a provider error"),
    }
    let silent = TokenResponse { access_token: None, error: None };
    assert!(matches!(classify_token_response(&silent), PollOutcome::Pending));
    let empty = TokenResponse { access_token: None, error: Some(String::new()) };
    assert!(matches!(classify_token_response(&empty), PollOutcome::Pending));
    let token_wins = TokenResponse {
        access_token: Some("t".into()),
        error: Some("access_denied".into()),
    };
    assert!(matches!(classify_token_response(&token_wins), PollOutcome::Authorized(_)));
}

#[test]
fn flow_completes_after_two_polls_with_ten_seconds_of_sleep() {
    let mut polls = 0u64;
    let mut slept = 0u64;
    let mut saved: Option<String> = None;

    let st = initial_state();
    let d = parse_device_response(DEVICE_BODY).unwrap();
    let (st, act) = flow_step(st, FlowEvent::DeviceCodeReceived(d));
    match &act {
        FlowAction::NotifyUser { user_code, verification_uri } => {
            assert_eq!(user_code, "ABCD-1234");
            assert_eq!(verification_uri, "https://github.com/login/device");
        }
        _ => panic!("the operator is notified first"),
    }
    assert!(matches!(st, FlowState::AwaitingUser(_)));

    let (st, act) = flow_step(st, FlowEvent::UserNotified);
    match act {
        FlowAction::SleepThenPoll { seconds } => {
            assert_eq!(seconds, 5);
            slept += seconds;
            polls += 1;
        }
        _ => panic!("the first poll comes after a full sleep"),
    }

    let first = parse_token_response("{\"error\":\"authorization_pending\"}").unwrap();
    let (st, act) = flow_step(st, FlowEvent::PollReplied(first));
    match act {
        FlowAction::SleepThenPoll { seconds } => {
            assert_eq!(seconds, 5);
            slept += seconds;
            polls += 1;
        }
        _ => panic!("a pending answer keeps the flow polling"),
    }
    assert!(matches!(st, FlowState::Polling(_)));

    let second = parse_token_response("{\"access_token\":\"ghu_xxx\"}").unwrap();
    let (st, act) = flow_step(st, FlowEvent::PollReplied(second));
    match act {
        FlowAction::SaveToken(t) => {
            let written = save_credentials(None, &t, "");
            saved = Some(written);
        }
        _ => panic!("a token ends the flow with a save"),
    }
    match st {
        FlowState::Authorized(t) => assert_eq!(t, "ghu_xxx"),
        _ => panic!("the flow ends authorized"),
    }

    assert_eq!(polls, 2);
    assert_eq!(slept, 10);
    let written = saved.expect("the token was persisted");
    match get_github_token(Some(&written)) {
        TokenLookup::Token(t) => assert_eq!(t, "ghu_xxx"),
        _ => panic!("the stored token reads back"),
    }
}

#[test]
fn failed_device_request_aborts_with_no_poll_and_no_write() {
    let st = initial_state();
    let (st, act) = flow_step(st, FlowEvent::DeviceRequestFailed);
    assert!(matches!(act, FlowAction::Stop));
    assert!(matches!(st, FlowState::Failed(AuthError::Transport)));
}

#[test]
fn denied_answer_ends_the_flow_without_a_save() {
    let d = parse_device_response(DEVICE_BODY).unwrap();
    let st = FlowState::Polling(d);
    let denied = parse_token_response("{\"error\":\"access_denied\"}").unwrap();
    let (st, act) = flow_step(st, FlowEvent::PollReplied(denied));
    assert!(matches!(act, FlowAction::Stop));
    assert!(matches!(st, FlowState::Failed(AuthError::Denied)));
}

#[test]
fn provider_error_carries_the_code() {
    let d = parse_device_response(DEVICE_BODY).unwrap();
    let reply = parse_token_response("{\"error\":\"expired_token\"}").unwrap();
    let (st, act) = flow_step(FlowState::Polling(d), FlowEvent::PollReplied(reply));
    assert!(matches!(act, FlowAction::Stop));
    match st {
        FlowState::Failed(AuthError::Provider(e)) => assert_eq!(e, "expired_token"),
        _ => panic!("another code is a provider failure"),
    }
}

#[test]
fn browser_failure_is_fatal() {
    let d = parse_device_response(DEVICE_BODY).unwrap();
    let (st, act) = flow_step(FlowState::AwaitingUser(d), FlowEvent::BrowserOpenFailed);
    assert!(matches!(act, FlowAction::Stop));
    assert!(matches!(st, FlowState::Failed(AuthError::BrowserOpen)));
}

#[test]
fn token_lookup_reads_the_store() {
    let written = save_credentials(None, "tok", "user");
    assert!(matches!(get_github_token(Some(&written)), TokenLookup::Token(_)));
    assert!(matches!(get_github_token(None), TokenLookup::LoginRequired));
    assert!(matches!(get_github_token(Some("garbage")), TokenLookup::StoreCorrupt));
    let empty = save_credentials(None, "", "user");
    assert!(matches!(get_github_token(Some(&empty)), TokenLookup::LoginRequired));
}
