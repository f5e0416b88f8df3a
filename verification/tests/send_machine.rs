use tpi::request::{ApiTarget, AuthMode, EnvelopeBody, Method, Request};
use tpi::send::{Action, SendOutcome};

fn request(url: &str, auth: AuthMode) -> Request {
    Request::new(ApiTarget { base_url: url.to_owned() }, auth, reqwest::Client::new())
}

#[test]
fn get_status_needs_auth_ok_on_first_attempt() {
    let mut req = request("http://bmc.local/api/bmc/status", AuthMode::NeedsAuth);
    req.get();
    let mut m = req.begin_send();

    // The first attempt goes out without any credential.
    let plan = match m.begin() {
        Action::Execute(plan) => plan,
        _ => panic!("expected a transport attempt"),
    };
    assert_eq!(plan.method, Method::Get);
    assert_eq!(plan.url, "http://bmc.local/api/bmc/status");
    assert!(plan.bearer.is_none());
    assert!(!plan.with_multipart);

    // A success ends the send at once: the authenticator is never asked.
    match m.on_response(200) {
        Action::Finish(outcome) => assert_eq!(outcome, SendOutcome::Response(200)),
        Action::ObtainToken => panic!("the authenticator must not be consulted"),
        Action::Execute(_) => panic!("no second attempt may be made"),
    }
}

#[test]
fn post_flash_multipart_retries_once_with_token() {
    let mut req = request("http://bmc.local/api/bmc/flash", AuthMode::NeedsAuth);
    req.post();
    req.set_multipart();
    let mut m = req.begin_send();

    // First attempt: no credential, multipart payload attached.
    let plan = match m.begin() {
        Action::Execute(plan) => plan,
        _ => panic!("expected a transport attempt"),
    };
    assert_eq!(plan.method, Method::Post);
    assert!(plan.bearer.is_none());
    assert!(plan.with_multipart);

    // Unauthorized: the machine escalates and asks for a token.
    match m.on_response(401) {
        Action::ObtainToken => {}
        _ => panic!("a first 401 must trigger token acquisition"),
    }

    // The retry carries the token as bearer credential.  The multipart
    // payload was taken by the first attempt and is not restored, so the
    // escalated attempt goes out without it.
    let retry = match m.on_token_ok("swordfish".to_owned()) {
        Action::Execute(plan) => plan,
        _ => panic!("expected the escalated attempt"),
    };
    assert_eq!(retry.method, Method::Post);
    assert_eq!(retry.url, "http://bmc.local/api/bmc/flash");
    assert_eq!(retry.bearer.as_deref(), Some("swordfish"));
    assert!(!retry.with_multipart);

    match m.on_response(200) {
        Action::Finish(outcome) => assert_eq!(outcome, SendOutcome::Response(200)),
        _ => panic!("the second response is final"),
    }
}

#[test]
fn always_trusted_unauthorized_is_returned_unchanged() {
    let mut req = request("http://localhost/api/bmc", AuthMode::AlwaysTrusted);
    req.get();
    let mut m = req.begin_send();

    let plan = match m.begin() {
        Action::Execute(plan) => plan,
        _ => panic!("expected a transport attempt"),
    };
    assert!(plan.bearer.is_none());

    // No escalation in always-trusted mode: the 401 is the final answer.
    match m.on_response(401) {
        Action::Finish(outcome) => assert_eq!(outcome, SendOutcome::Response(401)),
        Action::ObtainToken => panic!("always-trusted mode never asks for a token"),
        Action::Execute(_) => panic!("always-trusted mode never retries"),
    }
}

#[test]
fn second_unauthorized_is_final() {
    let mut req = request("http://bmc.local/api/bmc", AuthMode::NeedsAuth);
    req.get();
    let mut m = req.begin_send();

    assert!(matches!(m.begin(), Action::Execute(_)));
    assert!(matches!(m.on_response(401), Action::ObtainToken));
    let retry = match m.on_token_ok("stale-token".to_owned()) {
        Action::Execute(plan) => plan,
        _ => panic!("expected the escalated attempt"),
    };
    assert!(retry.bearer.is_some());

    // The escalated attempt is also refused: no third attempt is made and
    // the 401 response itself comes back.
    match m.on_response(401) {
        Action::Finish(outcome) => assert_eq!(outcome, SendOutcome::Response(401)),
        _ => panic!("a second 401 must end the send"),
    }
}

#[test]
fn auth_failure_short_circuits_the_send() {
    let mut req = request("http://bmc.local/api/bmc", AuthMode::NeedsAuth);
    req.get();
    let mut m = req.begin_send();

    assert!(matches!(m.begin(), Action::Execute(_)));
    assert!(matches!(m.on_response(401), Action::ObtainToken));

    // The authenticator fails: the failure is the outcome, and no
    // transport attempt is made for the escalation.
    match m.on_token_err() {
        Action::Finish(outcome) => assert_eq!(outcome, SendOutcome::AuthFailure),
        Action::Execute(_) => panic!("no attempt may follow an authenticator failure"),
        Action::ObtainToken => panic!("the authenticator is asked at most once"),
    }
}

#[test]
fn transport_failure_propagates_without_retry() {
    let mut req = request("http://bmc.local/api/bmc", AuthMode::NeedsAuth);
    req.get();
    let mut m = req.begin_send();

    assert!(matches!(m.begin(), Action::Execute(_)));
    match m.on_transport_error() {
        Action::Finish(outcome) => assert_eq!(outcome, SendOutcome::TransportFailure),
        _ => panic!("a transport failure must end the send"),
    }
}

#[test]
fn one_shot_body_is_a_fatal_send_outcome() {
    let mut req = request("http://bmc.local/api/bmc", AuthMode::NeedsAuth);
    req.post();
    req.set_body(EnvelopeBody::OneShot);
    let mut m = req.begin_send();

    // The envelope cannot be duplicated for an attempt: the send ends with
    // an explicit fatal outcome instead of sending an empty body.
    match m.begin() {
        Action::Finish(outcome) => assert_eq!(outcome, SendOutcome::BodyNotReplayable),
        Action::Execute(_) => panic!("a one-shot body must not be sent emptied"),
        Action::ObtainToken => panic!("no token is needed for a fatal clone failure"),
    }
}

#[test]
fn always_trusted_success_is_returned() {
    let mut req = request("http://localhost/api/bmc", AuthMode::AlwaysTrusted);
    req.post();
    let mut m = req.begin_send();

    assert!(matches!(m.begin(), Action::Execute(_)));
    match m.on_response(204) {
        Action::Finish(outcome) => assert_eq!(outcome, SendOutcome::Response(204)),
        _ => panic!("a success is final"),
    }
}
