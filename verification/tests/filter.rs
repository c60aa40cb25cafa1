use std::sync::Arc;

use jsonrpc_filter::bisect_set::BisectSet;
use jsonrpc_filter::config::{Config, ServiceMaker};
use jsonrpc_filter::error::Error;
use jsonrpc_filter::filter::{Action, Filter, Phase, Verb};
use jsonrpc_filter::filter::filter_allowed_request;

const BACKEND: &str = "http://127.0.0.1:9000/";

fn make_filter() -> Filter {
    let allow = BisectSet::from_iter(vec!["ping".to_string(), "version".to_string()]);
    let config = Config::new(BACKEND.to_string(), allow);
    let mut maker = ServiceMaker::new(Arc::new(config));
    maker.make_service()
}

fn cors_triple_present(headers: &[(String, String)]) {
    assert!(headers
        .iter()
        .any(|(n, v)| n == "access-control-allow-origin" && v == "*"));
    assert!(headers
        .iter()
        .any(|(n, v)| n == "access-control-allow-methods" && v == "POST, OPTIONS"));
    assert!(headers
        .iter()
        .any(|(n, v)| n == "access-control-allow-headers" && v == "Content-Type"));
}

#[test]
fn allowed_post_is_forwarded_verbatim_and_response_gets_cors_origin() {
    let filter = make_filter();
    let mut ctx = filter.begin_request();
    assert_eq!(ctx.current_phase(), Phase::Received);

    let action = ctx.on_request(Verb::Post);
    assert!(matches!(action, Action::CollectBody));
    assert_eq!(ctx.current_phase(), Phase::CollectingBody);

    let body = b"{\"method\":\"ping\"}".to_vec();
    let action = ctx.on_body(body.clone());
    let forward = match action {
        Action::Forward(f) => f,
        _ => panic!("an allowed method must be forwarded"),
    };
    assert_eq!(forward.target, BACKEND);
    assert_eq!(forward.body, body);

    let action = ctx.on_backend_response(
        200,
        vec![("content-type".to_string(), "application/json".to_string())],
    );
    assert!(matches!(action, Action::CollectBackendBody));

    let action = ctx.on_backend_body(b"{\"result\":\"pong\"}".to_vec());
    let plan = match action {
        Action::Respond(p) => p,
        _ => panic!("the relay must respond"),
    };
    assert_eq!(plan.status, 200);
    assert_eq!(plan.body, b"{\"result\":\"pong\"}".to_vec());
    assert!(plan
        .headers
        .iter()
        .any(|(n, v)| n == "access-control-allow-origin" && v == "*"));
    assert!(plan
        .headers
        .iter()
        .any(|(n, v)| n == "content-type" && v == "application/json"));
    assert_eq!(ctx.current_phase(), Phase::Done);
}

#[test]
fn blocked_method_never_reaches_backend() {
    let filter = make_filter();
    let mut ctx = filter.begin_request();
    ctx.on_request(Verb::Post);
    let action = ctx.on_body(b"{\"method\":\"shutdown\"}".to_vec());
    match action {
        Action::Fail(Error::NotAllowedMethod(m)) => assert_eq!(m, "shutdown"),
        _ => panic!("a blocked method must fail without a forward"),
    }
    assert_eq!(ctx.current_phase(), Phase::Done);
}

#[test]
fn missing_method_is_rejected() {
    let filter = make_filter();
    let mut ctx = filter.begin_request();
    ctx.on_request(Verb::Post);
    let action = ctx.on_body(b"{\"notamethod\":1}".to_vec());
    assert!(matches!(action, Action::Fail(Error::MethodIsNotDefined)));
    assert_eq!(ctx.current_phase(), Phase::Done);
}

#[test]
fn malformed_payload_is_rejected() {
    let filter = make_filter();
    let mut ctx = filter.begin_request();
    ctx.on_request(Verb::Post);
    let action = ctx.on_body(b"not valid json".to_vec());
    assert!(matches!(action, Action::Fail(Error::MalformedPayload)));
    assert_eq!(ctx.current_phase(), Phase::Done);
}

#[test]
fn non_string_method_is_rejected() {
    let filter = make_filter();
    let mut ctx = filter.begin_request();
    ctx.on_request(Verb::Post);
    let action = ctx.on_body(b"{\"method\":7}".to_vec());
    assert!(matches!(action, Action::Fail(Error::MethodIsNotString)));
}

#[test]
fn options_preflight_short_circuits() {
    let filter = make_filter();
    let mut ctx = filter.begin_request();
    let action = ctx.on_request(Verb::Options);
    let plan = match action {
        Action::Respond(p) => p,
        _ => panic!("pre-flight must be answered at once"),
    };
    assert_eq!(plan.status, 200);
    assert!(plan.body.is_empty());
    cors_triple_present(&plan.headers);
    assert_eq!(ctx.current_phase(), Phase::Done);
}

#[test]
fn other_verbs_get_405_with_fixed_body() {
    let filter = make_filter();
    let mut ctx = filter.begin_request();
    let action = ctx.on_request(Verb::Other);
    let plan = match action {
        Action::Respond(p) => p,
        _ => panic!("an invalid verb must be answered at once"),
    };
    assert_eq!(plan.status, 405);
    assert_eq!(
        plan.body,
        b"Used HTTP Method is not allowed. POST or OPTIONS is required".to_vec()
    );
    cors_triple_present(&plan.headers);
    assert_eq!(ctx.current_phase(), Phase::Done);
}

#[test]
fn transport_failure_is_terminal() {
    let filter = make_filter();
    let mut ctx = filter.begin_request();
    ctx.on_request(Verb::Post);
    let action = ctx.on_transport_failure();
    assert!(matches!(action, Action::Fail(Error::Transport)));
    assert_eq!(ctx.current_phase(), Phase::Done);
}

#[test]
fn relay_replaces_preexisting_origin_header() {
    let filter = make_filter();
    let mut ctx = filter.begin_request();
    ctx.on_request(Verb::Post);
    ctx.on_body(b"{\"method\":\"version\"}".to_vec());
    ctx.on_backend_response(
        503,
        vec![
            (
                "access-control-allow-origin".to_string(),
                "http://other.example".to_string(),
            ),
            ("retry-after".to_string(), "5".to_string()),
        ],
    );
    let action = ctx.on_backend_body(Vec::new());
    let plan = match action {
        Action::Respond(p) => p,
        _ => panic!("the relay must respond"),
    };
    assert_eq!(plan.status, 503);
    let origins: Vec<&(String, String)> = plan
        .headers
        .iter()
        .filter(|(n, _)| n == "access-control-allow-origin")
        .collect();
    assert_eq!(origins.len(), 1);
    assert_eq!(origins[0].1, "*");
    assert!(plan
        .headers
        .iter()
        .any(|(n, v)| n == "retry-after" && v == "5"));
}

#[test]
fn classification_accepts_exactly_the_allowed_methods() {
    let allow = BisectSet::from_iter(vec!["ping".to_string(), "version".to_string()]);
    assert!(filter_allowed_request(b"{\"method\":\"ping\"}", &allow).is_ok());
    assert!(filter_allowed_request(b"{\"method\":\"version\"}", &allow).is_ok());
    let err = filter_allowed_request(b"{\"method\":\"shutdown\"}", &allow).unwrap_err();
    assert!(matches!(err, Error::NotAllowedMethod(m) if m == "shutdown"));
    let err = filter_allowed_request(b"[1,2,3]", &allow).unwrap_err();
    assert!(matches!(err, Error::MethodIsNotDefined));
    let err = filter_allowed_request(b"{\"method\":null}", &allow).unwrap_err();
    assert!(matches!(err, Error::MethodIsNotString));
    let err = filter_allowed_request(b"{", &allow).unwrap_err();
    assert!(matches!(err, Error::MalformedPayload));
}

#[test]
fn error_messages_name_the_failure() {
    assert_eq!(Error::MalformedPayload.message(), "Malformed payload");
    assert_eq!(Error::MethodIsNotDefined.message(), "Method is not defined");
    assert_eq!(Error::MethodIsNotString.message(), "Method is not a string");
    assert_eq!(
        Error::NotAllowedMethod("shutdown".to_string()).message(),
        "shutdown is not allowed method"
    );
    assert_eq!(Error::Transport.message(), "Transport error");
}
