use health_crab::config::{Api, ConfigMethod, Depends, Request};
use health_crab::health::{
    after_dependency, classify, finish_cycle, start_cycle, CallOutcome, DependencyOutcome,
    FirstCall, HealthStatus, Severity,
};
use health_crab::json::Json;
use health_crab::substitute::{resolve_fields, substitute_request, ExtractedFields};

fn s(x: &str) -> String {
    x.to_string()
}

fn pairs(items: &[(&str, &str)]) -> Vec<(String, String)> {
    items.iter().map(|(k, v)| (s(k), s(v))).collect()
}

fn request(headers: &[(&str, &str)], body: Option<&[(&str, &str)]>) -> Request {
    Request {
        url: s("http://localhost/health"),
        headers: Some(pairs(headers)),
        method: ConfigMethod::GET,
        body: body.map(pairs),
    }
}

fn api(depends_on: Option<Depends>, request: Request, system_notify: bool) -> Api {
    Api {
        name: s("svc"),
        depends_on,
        request,
        expected_status: 200,
        interval: 5,
        system_notify,
        notify_type: s("ERROR"),
    }
}

fn login() -> Depends {
    Depends {
        name: s("login"),
        header_fields: vec![s("auth.token")],
        body_fields: vec![],
        request: Request {
            url: s("http://localhost/login"),
            headers: None,
            method: ConfigMethod::POST,
            body: Some(pairs(&[("user", "me")])),
        },
    }
}

fn object(members: Vec<(String, Json)>, text: &str) -> Json {
    Json::Object { members, text: s(text) }
}

fn auth_doc() -> Json {
    object(
        vec![(
            s("auth"),
            object(vec![(s("token"), Json::Str(s("abc123")))], "{\"token\":\"abc123\"}"),
        )],
        "{\"auth\":{\"token\":\"abc123\"}}",
    )
}

#[test]
fn classify_matches_expected_status() {
    assert_eq!(classify(CallOutcome::Status(200), 200), HealthStatus::Success);
    assert_eq!(classify(CallOutcome::Status(503), 200), HealthStatus::Failure);
    assert_eq!(classify(CallOutcome::Status(404), 404), HealthStatus::Success);
    assert_eq!(classify(CallOutcome::TransportError, 500), HealthStatus::Failure);
}

#[test]
fn status_texts() {
    assert_eq!(HealthStatus::Pending.as_text(), "PENDING");
    assert_eq!(HealthStatus::Success.as_text(), "OK");
    assert_eq!(HealthStatus::Failure.as_text(), "ERROR");
    assert_eq!(ConfigMethod::GET.to_string(), "GET");
    assert_eq!(ConfigMethod::POST.to_string(), "POST");
}

#[test]
fn scenario_no_dependency_ok() {
    let a = api(None, request(&[("Accept", "{literal}")], None), true);
    match start_cycle(&a) {
        FirstCall::Primary(r) => {
            assert_eq!(r.headers, Some(pairs(&[("Accept", "{literal}")])));
            assert_eq!(r.url, a.request.url);
            assert!(r.body.is_none());
        }
        other => panic!("unexpected {:?}", other),
    }
    let report = finish_cycle(&a, CallOutcome::Status(200));
    assert_eq!(report.info.status, HealthStatus::Success);
    assert_eq!(report.info.name, "svc");
    assert_eq!(report.info.method, "GET");
    assert_eq!(report.info.url, "http://localhost/health");
    assert!(report.notification.is_none());
}

#[test]
fn scenario_service_unavailable_notifies_once() {
    let a = api(None, request(&[], None), true);
    let report = finish_cycle(&a, CallOutcome::Status(503));
    assert_eq!(report.info.status, HealthStatus::Failure);
    let n = report.notification.expect("a failure notification");
    assert_eq!(n.subject, "svc");
    assert_eq!(n.severity, Severity::Error);
    assert_eq!(n.message, "Request failed with status 503");

    let quiet = api(None, request(&[], None), false);
    let report = finish_cycle(&quiet, CallOutcome::Status(503));
    assert_eq!(report.info.status, HealthStatus::Failure);
    assert!(report.notification.is_none());
}

#[test]
fn transport_error_is_failure_whatever_expected() {
    let mut a = api(None, request(&[], None), true);
    a.expected_status = 500;
    let report = finish_cycle(&a, CallOutcome::TransportError);
    assert_eq!(report.info.status, HealthStatus::Failure);
    assert_eq!(report.notification.unwrap().message, "Request failed without a response");
}

#[test]
fn success_notified_unless_error_only() {
    let mut a = api(None, request(&[], None), true);
    a.notify_type = s("ALL");
    let n = finish_cycle(&a, CallOutcome::Status(200)).notification.unwrap();
    assert_eq!(n.severity, Severity::Info);
    assert_eq!(n.message, "Request succeeded with status 200");
    a.notify_type = s("ERROR");
    assert!(finish_cycle(&a, CallOutcome::Status(200)).notification.is_none());
}

#[test]
fn scenario_dependency_token_fills_header() {
    let a = api(
        Some(login()),
        request(&[("Authorization", "Bearer {auth.token}"), ("Accept", "json")], None),
        true,
    );
    match start_cycle(&a) {
        FirstCall::Dependency(r) => {
            assert_eq!(r.url, "http://localhost/login");
            assert_eq!(r.method, ConfigMethod::POST);
            assert_eq!(r.body, Some(pairs(&[("user", "me")])));
        }
        other => panic!("unexpected {:?}", other),
    }
    let plan = after_dependency(&a, &DependencyOutcome::Response(auth_doc()));
    assert!(plan.notification.is_none());
    assert_eq!(
        plan.request.headers,
        Some(pairs(&[("Authorization", "Bearer abc123"), ("Accept", "json")]))
    );
}

#[test]
fn scenario_dependency_failure_sends_literal_request() {
    let a = api(
        Some(login()),
        request(&[("Authorization", "Bearer {auth.token}")], Some(&[("q", "{id}")])),
        true,
    );
    let plan = after_dependency(&a, &DependencyOutcome::TransportFailed);
    assert_eq!(plan.request.headers, Some(pairs(&[("Authorization", "Bearer {auth.token}")])));
    assert_eq!(plan.request.body, Some(pairs(&[("q", "{id}")])));
    let n = plan.notification.expect("a dependency notification");
    assert_eq!(n.subject, "login");
    assert_eq!(n.severity, Severity::Error);
    assert_eq!(n.message, "Dependency request failed");

    let quiet = api(Some(login()), request(&[("A", "{auth.token}")], None), false);
    let plan = after_dependency(&quiet, &DependencyOutcome::TransportFailed);
    assert!(plan.notification.is_none());
    assert_eq!(plan.request.headers, Some(pairs(&[("A", "{auth.token}")])));
}

#[test]
fn unparsable_dependency_sends_literal_request() {
    let a = api(Some(login()), request(&[("A", "{auth.token}")], None), true);
    let plan = after_dependency(&a, &DependencyOutcome::Unparsable);
    assert!(plan.notification.is_none());
    assert_eq!(plan.request.headers, Some(pairs(&[("A", "{auth.token}")])));
}

#[test]
fn absent_field_leaves_placeholder() {
    let dep = Depends {
        name: s("d"),
        header_fields: vec![s("auth.token"), s("auth.missing")],
        body_fields: vec![s("auth.missing")],
        request: request(&[], None),
    };
    let fields = resolve_fields(&dep, &auth_doc());
    assert_eq!(fields.headers, pairs(&[("auth.token", "abc123")]));
    assert!(fields.body.is_empty());
    let req = request(&[("X", "{auth.missing}")], Some(&[("k", "v={auth.missing}")]));
    let out = substitute_request(&req, &fields);
    assert_eq!(out.headers, Some(pairs(&[("X", "{auth.missing}")])));
    assert_eq!(out.body, Some(pairs(&[("k", "v={auth.missing}")])));
}

#[test]
fn body_fields_are_json_text_read_back_as_scalars() {
    let doc = object(
        vec![(s("id"), Json::Number(s("42"))), (s("name"), Json::Str(s("a\"b")))],
        "{\"id\":42,\"name\":\"a\\\"b\"}",
    );
    let dep = Depends {
        name: s("d"),
        header_fields: vec![],
        body_fields: vec![s("id"), s("name")],
        request: request(&[], None),
    };
    let fields = resolve_fields(&dep, &doc);
    assert_eq!(fields.body, pairs(&[("id", "42"), ("name", "\"a\\\"b\"")]));
    let req = request(&[], Some(&[("user", "{id}-{name}"), ("n", "{name}")]));
    let out = substitute_request(&req, &fields);
    assert_eq!(out.body, Some(pairs(&[("user", "42-a\"b"), ("n", "a\"b")])));
}

#[test]
fn header_fields_render_numbers_and_objects() {
    let doc = object(
        vec![
            (s("n"), Json::Number(s("7"))),
            (s("o"), object(vec![(s("k"), Json::Bool(true))], "{\"k\":true}")),
        ],
        "{\"n\":7,\"o\":{\"k\":true}}",
    );
    let dep = Depends {
        name: s("d"),
        header_fields: vec![s("n"), s("o")],
        body_fields: vec![],
        request: request(&[], None),
    };
    let fields = resolve_fields(&dep, &doc);
    assert_eq!(fields.headers, pairs(&[("n", "7"), ("o", "{\"k\":true}")]));
}

#[test]
fn no_fields_is_identity() {
    let req = request(&[("A", "x {y} z")], Some(&[("b", "{c}")]));
    let empty = ExtractedFields { headers: vec![], body: vec![] };
    let out = substitute_request(&req, &empty);
    assert_eq!(out.headers, req.headers);
    assert_eq!(out.body, req.body);
    assert_eq!(out.url, req.url);
    assert_eq!(out.method, req.method);
}

#[test]
fn substituting_twice_changes_nothing() {
    let fields = ExtractedFields {
        headers: pairs(&[("t", "abc")]),
        body: vec![],
    };
    let req = request(&[("A", "Bearer {t}")], None);
    let once = substitute_request(&req, &fields);
    let twice = substitute_request(&once, &fields);
    assert_eq!(once.headers, Some(pairs(&[("A", "Bearer abc")])));
    assert_eq!(twice.headers, once.headers);
}

#[test]
fn every_occurrence_of_a_placeholder_is_replaced() {
    let fields = ExtractedFields { headers: pairs(&[("t", "1")]), body: vec![] };
    let req = request(&[("A", "{t}/{t}")], None);
    let out = substitute_request(&req, &fields);
    assert_eq!(out.headers, Some(pairs(&[("A", "1/1")])));
}

#[test]
fn every_field_fills_its_placeholder() {
    let fields = ExtractedFields {
        headers: pairs(&[("a", "1"), ("b", "2")]),
        body: pairs(&[("a", "\"x\""), ("b", "3")]),
    };
    let req = request(&[("H", "{a}{b}")], Some(&[("k", "{a}{b}")]));
    let out = substitute_request(&req, &fields);
    assert_eq!(out.headers, Some(pairs(&[("H", "12")])));
    assert_eq!(out.body, Some(pairs(&[("k", "x3")])));
}

#[test]
fn first_of_two_same_named_fields_wins() {
    let fields = ExtractedFields { headers: pairs(&[("a", "1"), ("a", "2")]), body: vec![] };
    let req = request(&[("H", "{a}")], None);
    let out = substitute_request(&req, &fields);
    assert_eq!(out.headers, Some(pairs(&[("H", "1")])));
}
