use stream_service::pipeline::{
    home_response, not_found_response, timeout_response, HttpResponse, Outcome, Pipeline,
    NOT_FOUND_STATUS, OK_STATUS, TIMEOUT_SECS, TIMEOUT_STATUS,
};
use stream_service::span::Observation;

fn run_request(
    method: &[u8],
    path: &[u8],
    inbound: Option<&[u8]>,
    outcome: Outcome,
    latency_ms: u64,
) -> (Pipeline, HttpResponse) {
    let mut p = Pipeline::receive(method.to_vec(), path.to_vec(), inbound.map(|v| v.to_vec()));
    p.assign_id();
    p.open_span();
    p.close_span(outcome, latency_ms);
    let response = p.send_response();
    (p, response)
}

#[test]
fn fixed_responses() {
    let not_found = not_found_response();
    assert_eq!(not_found.status, NOT_FOUND_STATUS);
    assert_eq!(not_found.status, 404);
    assert_eq!(not_found.body, "Not Found");
    assert!(not_found.request_id.is_none());

    let timeout = timeout_response();
    assert_eq!(timeout.status, TIMEOUT_STATUS);
    assert_eq!(timeout.status, 408);
    assert_eq!(timeout.body, "");

    let home = home_response();
    assert_eq!(home.status, OK_STATUS);
    assert_eq!(home.status, 200);
    assert_eq!(home.body, "<h1>Hello, World!</h1>");

    assert_eq!(TIMEOUT_SECS, 30);
}

#[test]
fn home_request_without_inbound_id() {
    let outcome = Outcome::Completed { response: home_response() };
    let (p, response) = run_request(b"GET", b"/", None, outcome, 3);

    assert_eq!(response.status, 200);
    assert!(response.body.contains("Hello, World!"));
    let header = response.request_id.expect("response must carry the id header");
    assert!(!header.is_empty());

    assert_eq!(p.observations.len(), 2);
    match &p.observations[0] {
        Observation::OnRequest { request_id, method, path } => {
            assert_eq!(request_id, &header);
            assert_eq!(method, &b"GET".to_vec());
            assert_eq!(path, &b"/".to_vec());
        }
        _ => panic!("first observation must be the entry observation"),
    }
    match &p.observations[1] {
        Observation::OnResponse { request_id, status_code, latency_ms } => {
            assert_eq!(request_id, &header);
            assert_eq!(*status_code, 200);
            assert_eq!(*latency_ms, 3);
        }
        _ => panic!("second observation must be the exit observation"),
    }
}

#[test]
fn unmatched_route_echoes_inbound_id() {
    let outcome = Outcome::Completed { response: not_found_response() };
    let (_, response) = run_request(b"GET", b"/missing", Some(b"abc-123"), outcome, 1);
    assert_eq!(response.status, 404);
    assert_eq!(response.request_id, Some(b"abc-123".to_vec()));
}

#[test]
fn unmatched_route_is_traced_with_its_status() {
    let outcome = Outcome::Completed { response: not_found_response() };
    let (p, response) = run_request(b"POST", b"/nowhere", None, outcome, 2);
    assert_eq!(response.status, 404);

    let span = p.span.as_ref().expect("span must be open by then");
    assert_eq!(span.status_code, Some(404));
    assert_eq!(span.latency_ms, Some(2));

    assert_eq!(p.observations.len(), 2);
    assert!(matches!(p.observations[0], Observation::OnRequest { .. }));
    match &p.observations[1] {
        Observation::OnResponse { status_code, .. } => assert_eq!(*status_code, 404),
        _ => panic!("second observation must be the exit observation"),
    }
}

#[test]
fn timed_out_work_yields_timeout_status_and_closed_span() {
    let (p, response) = run_request(b"GET", b"/slow", Some(b"abc-123"), Outcome::TimedOut, 30000);
    assert_eq!(response.status, 408);
    assert_eq!(response.request_id, Some(b"abc-123".to_vec()));

    let span = p.span.as_ref().expect("span must be open by then");
    assert_eq!(span.status_code, Some(408));
    assert_eq!(span.latency_ms, Some(30000));

    assert_eq!(p.observations.len(), 2);
    assert!(matches!(p.observations[0], Observation::OnRequest { .. }));
    match &p.observations[1] {
        Observation::OnResponse { request_id, status_code, .. } => {
            assert_eq!(request_id, &b"abc-123".to_vec());
            assert_eq!(*status_code, 408);
        }
        _ => panic!("second observation must be the exit observation"),
    }
}

#[test]
fn observations_carry_minted_id_when_no_inbound_id() {
    let outcome = Outcome::Completed { response: home_response() };
    let (p, response) = run_request(b"GET", b"/", None, outcome, 0);
    let header = response.request_id.expect("response must carry the id header");

    let entry_id = match &p.observations[0] {
        Observation::OnRequest { request_id, .. } => request_id.clone(),
        _ => panic!("first observation must be the entry observation"),
    };
    let exit_id = match &p.observations[1] {
        Observation::OnResponse { request_id, .. } => request_id.clone(),
        _ => panic!("second observation must be the exit observation"),
    };
    assert_eq!(entry_id, exit_id);
    assert_eq!(entry_id, header);
}

#[test]
fn downstream_header_is_not_overwritten() {
    let handler_response = HttpResponse {
        status: 200,
        request_id: Some(b"handler-set".to_vec()),
        body: String::new(),
    };
    let outcome = Outcome::Completed { response: handler_response };
    let (_, response) = run_request(b"GET", b"/", Some(b"abc-123"), outcome, 1);
    assert_eq!(response.request_id, Some(b"handler-set".to_vec()));
}

#[test]
fn two_requests_without_inbound_ids_get_distinct_ids() {
    let (_, first) = run_request(
        b"GET",
        b"/",
        None,
        Outcome::Completed { response: home_response() },
        1,
    );
    let (_, second) = run_request(
        b"GET",
        b"/",
        None,
        Outcome::Completed { response: home_response() },
        1,
    );
    assert_ne!(first.request_id.unwrap(), second.request_id.unwrap());
}
