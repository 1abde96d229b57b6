use open_remote_url::auth::{authorization_header, bearer_value, is_authorized};
use open_remote_url::codec::{decode_body, encode_body, BodyError};
use open_remote_url::messages::{PortAction, PortsRequest, ProxyRequest, ProxyResponse};
use open_remote_url::port_sets::{add_ports, contains_port, filter_ports};
use open_remote_url::port_tracker::{follow_up_pause_ms, is_follow_up_check, PortTracker, UrlAction};
use open_remote_url::proxy_flow::{
    filter_headers, plan_relay, proxy_outcome, proxy_request_for, relay_response, ProxyOutcome,
    RelayError, RelayReply,
};
use open_remote_url::proxy_registry::{proxy_lifetime_secs, PortsEffect, ProxyRegistry};
use open_remote_url::urls::{
    concat_str, contains_str, ends_with_str, listen_address, local_daemon_open_url, local_service_url,
    looks_like_url, open_endpoint, ports_endpoint, proxy_bind_address, proxy_endpoint, starts_with_str,
};

fn pairs(v: &[(&str, &str)]) -> Vec<(String, String)> {
    v.iter().map(|(a, b)| (a.to_string(), b.to_string())).collect()
}

fn sorted(mut v: Vec<u16>) -> Vec<u16> {
    v.sort();
    v
}

#[test]
fn bearer_header_is_required_where_a_passphrase_is_set() {
    let phrase = Some("s3cret".to_string());
    assert_eq!(bearer_value("s3cret"), "Bearer s3cret");
    assert_eq!(authorization_header(&phrase), Some("Bearer s3cret".to_string()));
    assert_eq!(authorization_header(&None), None);
    assert!(is_authorized(&phrase, Some(b"Bearer s3cret".as_slice())));
    assert!(!is_authorized(&phrase, Some(b"Bearer other".as_slice())));
    assert!(!is_authorized(&phrase, Some(b"bearer s3cret".as_slice())));
    assert!(!is_authorized(&phrase, None));
    assert!(is_authorized(&None, None));
    assert!(is_authorized(&None, Some(b"anything".as_slice())));
    // Bytes that are no UTF-8 never match, even where lossy decoding would.
    let phrase_ff = Some("s\u{fffd}".to_string());
    assert!(!is_authorized(&phrase_ff, Some(b"Bearer s\xff".as_slice())));
    assert!(is_authorized(&phrase_ff, Some("Bearer s\u{fffd}".as_bytes())));
}

#[test]
fn own_authorization_header_is_accepted() {
    let phrase = Some("p".to_string());
    let header = authorization_header(&phrase).unwrap();
    assert!(is_authorized(&phrase, Some(header.as_bytes())));
}

#[test]
fn bodies_travel_as_padded_base64() {
    assert_eq!(encode_body(b"backend response"), "YmFja2VuZCByZXNwb25zZQ==");
    assert_eq!(decode_body("YmFja2VuZCByZXNwb25zZQ=="), Ok(b"backend response".to_vec()));
    assert_eq!(decode_body(""), Ok(vec![]));
    assert_eq!(decode_body("not base64!"), Err(BodyError::InvalidBase64));
    assert_eq!(decode_body("YQ"), Err(BodyError::InvalidBase64));
    let bytes: Vec<u8> = (0..=255).collect();
    assert_eq!(decode_body(&encode_body(&bytes)), Ok(bytes));
}

#[test]
fn url_arguments_are_told_from_commands() {
    assert!(looks_like_url("http://example.com"));
    assert!(looks_like_url("https://example.com"));
    assert!(looks_like_url("steam://install/4084250"));
    assert!(!looks_like_url("--install"));
    assert!(!looks_like_url("example.com"));
    assert!(!looks_like_url("a:/b"));
}

#[test]
fn string_tests() {
    assert!(starts_with_str("http://x", "http://"));
    assert!(!starts_with_str("htt", "http"));
    assert!(ends_with_str("HKCU\\OpenRemoteURLClient", "OpenRemoteURLClient"));
    assert!(!ends_with_str("Client", "OpenRemoteURLClient"));
    assert!(contains_str("/a/target/debug/b", "target/debug"));
    assert!(!contains_str("/a/target", "target/debug"));
    assert_eq!(concat_str("a", "b"), "ab");
}

#[test]
fn daemon_addresses() {
    assert_eq!(open_endpoint("http://localhost:40000"), "http://localhost:40000/open");
    assert_eq!(ports_endpoint("http://h:1"), "http://h:1/ports");
    assert_eq!(proxy_endpoint("http://r:2"), "http://r:2/proxy");
    assert_eq!(listen_address("127.0.0.1", 39100), "127.0.0.1:39100");
    assert_eq!(local_daemon_open_url(30000), "http://localhost:30000/open");
    assert_eq!(local_service_url(8976, "/oauth/callback?code=1"), "http://localhost:8976/oauth/callback?code=1");
    assert_eq!(proxy_bind_address(8976), "127.0.0.1:8976");
}

#[test]
fn proxy_relay_forwards_request_to_backend() {
    let req = ProxyRequest {
        port: 8976,
        method: "GET".to_string(),
        path_and_query: "/".to_string(),
        headers: pairs(&[("Host", "127.0.0.1:8976"), ("accept", "*/*")]),
        body: String::new(),
    };
    let plan = plan_relay(&req).unwrap();
    assert_eq!(plan.url, "http://localhost:8976/");
    assert_eq!(plan.method, "GET");
    assert_eq!(plan.headers, pairs(&[("accept", "*/*")]));
    assert!(plan.body.is_empty());
    let resp = relay_response(200, pairs(&[("content-type", "text/plain")]), b"backend response");
    assert_eq!(resp.status, 200);
    assert_eq!(resp.body, "YmFja2VuZCByZXNwb25zZQ==");
}

#[test]
fn relay_refuses_bad_bodies_and_methods() {
    let mut req = ProxyRequest {
        port: 1,
        method: "GET".to_string(),
        path_and_query: "/".to_string(),
        headers: vec![],
        body: "%%%".to_string(),
    };
    assert!(matches!(plan_relay(&req), Err(RelayError::InvalidBody)));
    req.body = String::new();
    req.method = "BAD METHOD".to_string();
    assert!(matches!(plan_relay(&req), Err(RelayError::InvalidMethod)));
    req.method = String::new();
    assert!(matches!(plan_relay(&req), Err(RelayError::InvalidMethod)));
    req.method = "PURGE".to_string();
    assert_eq!(plan_relay(&req).unwrap().method.as_str(), "PURGE");
}

#[test]
fn host_proxy_forwards_through_relay_to_backend() {
    let req = proxy_request_for(8976, "POST", None, pairs(&[("x", "1")]), b"forwarded response");
    assert_eq!(req.port, 8976);
    assert_eq!(req.method, "POST");
    assert_eq!(req.path_and_query, "/");
    assert_eq!(req.body, "Zm9yd2FyZGVkIHJlc3BvbnNl");
    let relayed = plan_relay(&req).unwrap();
    assert_eq!(relayed.body, b"forwarded response".to_vec());
    let reply = ProxyResponse {
        status: 201,
        headers: pairs(&[("Content-Length", "18"), ("Transfer-Encoding", "chunked"), ("x-a", "b")]),
        body: "Zm9yd2FyZGVkIHJlc3BvbnNl".to_string(),
    };
    assert_eq!(
        proxy_outcome(RelayReply::Answered(reply)),
        ProxyOutcome::Respond { status: 201, headers: pairs(&[("x-a", "b")]), body: b"forwarded response".to_vec() }
    );
}

#[test]
fn host_proxy_answers_502_when_the_relay_fails() {
    assert_eq!(proxy_outcome(RelayReply::Unreachable), ProxyOutcome::RelayUnreachable);
    assert_eq!(proxy_outcome(RelayReply::Failed), ProxyOutcome::RelayFailed);
    let broken = ProxyResponse { status: 200, headers: vec![], body: "???".to_string() };
    assert_eq!(proxy_outcome(RelayReply::Answered(broken)), ProxyOutcome::RelayFailed);
}

#[test]
fn headers_are_filtered_without_regard_to_ascii_case() {
    let h = pairs(&[("HOST", "a"), ("Accept", "b"), ("host", "c")]);
    assert_eq!(filter_headers(&h, &vec!["host"]), pairs(&[("Accept", "b")]));
}

#[test]
fn port_sets() {
    let mut acc = vec![1u16, 2];
    add_ports(&mut acc, &vec![2, 3, 4, 3], &vec![4]);
    assert_eq!(sorted(acc.clone()), vec![1, 2, 3]);
    assert!(contains_port(&acc, 3));
    assert!(!contains_port(&acc, 4));
    assert_eq!(sorted(filter_ports(&vec![1, 2, 3], &vec![2, 9], true)), vec![2]);
    assert_eq!(sorted(filter_ports(&vec![1, 2, 3], &vec![2, 9], false)), vec![1, 3]);
}

#[test]
fn ports_seen_in_the_last_fifteen_seconds_are_announced_without_the_own_port() {
    let mut t = PortTracker::new(30000);
    assert!(t.on_tick(1_000_000_000, vec![30000, 8976]).is_empty());
    t.on_tick(10_000_000_000, vec![30000, 5000]);
    assert_eq!(sorted(t.ports_for_url(&vec![30000, 7000])), vec![5000, 7000, 8976]);
    t.on_tick(17_000_000_000, vec![30000]);
    assert_eq!(sorted(t.ports_for_url(&vec![])), vec![5000]);
}

#[test]
fn announced_ports_that_close_are_withdrawn_once() {
    let mut t = PortTracker::new(30000);
    t.record_sent(&vec![8976, 5000]);
    assert_eq!(sorted(t.new_ports(&vec![8976, 5000, 6000, 30000])), vec![6000]);
    assert_eq!(t.on_tick(1, vec![5000]), vec![8976]);
    assert!(t.on_tick(2, vec![5000]).is_empty());
    assert_eq!(t.new_ports(&vec![8976]), vec![8976]);
}

#[test]
fn proxies_are_started_once_per_port_and_stopped_by_id() {
    let mut r = ProxyRegistry::new();
    assert_eq!(r.start(8976), Some(0));
    assert_eq!(r.start(8976), None);
    assert_eq!(r.start(5000), Some(1));
    assert_eq!(r.lookup(8976), Some(0));
    assert!(!r.expire(8976, 7));
    assert_eq!(r.lookup(8976), Some(0));
    assert_eq!(r.stop(8976), Some(0));
    assert_eq!(r.start(8976), Some(2));
    assert!(!r.expire(8976, 0));
    assert!(r.expire(8976, 2));
    assert_eq!(r.lookup(8976), None);
}

#[test]
fn host_ports_add_creates_listener() {
    let mut r = ProxyRegistry::new();
    let add = PortsRequest { ports: vec![8976, 8976, 5000], action: PortAction::Add, relay_url: "http://c:30000".to_string() };
    assert_eq!(r.apply(&add), PortsEffect { started: vec![(8976, 0), (5000, 1)], stopped: vec![], lifetime_secs: 300 });
    let del = PortsRequest { ports: vec![5000, 1234], action: PortAction::Delete, relay_url: String::new() };
    assert_eq!(r.apply(&del), PortsEffect { started: vec![], stopped: vec![(5000, 1)], lifetime_secs: 300 });
    assert_eq!(r.lookup(5000), None);
    assert_eq!(r.lookup(8976), Some(0));
}

#[test]
fn relay_keeps_the_requests_method() {
    let req = ProxyRequest {
        port: 9000,
        method: "PATCH".to_string(),
        path_and_query: "/x".to_string(),
        headers: vec![],
        body: "aGk=".to_string(),
    };
    let plan = plan_relay(&req).unwrap();
    assert_eq!(plan.method, "PATCH");
    assert_eq!(plan.body, b"hi".to_vec());
    let bad = ProxyRequest { method: "GE T".to_string(), ..req };
    assert_eq!(plan_relay(&bad), Err(RelayError::InvalidMethod));
}

#[test]
fn follow_up_checks_announce_new_ports_three_times_a_second_apart() {
    assert_eq!(follow_up_pause_ms(), 1000);
    assert!(!is_follow_up_check(0));
    assert!(is_follow_up_check(1) && is_follow_up_check(2) && is_follow_up_check(3));
    assert!(!is_follow_up_check(4));
    let mut t = PortTracker::new(3000);
    t.record_sent(&vec![5000]);
    assert_eq!(t.follow_up(1, &vec![3000, 5000]), None);
    assert_eq!(t.follow_up(2, &vec![3000, 5000, 6000]).map(sorted), Some(vec![6000]));
    assert_eq!(t.follow_up(4, &vec![6000]), None);
    assert_eq!(t.follow_up(0, &vec![6000]), None);
}

#[test]
fn a_sample_just_over_fifteen_seconds_old_is_forgotten() {
    let mut t = PortTracker::new(3000);
    t.on_tick(0, vec![7000]);
    t.on_tick(15_000_000_000, vec![]);
    assert_eq!(t.ports_for_url(&vec![]), vec![7000]);
    t.on_tick(15_000_000_001, vec![]);
    assert!(t.ports_for_url(&vec![]).is_empty());
}

#[test]
fn opening_a_url_sends_it_first_then_the_ports_then_three_checks() {
    let mut t = PortTracker::new(3000);
    t.on_tick(0, vec![3000, 8976]);
    let actions = t.on_url_opened("https://a.example/".to_string(), &vec![3000]);
    let follow = vec![
        UrlAction::Pause(1000),
        UrlAction::CheckNewPorts(1),
        UrlAction::Pause(1000),
        UrlAction::CheckNewPorts(2),
        UrlAction::Pause(1000),
        UrlAction::CheckNewPorts(3),
    ];
    let mut expected = vec![UrlAction::SendOpen("https://a.example/".to_string()), UrlAction::Announce(vec![8976])];
    expected.extend(follow.clone());
    assert_eq!(actions, expected);
    let quiet = PortTracker::new(3000).on_url_opened("u".to_string(), &vec![3000]);
    let mut expected = vec![UrlAction::SendOpen("u".to_string())];
    expected.extend(follow);
    assert_eq!(quiet, expected);
}

#[test]
fn proxies_live_five_minutes() {
    assert_eq!(proxy_lifetime_secs(), 300);
}
