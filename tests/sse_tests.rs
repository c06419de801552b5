use mcp_core::sse::{
    base_url, bearer_header, endpoint_path, message_event, post_url, session_endpoint, sse_event, PostOutcome,
    SseSessions, PING_INTERVAL_SECS, SESSION_CHANNEL_CAPACITY,
};

fn is_session_id(id: &str) -> bool {
    id.len() == 36 && id.chars().all(|c| c.is_ascii_digit() || ('a'..='f').contains(&c) || c == '-')
}

#[test]
fn first_event_names_the_session_endpoint() {
    let mut sessions: SseSessions<u32> = SseSessions::new();
    let (id, event) = sessions.open_session(7);
    assert!(is_session_id(&id));
    let data = format!("/message?sessionId={}", id);
    assert_eq!(event, format!("event: endpoint\ndata: {}\n\n", data));
    let rest = data.strip_prefix("/message?sessionId=").unwrap();
    assert!(is_session_id(rest));
    assert_eq!(sessions.get_session(&id), Some(&7));
    assert!(PING_INTERVAL_SECS <= 15);
    assert_eq!(SESSION_CHANNEL_CAPACITY, 100);
}

#[test]
fn sessions_get_distinct_ids() {
    let mut sessions: SseSessions<u32> = SseSessions::new();
    let (a, _) = sessions.open_session(1);
    let (b, _) = sessions.open_session(2);
    assert_ne!(a, b);
    assert_eq!(sessions.get_session(&a), Some(&1));
    assert_eq!(sessions.get_session(&b), Some(&2));
}

#[test]
fn post_routing() {
    let mut sessions: SseSessions<u32> = SseSessions::new();
    let (id, _) = sessions.open_session(3);
    assert_eq!(sessions.route_post(Some(&id)), Ok(&3));
    let missing = sessions.route_post(None).unwrap_err();
    assert_eq!(missing.status(), 400);
    assert_eq!(missing.body(), "Session ID not specified");
    let unknown = sessions.route_post(Some(&"abc".to_string())).unwrap_err();
    assert_eq!(unknown, PostOutcome::UnknownSession("abc".to_string()));
    assert_eq!(unknown.status(), 404);
    assert_eq!(unknown.body(), "Session abc not found");
    assert_eq!(PostOutcome::Accepted.status(), 202);
    assert_eq!(PostOutcome::Failed.status(), 500);
}

#[test]
fn events_are_framed() {
    assert_eq!(sse_event("message", "{}"), "event: message\ndata: {}\n\n");
    assert_eq!(message_event("{\"id\":1}"), "event: message\ndata: {\"id\":1}\n\n");
    assert_eq!(endpoint_path("x"), "/message?sessionId=x");
}

#[test]
fn base_url_keeps_scheme_and_host() {
    assert_eq!(base_url("http://localhost:3000/sse"), "http://localhost:3000");
    assert_eq!(base_url("https://example.com"), "https://example.com");
    assert_eq!(base_url("localhost:8080/sse"), "localhost:8080");
    assert_eq!(post_url("http://h:1/sse", "/message?sessionId=1"), "http://h:1/message?sessionId=1");
}

#[test]
fn endpoint_is_taken_from_event_data() {
    assert_eq!(session_endpoint("/message?sessionId=abc"), "/message?sessionId=abc");
    assert_eq!(session_endpoint("http://host:3000/message?sessionId=abc"), "/message?sessionId=abc");
    assert_eq!(session_endpoint("https://host/message?sessionId=abc"), "/message?sessionId=abc");
    assert_eq!(session_endpoint("no-slash"), "no-slash");
}

#[test]
fn bearer_header_value() {
    assert_eq!(bearer_header("tok"), "Bearer tok");
}
