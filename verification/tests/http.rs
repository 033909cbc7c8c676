use rdnat::auth::Credentials;
use rdnat::http::{
    classify, format_response_head, is_authorized, Header, HttpEvent, HttpNext, HttpPhase,
    HttpSession, Request, HEAD_LIMIT,
};

fn creds() -> Option<Credentials> {
    Some(Credentials::new(b"user".to_vec(), b"pass".to_vec()))
}

const CHALLENGE: &[u8] =
    b"HTTP/1.1 407 Proxy Authentication Required\r\nProxy-Authenticate: Basic realm=\"Proxy\"\r\n\r\n";

#[test]
fn head_limit_is_4096() {
    assert_eq!(HEAD_LIMIT, 4096);
}

#[test]
fn classify_ignores_an_empty_head() {
    assert_eq!(classify(b"", &None), Request::Ignore);
    assert_eq!(classify(b"", &creds()), Request::Ignore);
}

#[test]
fn classify_reads_the_target_of_connect() {
    let r = classify(b"CONNECT example.com:443 HTTP/1.1\r\n\r\n", &None);
    assert_eq!(r, Request::Tunnel { authority: b"example.com:443".to_vec() });
}

#[test]
fn classify_ignores_connect_with_fewer_than_three_tokens() {
    assert_eq!(classify(b"CONNECT", &None), Request::Ignore);
    assert_eq!(classify(b"CONNECT example.com:443", &None), Request::Ignore);
    assert_eq!(classify(b"CONNECT example.com:443\r\n", &creds()), Request::Ignore);
}

#[test]
fn classify_takes_connect_by_prefix_alone() {
    let r = classify(b"CONNECTED a b", &None);
    assert_eq!(r, Request::Tunnel { authority: b"a".to_vec() });
    let r = classify(b" CONNECT a:1 HTTP/1.1", &None);
    assert_eq!(r, Request::Fetch { uri: b"a:1".to_vec() });
    let r = classify(b"connect a:1 HTTP/1.1", &None);
    assert_eq!(r, Request::Fetch { uri: b"a:1".to_vec() });
}

#[test]
fn classify_demands_the_exact_header() {
    let ok = b"CONNECT h:1 HTTP/1.1\r\nProxy-Authorization: Basic dXNlcjpwYXNz\r\n\r\n";
    assert_eq!(classify(ok, &creds()), Request::Tunnel { authority: b"h:1".to_vec() });
    let none = b"CONNECT h:1 HTTP/1.1\r\n\r\n";
    assert_eq!(classify(none, &creds()), Request::Unauthorized);
    let wrong = b"CONNECT h:1 HTTP/1.1\r\nProxy-Authorization: Basic dXNlcjpwYXNa\r\n\r\n";
    assert_eq!(classify(wrong, &creds()), Request::Unauthorized);
    let lower = b"CONNECT h:1 HTTP/1.1\r\nproxy-authorization: Basic dXNlcjpwYXNz\r\n\r\n";
    assert_eq!(classify(lower, &creds()), Request::Unauthorized);
    let spaced = b"CONNECT h:1 HTTP/1.1\r\nProxy-Authorization:  Basic dXNlcjpwYXNz\r\n\r\n";
    assert_eq!(classify(spaced, &creds()), Request::Unauthorized);
}

#[test]
fn is_authorized_without_credentials_lets_everything_pass() {
    assert!(is_authorized(b"", &None));
    assert!(is_authorized(b"anything", &None));
    assert!(!is_authorized(b"anything", &creds()));
    assert!(is_authorized(b"xxProxy-Authorization: Basic dXNlcjpwYXNzyy", &creds()));
}

#[test]
fn classify_fetches_other_methods() {
    let r = classify(b"GET http://example.com/ HTTP/1.1\r\n\r\n", &creds());
    assert_eq!(r, Request::Fetch { uri: b"http://example.com/".to_vec() });
    assert_eq!(classify(b"GET", &None), Request::Fetch { uri: Vec::new() });
    assert_eq!(classify(b"\r\n", &None), Request::Fetch { uri: Vec::new() });
}

#[test]
fn format_response_head_writes_status_and_headers_in_order() {
    let headers = vec![
        Header { name: b"content-type".to_vec(), value: b"text/plain".to_vec() },
        Header { name: b"x-a".to_vec(), value: b"1".to_vec() },
        Header { name: b"x-a".to_vec(), value: b"2".to_vec() },
    ];
    let out = format_response_head(b"200 OK", &headers);
    assert_eq!(
        out,
        b"HTTP/1.1 200 OK\r\ncontent-type: text/plain\r\nx-a: 1\r\nx-a: 2\r\n\r\n".to_vec()
    );
    assert_eq!(
        format_response_head(b"404 Not Found", &Vec::new()),
        b"HTTP/1.1 404 Not Found\r\n\r\n".to_vec()
    );
}

#[test]
fn session_tunnels_connect_from_an_open_listener() {
    let mut s = HttpSession::new(None);
    assert_eq!(s.phase, HttpPhase::AwaitingHead);
    assert!(!s.is_over());
    let step = s.step(HttpEvent::Head(b"CONNECT example.com:443 HTTP/1.1\r\n\r\n".to_vec()));
    assert!(step.reply.is_empty());
    assert_eq!(step.next, HttpNext::Dial { authority: b"example.com:443".to_vec() });
    assert_eq!(s.phase, HttpPhase::Dialing);
    let step = s.step(HttpEvent::Connected);
    assert_eq!(step.reply, b"HTTP/1.1 200 Connection Established\r\n\r\n".to_vec());
    assert_eq!(step.next, HttpNext::Relay);
    assert_eq!(s.phase, HttpPhase::Relaying);
    assert!(s.is_over());
}

#[test]
fn session_challenges_connect_without_credentials() {
    let mut s = HttpSession::new(creds());
    let step = s.step(HttpEvent::Head(b"CONNECT example.com:443 HTTP/1.1\r\n\r\n".to_vec()));
    assert_eq!(step.reply, CHALLENGE.to_vec());
    assert_eq!(step.next, HttpNext::Close);
    assert_eq!(s.phase, HttpPhase::Closed);
    assert!(s.is_over());
}

#[test]
fn session_drops_silently_when_the_target_is_not_reached() {
    let mut s = HttpSession::new(None);
    s.step(HttpEvent::Head(b"CONNECT example.com:443 HTTP/1.1\r\n\r\n".to_vec()));
    let step = s.step(HttpEvent::ConnectFailed);
    assert!(step.reply.is_empty());
    assert_eq!(step.next, HttpNext::Close);
    assert_eq!(s.phase, HttpPhase::Closed);
}

#[test]
fn session_forwards_other_requests_and_streams_the_response() {
    let head = b"GET http://example.com/x HTTP/1.1\r\nHost: example.com\r\n\r\n".to_vec();
    let mut s = HttpSession::new(None);
    let step = s.step(HttpEvent::Head(head.clone()));
    assert!(step.reply.is_empty());
    assert_eq!(step.next, HttpNext::Fetch { uri: b"http://example.com/x".to_vec(), body: head });
    assert_eq!(s.phase, HttpPhase::Fetching);
    let step = s.step(HttpEvent::Response {
        status: b"200 OK".to_vec(),
        headers: vec![Header { name: b"content-length".to_vec(), value: b"2".to_vec() }],
    });
    assert_eq!(step.reply, b"HTTP/1.1 200 OK\r\ncontent-length: 2\r\n\r\n".to_vec());
    assert_eq!(step.next, HttpNext::StreamBody);
    assert_eq!(s.phase, HttpPhase::Streaming);
    assert!(s.is_over());
}

#[test]
fn session_answers_500_when_the_request_cannot_be_sent() {
    let mut s = HttpSession::new(None);
    s.step(HttpEvent::Head(b"GET http://example.com/ HTTP/1.1\r\n\r\n".to_vec()));
    let step = s.step(HttpEvent::FetchFailed);
    assert_eq!(step.reply, b"HTTP/1.1 500 Internal Server Error\r\n\r\n".to_vec());
    assert_eq!(step.next, HttpNext::Close);
    assert_eq!(s.phase, HttpPhase::Closed);
}

#[test]
fn session_closes_silently_on_a_failed_or_empty_read() {
    let mut s = HttpSession::new(creds());
    let step = s.step(HttpEvent::ReadFailed);
    assert!(step.reply.is_empty());
    assert_eq!(step.next, HttpNext::Close);
    let mut s = HttpSession::new(creds());
    let step = s.step(HttpEvent::Head(Vec::new()));
    assert!(step.reply.is_empty());
    assert_eq!(step.next, HttpNext::Close);
    assert_eq!(s.phase, HttpPhase::Closed);
}

#[test]
fn session_closes_on_an_event_it_does_not_wait_for() {
    let mut s = HttpSession::new(None);
    let step = s.step(HttpEvent::Connected);
    assert!(step.reply.is_empty());
    assert_eq!(step.next, HttpNext::Close);
    let mut s = HttpSession::new(None);
    s.step(HttpEvent::Head(b"CONNECT a:1 HTTP/1.1".to_vec()));
    let step = s.step(HttpEvent::FetchFailed);
    assert!(step.reply.is_empty());
    assert_eq!(step.next, HttpNext::Close);
}
