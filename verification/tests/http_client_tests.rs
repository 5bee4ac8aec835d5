use std::sync::Arc;

use loadgen::http_client::{HttpClient, RecvBuffer};
use loadgen::request::{encode_request, Method, Request};

#[test]
fn encodes_a_get_head() {
    let head = encode_request(Method::GET, "/hello", "Host: localhost");
    assert_eq!(head.as_str(), "GET /hello HTTP/1.1\r\nHost: localhost\r\n\r\n");
}

#[test]
fn encodes_a_post_head() {
    let head = encode_request(Method::POST, "/submit", "Host: localhost");
    assert_eq!(head.as_str(), "POST /submit HTTP/1.1\r\nHost: localhost\r\n\r\n");
}

#[test]
fn connects_once_per_address() {
    let mut c = HttpClient::new();
    let a = c.connect(String::from("localhost:9090"));
    let b = c.connect(String::from("localhost:9191"));
    let again = c.connect(String::from("localhost:9090"));
    assert_eq!(a, 0);
    assert_eq!(b, 1);
    assert_eq!(again, a);
    assert_eq!(c.lookup(&String::from("localhost:9191")), Some(1));
    assert_eq!(c.lookup(&String::from("localhost:7777")), None);
}

#[test]
fn request_routes_to_the_connected_slot() {
    let mut c = HttpClient::new();
    c.connect(String::from("localhost:9090"));
    c.connect(String::from("localhost:9191"));
    let addr = String::from("localhost:9191");
    let (slot, head) = c.get(&addr, "/ping", "Host: localhost");
    assert_eq!(slot, 1);
    assert_eq!(head.as_str(), "GET /ping HTTP/1.1\r\nHost: localhost\r\n\r\n");
}

#[test]
fn post_frames_no_body() {
    let mut c = HttpClient::new();
    c.connect(String::from("localhost:9090"));
    let addr = String::from("localhost:9090");
    let body = String::from("name=value");
    let (_, head) = c.post(&addr, "/submit", "Host: localhost", &body);
    assert_eq!(head.as_str(), "POST /submit HTTP/1.1\r\nHost: localhost\r\n\r\n");
}

#[test]
fn single_peek_read_returns_only_what_has_arrived() {
    // A server that answers in two separate writes: at peek time only the
    // first write has arrived, and the framing returns it alone — the
    // documented truncation, not a failure.
    let full_response = b"HTTP/1.1 200 OK\r\nContent-Length: 12\r\n\r\nhello world!";
    let (first_write, second_write) = full_response.split_at(40);

    let mut rx = RecvBuffer::new();
    rx.arrive(first_write.to_vec());
    let read = rx.read_exact_available();
    assert_eq!(read.as_slice(), first_write);
    assert_ne!(read.as_slice(), &full_response[..]);

    rx.arrive(second_write.to_vec());
    let late = rx.read_exact_available();
    assert_eq!(late.as_slice(), second_write);
}

#[test]
fn two_arrived_responses_read_as_one() {
    let mut rx = RecvBuffer::new();
    rx.arrive(b"first".to_vec());
    rx.arrive(b"second".to_vec());
    assert_eq!(rx.available(), 11);
    let read = rx.read_exact_available();
    assert_eq!(read.as_slice(), b"firstsecond");
    assert_eq!(rx.available(), 0);
}

#[test]
fn request_carries_its_fields() {
    let addr = Arc::new(String::from("localhost:9090"));
    let headers = Arc::new(String::from("Host: localhost"));
    let r = Request::new(
        Method::POST,
        addr.clone(),
        String::from("/submit"),
        headers.clone(),
        Some(Arc::new(String::from("payload"))),
    );
    assert!(matches!(r.method, Method::POST));
    assert_eq!(r.addr.as_str(), "localhost:9090");
    assert_eq!(r.endpoint.as_str(), "/submit");
    assert_eq!(r.headers.as_str(), "Host: localhost");
    assert_eq!(r.body.unwrap().as_str(), "payload");
}
