//! Requests and their wire framing.
//!
//! The raw request/response client writes a request head directly onto a
//! byte stream: the request line `METHOD SP PATH SP HTTP/1.1 CRLF`, a
//! caller-supplied header block, and the blank line that ends the head,
//! flushed as one write. A body, when present, is not framed.

use std::sync::Arc;
use vstd::prelude::*;
use vstd::string::StringExecFns;

verus! {

/// The protocol operation of a request.
#[derive(Clone, Copy, Debug, PartialEq, Eq, Structural)]
pub enum Method {
    GET,
    POST,
}

/// The request-line name of a method.
pub open spec fn method_text(m: Method) -> Seq<char> {
    match m {
        Method::GET => "GET"@,
        Method::POST => "POST"@,
    }
}

/// The full text of one framed request head.
pub open spec fn request_text(m: Method, endpoint: Seq<char>, headers: Seq<char>) -> Seq<char> {
    method_text(m) + " "@ + endpoint + " HTTP/1.1\r\n"@ + headers + "\r\n\r\n"@
}

/// Writes the request head for one call: the request line, the header
/// block, and the blank line, ready to go onto the stream as one write.
pub fn encode_request(method: Method, endpoint: &str, headers: &str) -> (r: String)
    ensures
        r@ == request_text(method, endpoint@, headers@),
{
    let mut out = match method {
        Method::GET => String::from_str("GET"),
        Method::POST => String::from_str("POST"),
    };
    out.append(" ");
    out.append(endpoint);
    out.append(" HTTP/1.1\r\n");
    out.append(headers);
    out.append("\r\n\r\n");
    assert(out@ =~= request_text(method, endpoint@, headers@));
    out
}

/// One protocol call, with the shared pieces behind reference-counted
/// handles so that many clients can carry the same address and header
/// block.
pub struct Request {
    pub method: Method,
    pub addr: Arc<String>,
    pub endpoint: String,
    pub headers: Arc<String>,
    pub body: Option<Arc<String>>,
}

impl Request {
    /// A request as handed to a protocol client.
    pub fn new(
        method: Method,
        addr: Arc<String>,
        endpoint: String,
        headers: Arc<String>,
        body: Option<Arc<String>>,
    ) -> (r: Self)
        ensures
            r.method == method,
            r.addr == addr,
            r.endpoint == endpoint,
            r.headers == headers,
            r.body == body,
    {
        Request { method, addr, endpoint, headers, body }
    }
}

} // verus!
