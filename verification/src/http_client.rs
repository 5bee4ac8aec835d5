//! The raw request/response client.
//!
//! The client is built directly on a buffered byte stream rather than a
//! structured protocol library, to keep per-request overhead low under
//! high concurrency. This module holds everything the client decides:
//! which connection a call uses (one per target address, reused across
//! all steps routed there), the exact bytes of the request head, and the
//! framing of the response read. The process owns the streams themselves,
//! in a table indexed exactly like the address table here.

use vstd::prelude::*;

use crate::request::{encode_request, request_text, Method};

verus! {

/// The addresses that hold an open connection, in the order they were
/// opened. Slot `i` stands for the stream connected to `addrs[i]`.
pub struct Connections {
    pub addrs: Vec<String>,
}

/// Each address holds at most one connection.
pub open spec fn connections_wf(c: Connections) -> bool {
    forall|i: int, j: int| 0 <= i < j < c.addrs@.len() ==> c.addrs@[i]@ != c.addrs@[j]@
}

/// Whether some slot is connected to this address.
pub open spec fn connections_has(c: Connections, addr: Seq<char>) -> bool {
    exists|i: int| 0 <= i < c.addrs@.len() && c.addrs@[i]@ == addr
}

/// The raw request/response client: its connection table. A fresh client
/// holds no connection; `connect` fills one slot per address.
pub struct HttpClient {
    pub connections: Connections,
}

impl HttpClient {
    /// A client with no open connection.
    pub fn new() -> (c: Self)
        ensures
            c.connections.addrs@.len() == 0,
            connections_wf(c.connections),
    {
        HttpClient { connections: Connections { addrs: Vec::new() } }
    }

    /// The slot connected to this address, if there is one.
    pub fn lookup(&self, addr: &String) -> (r: Option<usize>)
        requires
            connections_wf(self.connections),
        ensures
            r is Some <==> connections_has(self.connections, addr@),
            r is Some ==> r->0 < self.connections.addrs@.len()
                && self.connections.addrs@[r->0 as int]@ == addr@,
    {
        let n = self.connections.addrs.len();
        let mut i: usize = 0;
        while i < n
            invariant
                n == self.connections.addrs@.len(),
                i <= n,
                forall|j: int| 0 <= j < i ==> self.connections.addrs@[j]@ != addr@,
            decreases n - i,
        {
            if self.connections.addrs[i] == *addr {
                return Some(i);
            }
            i = i + 1;
        }
        None
    }

    /// Decides the slot for a connection to this address: the slot
    /// already connected there, to be reused, or a fresh one at the end
    /// of the table, which the process must now open.
    pub fn connect(&mut self, addr: String) -> (slot: usize)
        requires
            connections_wf(old(self).connections),
        ensures
            connections_wf(final(self).connections),
            connections_has(final(self).connections, addr@),
            slot < final(self).connections.addrs@.len(),
            final(self).connections.addrs@[slot as int]@ == addr@,
            connections_has(old(self).connections, addr@) ==> *final(self) == *old(self),
            !connections_has(old(self).connections, addr@) ==> final(self).connections.addrs@
                == old(self).connections.addrs@.push(addr)
                && slot == old(self).connections.addrs@.len(),
    {
        match self.lookup(&addr) {
            Some(slot) => slot,
            None => {
                let slot = self.connections.addrs.len();
                self.connections.addrs.push(addr);
                assert forall|i: int, j: int|
                    0 <= i < j < self.connections.addrs@.len() implies self.connections.addrs@[i]@
                    != self.connections.addrs@[j]@ by {
                    if j < self.connections.addrs@.len() - 1 {
                        assert(old(self).connections.addrs@[i]@ != old(self).connections.addrs@[j]@);
                    }
                }
                assert(self.connections.addrs@[slot as int]@ == addr@);
                assert(connections_has(self.connections, addr@));
                slot
            },
        }
    }

    /// Prepares one call: the slot whose stream the head goes onto, and
    /// the head itself. The body, when present, is not framed — the
    /// engine measures round-trip latency, not content. The process
    /// writes the head as one write, then reads the response with the
    /// single-peek framing of `RecvBuffer`.
    pub fn request(
        &self,
        method: Method,
        addr: &String,
        endpoint: &str,
        headers: &str,
        _body: Option<&String>,
    ) -> (r: (usize, String))
        requires
            connections_wf(self.connections),
            connections_has(self.connections, addr@),
        ensures
            r.0 < self.connections.addrs@.len(),
            self.connections.addrs@[r.0 as int]@ == addr@,
            r.1@ == request_text(method, endpoint@, headers@),
    {
        let slot = match self.lookup(addr) {
            Some(slot) => slot,
            None => {
                proof {
                    assert(false);
                }
                0
            },
        };
        let head = encode_request(method, endpoint, headers);
        (slot, head)
    }

    /// One read-only call.
    pub fn get(&self, addr: &String, endpoint: &str, headers: &str) -> (r: (usize, String))
        requires
            connections_wf(self.connections),
            connections_has(self.connections, addr@),
        ensures
            r.0 < self.connections.addrs@.len(),
            self.connections.addrs@[r.0 as int]@ == addr@,
            r.1@ == request_text(Method::GET, endpoint@, headers@),
    {
        self.request(Method::GET, addr, endpoint, headers, None)
    }

    /// One call that carries a body. The body is handed along unframed,
    /// as the head-only framing defines.
    pub fn post(
        &self,
        addr: &String,
        endpoint: &str,
        headers: &str,
        body: &String,
    ) -> (r: (usize, String))
        requires
            connections_wf(self.connections),
            connections_has(self.connections, addr@),
        ensures
            r.0 < self.connections.addrs@.len(),
            self.connections.addrs@[r.0 as int]@ == addr@,
            r.1@ == request_text(Method::POST, endpoint@, headers@),
    {
        self.request(Method::POST, addr, endpoint, headers, Some(body))
    }
}

/// The receive side of one connection as the framing sees it: the bytes
/// that have arrived from the transport and have not been read yet.
///
/// The response framing is intentionally approximate: after writing a
/// request the client peeks the number of bytes available, allocates a
/// buffer of exactly that size, and reads exactly that many bytes. It
/// never parses headers or a content length. A response that has not
/// fully arrived at peek time is returned truncated; two responses that
/// both arrived are returned concatenated. This is a deliberate design
/// choice — the scenario needs a round-trip latency measurement, not a
/// correct body — and holds by construction in `read_exact_available`.
pub struct RecvBuffer {
    pub data: Vec<u8>,
}

impl RecvBuffer {
    /// An empty receive buffer.
    pub fn new() -> (b: Self)
        ensures
            b.data@.len() == 0,
    {
        RecvBuffer { data: Vec::new() }
    }

    /// Bytes delivered by the transport while the client was busy.
    pub fn arrive(&mut self, bytes: Vec<u8>)
        ensures
            final(self).data@ == old(self).data@ + bytes@,
    {
        let mut bytes = bytes;
        self.data.append(&mut bytes);
    }

    /// The peek: how many bytes are available right now.
    pub fn available(&self) -> (n: usize)
        ensures
            n == self.data@.len(),
    {
        self.data.len()
    }

    /// The framing read: exactly the bytes available at peek time, and
    /// nothing that arrives later.
    pub fn read_exact_available(&mut self) -> (r: Vec<u8>)
        ensures
            r@ == old(self).data@,
            final(self).data@.len() == 0,
    {
        let mut out: Vec<u8> = Vec::new();
        core::mem::swap(&mut out, &mut self.data);
        out
    }
}

} // verus!
