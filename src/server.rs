//! What the listener does on each connection.
//!
//! A connection is read once, then answered with the same fixed page
//! whatever it sent, then closed. A failed read or write is not fatal: the
//! connection moves on to its next phase all the same.
use vstd::prelude::*;

verus! {

/// How many bytes of a request are read before answering.
pub const READ_BUFFER_SIZE: usize = 4096;

/// The status line of the reply.
pub open spec fn status_line() -> Seq<char> {
    "HTTP/1.1 200 OK\r\n"@
}

/// The reply's headers, each ending in CRLF: permissive cross-origin access and an HTML body.
pub open spec fn header_block() -> Seq<char> {
    "Access-Control-Allow-Credentials: true\r\n"@
        + "Access-Control-Allow-Headers: Accept, Accept-Encoding, Authorization, Content-Length, Content-Type, X-CSRF-Token\r\n"@
        + "Access-Control-Allow-Methods: POST, GET, OPTIONS, PUT, DELETE, HEAD, PATCH\r\n"@
        + "Access-Control-Allow-Origin: *\r\n"@
        + "Access-Control-Expose-Headers: Accept, Accept-Encoding, Authorization, Content-Length, Content-Type, X-CSRF-Token\r\n"@
        + "Content-Type: text/html; charset=UTF-8\r\n"@
}

/// The reply's body.
pub open spec fn body() -> Seq<char> {
    "<html><body>Hello world</body></html>\r\n"@
}

/// The whole reply: status line, headers, an empty line, body.
pub open spec fn fixed_response_spec() -> Seq<char> {
    status_line() + header_block() + "\r\n"@ + body()
}

/// The reply sent on every connection.
pub fn fixed_response() -> (r: String)
    ensures
        r@ == fixed_response_spec(),
{
    let mut r = String::from_str("HTTP/1.1 200 OK\r\n");
    r.append("Access-Control-Allow-Credentials: true\r\n");
    r.append(
        "Access-Control-Allow-Headers: Accept, Accept-Encoding, Authorization, Content-Length, Content-Type, X-CSRF-Token\r\n",
    );
    r.append("Access-Control-Allow-Methods: POST, GET, OPTIONS, PUT, DELETE, HEAD, PATCH\r\n");
    r.append("Access-Control-Allow-Origin: *\r\n");
    r.append(
        "Access-Control-Expose-Headers: Accept, Accept-Encoding, Authorization, Content-Length, Content-Type, X-CSRF-Token\r\n",
    );
    r.append("Content-Type: text/html; charset=UTF-8\r\n");
    r.append("\r\n");
    r.append("<html><body>Hello world</body></html>\r\n");
    assert(r@ =~= fixed_response_spec());
    r
}

/// The life of one connection.
#[derive(Clone, Copy, Debug, PartialEq, Eq, Structural)]
pub enum ConnPhase {
    /// Just accepted; nothing read yet.
    Accepted,
    /// The request is to be read.
    Reading,
    /// The reply is to be written.
    Writing,
    /// Done; the connection is to be closed.
    Closed,
}

/// The phase that follows `p`.
pub open spec fn successor(p: ConnPhase) -> ConnPhase {
    match p {
        ConnPhase::Accepted => ConnPhase::Reading,
        ConnPhase::Reading => ConnPhase::Writing,
        ConnPhase::Writing => ConnPhase::Closed,
        ConnPhase::Closed => ConnPhase::Closed,
    }
}

impl ConnPhase {
    /// The phase after this one's I/O finished; `io_ok` says whether it
    /// succeeded. The outcome changes nothing: after a failed read the reply
    /// is still written, and after a failed write the connection is still
    /// closed.
    pub fn advance(self, io_ok: bool) -> (r: ConnPhase)
        ensures
            r == successor(self),
    {
        match self {
            ConnPhase::Accepted => ConnPhase::Reading,
            ConnPhase::Reading => ConnPhase::Writing,
            ConnPhase::Writing => ConnPhase::Closed,
            ConnPhase::Closed => ConnPhase::Closed,
        }
    }

    /// Whether the connection is finished.
    pub fn is_closed(self) -> (r: bool)
        ensures
            r == (self == ConnPhase::Closed),
    {
        match self {
            ConnPhase::Closed => true,
            _ => false,
        }
    }
}

/// Every connection gets its reply: from the moment it is accepted, three
/// steps close it, and the last of those is the write, whatever the read and
/// write reported.
pub proof fn lemma_every_connection_is_answered()
    ensures
        successor(ConnPhase::Accepted) == ConnPhase::Reading,
        successor(successor(ConnPhase::Accepted)) == ConnPhase::Writing,
        successor(successor(successor(ConnPhase::Accepted))) == ConnPhase::Closed,
{
}

} // verus!
