//! The CONNECT tunnel's decisions: draining the request headers, and the
//! exact handshake line sent back to the client before bytes flow.
use vstd::prelude::*;

use crate::headers::{crlf, is_end_of_headers};

verus! {

/// The literal success response that opens a tunnel.
pub open spec fn established_response_spec() -> Seq<char> {
    "HTTP/1.1 200 Connection established\r\n\r\n"@
}

/// The exact handshake the proxy writes to the client once the CONNECT
/// headers are drained.
pub fn established_response() -> (r: &'static str)
    ensures
        r@ == established_response_spec(),
{
    "HTTP/1.1 200 Connection established\r\n\r\n"
}

/// What to do after one attempted header-line read during the CONNECT
/// handshake.
#[derive(Clone, Copy, Debug, PartialEq, Eq, Structural)]
pub enum TunnelStep {
    /// The client reached end-of-stream before the blank line: end the
    /// session cleanly, with nothing opened upstream.
    ClientClosed,
    /// The blank line arrived: the handshake headers are done; connect
    /// upstream and start pumping bytes.
    HandshakeDone,
    /// An ordinary header line: discard it and keep reading.
    SkipHeader,
}

/// Feeds one read result (`read_len` bytes making up `line`; zero means
/// end-of-stream) into the handshake and decides the next step.
pub fn tunnel_step(read_len: usize, line: &str) -> (r: TunnelStep)
    ensures
        (r is ClientClosed) == (read_len == 0),
        (r is HandshakeDone) == (read_len != 0 && line@ == crlf()),
        (r is SkipHeader) == (read_len != 0 && line@ != crlf()),
{
    if read_len == 0 {
        TunnelStep::ClientClosed
    } else if is_end_of_headers(line) {
        TunnelStep::HandshakeDone
    } else {
        TunnelStep::SkipHeader
    }
}

} // verus!
