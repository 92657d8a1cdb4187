//! Header-line decisions shared by both relays: spotting the blank line that
//! ends a header block, and tracking the `Content-Length` header that frames
//! a request body.
use vstd::prelude::*;
use vstd::string::StrSliceExecFns;

use crate::text::{
    all_digits, dec_val, eq_ignore_ascii_case, find_char, find_from, parse_u64,
    seq_eq_ignore_ascii_case, trim_spaces, trimmed,
};

verus! {

/// The line terminator; on its own it closes a header block.
pub open spec fn crlf() -> Seq<char> {
    "\r\n"@
}

/// Whether `line` is exactly the empty line `\r\n` that ends the headers.
pub fn is_end_of_headers(line: &str) -> (r: bool)
    ensures
        r == (line@ == crlf()),
{
    proof {
        reveal_strlit("\r\n");
    }
    let n: usize = line.unicode_len();
    if n != 2 {
        return false;
    }
    if line.get_char(0) == '\r' && line.get_char(1) == '\n' {
        proof {
            assert(line@ =~= crlf());
        }
        true
    } else {
        false
    }
}

/// The header name whose value frames the request body.
pub open spec fn content_length_name() -> Seq<char> {
    "content-length"@
}

/// The body length a header line leaves in force: a `Content-Length` header
/// (matched without regard to ASCII case) replaces `current` with its value
/// when that value is a decimal numeral in range; every other line, and an
/// unreadable value, leaves `current` as it was.
pub open spec fn content_length_update(line: Seq<char>, current: u64) -> u64 {
    match find_from(line, ':', 0) {
        None => current,
        Some(colon) => {
            if seq_eq_ignore_ascii_case(line.subrange(0, colon), content_length_name()) {
                let v = trimmed(line.subrange(colon + 1, line.len() as int));
                if v.len() > 0 && all_digits(v) && dec_val(v) <= u64::MAX as int {
                    dec_val(v) as u64
                } else {
                    current
                }
            } else {
                current
            }
        },
    }
}

/// Reads one header line and returns the body length now in force, exactly
/// as [`content_length_update`] describes.
pub fn header_content_length(line: &str, current: u64) -> (r: u64)
    ensures
        r == content_length_update(line@, current),
{
    let colon = match find_char(line, 0, ':') {
        None => {
            return current;
        },
        Some(c) => c,
    };
    let name = line.substring_char(0, colon);
    if !eq_ignore_ascii_case(name, "content-length") {
        return current;
    }
    let n: usize = line.unicode_len();
    let value = trim_spaces(line.substring_char(colon + 1, n));
    match parse_u64(value) {
        Some(v) => v,
        None => current,
    }
}

/// State carried while a request's header block is forwarded upstream: the
/// body length announced so far (zero until a `Content-Length` header is
/// seen).
pub struct HeaderScan {
    pub content_length: u64,
}

/// What to do after one attempted header-line read on the client connection.
#[derive(Clone, Copy, Debug, PartialEq, Eq, Structural)]
pub enum HeaderStep {
    /// The client reached end-of-stream: end the session cleanly.
    ClientClosed,
    /// The line was the header terminator: forward it, then move on to the
    /// body, whose length the scan now holds.
    HeadersDone,
    /// An ordinary header line: forward it and keep reading.
    MoreHeaders,
}

impl HeaderScan {
    /// A scan at the start of a request, before any header announced a body.
    pub fn new() -> (s: HeaderScan)
        ensures
            s.content_length == 0,
    {
        HeaderScan { content_length: 0 }
    }

    /// Feeds one read result (`read_len` bytes making up `line`; zero means
    /// end-of-stream) into the scan and decides the next step.
    pub fn step(&mut self, read_len: usize, line: &str) -> (r: HeaderStep)
        ensures
            (r is ClientClosed) == (read_len == 0),
            (r is HeadersDone) == (read_len != 0 && line@ == crlf()),
            (r is MoreHeaders) == (read_len != 0 && line@ != crlf()),
            read_len == 0 ==> *final(self) == *old(self),
            read_len != 0 ==> final(self).content_length == content_length_update(
                line@,
                old(self).content_length,
            ),
    {
        if read_len == 0 {
            return HeaderStep::ClientClosed;
        }
        self.content_length = header_content_length(line, self.content_length);
        if is_end_of_headers(line) {
            HeaderStep::HeadersDone
        } else {
            HeaderStep::MoreHeaders
        }
    }
}

} // verus!
