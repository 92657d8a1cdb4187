//! The Target Resolver: turns a raw request line into a structured
//! destination descriptor, or a typed parse error.
use vstd::prelude::*;
use vstd::string::StrSliceExecFns;
use vstd::string::StringExecFns;

use crate::text::{
    all_digits, dec_val, find_char, find_from, parse_port, str_eq,
};

verus! {

/// Why a request line could not be resolved into a [`Target`].
#[derive(Clone, Copy, Debug, PartialEq, Eq, Structural)]
pub enum ParseError {
    /// The line does not hold the two space-delimited tokens
    /// `METHOD TARGET-ADDRESS`.
    MalformedRequestLine,
    /// A CONNECT target-address is not `host:port` with an in-range port.
    MalformedConnectTarget,
    /// A non-CONNECT target-address is not an absolute URL with a host and
    /// a known port.
    MalformedRequestUrl,
}

/// The mathematical shape of a [`Target`]: what each field holds.
pub struct TargetSpec {
    pub method: Seq<char>,
    pub host: Seq<char>,
    pub port: u16,
    pub path_query: Seq<char>,
}

/// The components the `url` crate reads out of an absolute URL.
pub struct UrlParts {
    pub host: Seq<char>,
    pub port: u16,
    pub path: Seq<char>,
    pub query: Option<Seq<char>>,
}

/// What `url::Url::parse` makes of a string: `None` when it is not an
/// absolute URL or has no host or no known port; otherwise the host, the
/// port (defaulted from the scheme when absent), the path and the query.
/// The parse is a function of the string alone.
pub uninterp spec fn url_parts_of(s: Seq<char>) -> Option<UrlParts>;

/// Relies on `url::Url::parse` together with `Url::host_str`,
/// `Url::port_or_known_default`, `Url::path` and `Url::query`: parsing is
/// deterministic, and each accessor reads a fixed component of the parsed
/// URL, so all four results are functions of the input string alone.
#[verifier::external_body]
fn resolve_absolute_url(s: &str) -> (r: Option<(String, u16, String, Option<String>)>)
    ensures
        (r is Some) == (url_parts_of(s@) is Some),
        r matches Some(p) ==> url_parts_of(s@) matches Some(u) && p.0@ == u.host && p.1
            == u.port && p.2@ == u.path && ((p.3 is Some) == (u.query is Some)) && (
        p.3 matches Some(q) ==> u.query matches Some(uq) && q@ == uq),
{
    match url::Url::parse(s) {
        Ok(u) => match (u.host_str(), u.port_or_known_default()) {
            (Some(h), Some(port)) => Some((
                h.to_string(),
                port,
                u.path().to_string(),
                u.query().map(|q| q.to_string()),
            )),
            _ => None,
        },
        Err(_) => None,
    }
}

/// The CONNECT method token.
pub open spec fn connect_method() -> Seq<char> {
    "CONNECT"@
}

/// The `path?query` string a [`UrlParts`] value flattens to.
pub open spec fn path_query_of(path: Seq<char>, query: Option<Seq<char>>) -> Seq<char> {
    match query {
        Some(q) => path + "?"@ + q,
        None => path,
    }
}

/// What parsing a CONNECT target-address token yields: the host before the
/// first `:`, the decimal port after it.
pub open spec fn parse_connect_spec(method: Seq<char>, target: Seq<char>) -> Result<
    TargetSpec,
    ParseError,
> {
    match find_from(target, ':', 0) {
        None => Err(ParseError::MalformedConnectTarget),
        Some(colon) => {
            let port_str = target.subrange(colon + 1, target.len() as int);
            if port_str.len() > 0 && all_digits(port_str) && dec_val(port_str) <= u16::MAX as int {
                Ok(
                    TargetSpec {
                        method,
                        host: target.subrange(0, colon),
                        port: dec_val(port_str) as u16,
                        path_query: Seq::empty(),
                    },
                )
            } else {
                Err(ParseError::MalformedConnectTarget)
            }
        },
    }
}

/// What parsing a non-CONNECT target-address token yields: the parts of the
/// absolute URL it names.
pub open spec fn parse_url_spec(method: Seq<char>, target: Seq<char>) -> Result<
    TargetSpec,
    ParseError,
> {
    match url_parts_of(target) {
        None => Err(ParseError::MalformedRequestUrl),
        Some(u) => Ok(
            TargetSpec {
                method,
                host: u.host,
                port: u.port,
                path_query: path_query_of(u.path, u.query),
            },
        ),
    }
}

/// What parsing a whole request line yields. The method is everything before
/// the first space; the target-address runs from there to the next space or
/// the end of the line; a line without any space is malformed.
pub open spec fn parse_spec(line: Seq<char>) -> Result<TargetSpec, ParseError> {
    match find_from(line, ' ', 0) {
        None => Err(ParseError::MalformedRequestLine),
        Some(sp) => {
            let method = line.subrange(0, sp);
            let tgt_end = match find_from(line, ' ', sp + 1) {
                Some(sp2) => sp2,
                None => line.len() as int,
            };
            let target = line.subrange(sp + 1, tgt_end);
            if method == connect_method() {
                parse_connect_spec(method, target)
            } else {
                parse_url_spec(method, target)
            }
        },
    }
}

/// Immutable-once-built descriptor of one request's destination.
#[derive(Debug)]
pub struct Target {
    /// Request method token, e.g. `CONNECT`, `GET`.
    pub method: String,
    /// Destination hostname or IP literal.
    pub host: String,
    /// Destination TCP port.
    pub port: u16,
    /// Path plus optional `?query`; empty for CONNECT.
    pub path_query: String,
}

impl View for Target {
    type V = TargetSpec;

    open spec fn view(&self) -> TargetSpec {
        TargetSpec {
            method: self.method@,
            host: self.host@,
            port: self.port,
            path_query: self.path_query@,
        }
    }
}

impl Target {
    /// Resolves a raw request line into a destination descriptor, exactly as
    /// [`parse_spec`] describes.
    pub fn from_str(line: &str) -> (r: Result<Target, ParseError>)
        ensures
            (r is Ok) == (parse_spec(line@) is Ok),
            r matches Ok(t) ==> parse_spec(line@) matches Ok(ts) && t@ == ts,
            r matches Err(e) ==> parse_spec(line@) matches Err(es) && e == es,
    {
        let sp = match find_char(line, 0, ' ') {
            None => {
                return Err(ParseError::MalformedRequestLine);
            },
            Some(i) => i,
        };
        let n: usize = line.unicode_len();
        let method = line.substring_char(0, sp);
        let tgt_end = match find_char(line, sp + 1, ' ') {
            Some(j) => j,
            None => n,
        };
        let target = line.substring_char(sp + 1, tgt_end);
        if str_eq(method, "CONNECT") {
            Self::parse_connect(method, target)
        } else {
            Self::parse_url(method, target)
        }
    }

    fn parse_connect(method: &str, target: &str) -> (r: Result<Target, ParseError>)
        requires
            method@ == connect_method(),
        ensures
            (r is Ok) == (parse_connect_spec(method@, target@) is Ok),
            r matches Ok(t) ==> parse_connect_spec(method@, target@) matches Ok(ts) && t@ == ts,
            r matches Err(e) ==> parse_connect_spec(method@, target@) matches Err(es) && e == es,
    {
        let colon = match find_char(target, 0, ':') {
            None => {
                return Err(ParseError::MalformedConnectTarget);
            },
            Some(c) => c,
        };
        let n: usize = target.unicode_len();
        let host = target.substring_char(0, colon);
        let port_str = target.substring_char(colon + 1, n);
        match parse_port(port_str) {
            Some(port) => Ok(
                Target {
                    method: method.to_owned(),
                    host: host.to_owned(),
                    port,
                    path_query: String::new(),
                },
            ),
            None => Err(ParseError::MalformedConnectTarget),
        }
    }

    fn parse_url(method: &str, target: &str) -> (r: Result<Target, ParseError>)
        ensures
            (r is Ok) == (parse_url_spec(method@, target@) is Ok),
            r matches Ok(t) ==> parse_url_spec(method@, target@) matches Ok(ts) && t@ == ts,
            r matches Err(e) ==> parse_url_spec(method@, target@) matches Err(es) && e == es,
    {
        match resolve_absolute_url(target) {
            None => Err(ParseError::MalformedRequestUrl),
            Some(parts) => {
                let (host, port, path, query) = parts;
                let mut path_query = path;
                match query {
                    Some(q) => {
                        path_query.append("?");
                        path_query.append(q.as_str());
                    },
                    None => {},
                }
                Ok(Target { method: method.to_owned(), host, port, path_query })
            },
        }
    }
}

} // verus!
