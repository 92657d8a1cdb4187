use forward_proxy::target::{ParseError, Target};

#[test]
fn connect_target_with_port() {
    let t = Target::from_str("CONNECT example.com:443 HTTP/1.1\r\n").unwrap();
    assert_eq!(t.method, "CONNECT");
    assert_eq!(t.host, "example.com");
    assert_eq!(t.port, 443);
    assert_eq!(t.path_query, "");
}

#[test]
fn absolute_url_with_query() {
    let t = Target::from_str("GET http://example.com/a?b=1 HTTP/1.1\r\n").unwrap();
    assert_eq!(t.method, "GET");
    assert_eq!(t.host, "example.com");
    assert_eq!(t.port, 80);
    assert_eq!(t.path_query, "/a?b=1");
}

#[test]
fn connect_without_colon_is_malformed() {
    let r = Target::from_str("CONNECT badtarget HTTP/1.1\r\n");
    assert_eq!(r.unwrap_err(), ParseError::MalformedConnectTarget);
}

#[test]
fn missing_second_token_is_malformed_line() {
    let r = Target::from_str("GET\r\n");
    assert_eq!(r.unwrap_err(), ParseError::MalformedRequestLine);
}

#[test]
fn empty_line_is_malformed_line() {
    let r = Target::from_str("");
    assert_eq!(r.unwrap_err(), ParseError::MalformedRequestLine);
}

#[test]
fn connect_port_upper_bound() {
    let t = Target::from_str("CONNECT h:65535 HTTP/1.1\r\n").unwrap();
    assert_eq!(t.port, 65535);
    let r = Target::from_str("CONNECT h:65536 HTTP/1.1\r\n");
    assert_eq!(r.unwrap_err(), ParseError::MalformedConnectTarget);
}

#[test]
fn connect_empty_or_textual_port() {
    let r = Target::from_str("CONNECT h: HTTP/1.1\r\n");
    assert_eq!(r.unwrap_err(), ParseError::MalformedConnectTarget);
    let r = Target::from_str("CONNECT h:https HTTP/1.1\r\n");
    assert_eq!(r.unwrap_err(), ParseError::MalformedConnectTarget);
}

#[test]
fn relative_url_is_malformed_url() {
    let r = Target::from_str("GET notaurl HTTP/1.1\r\n");
    assert_eq!(r.unwrap_err(), ParseError::MalformedRequestUrl);
}

#[test]
fn url_default_path_and_scheme_ports() {
    let t = Target::from_str("GET http://example.com HTTP/1.1\r\n").unwrap();
    assert_eq!(t.path_query, "/");
    assert_eq!(t.port, 80);
    let t = Target::from_str("GET https://example.com/x HTTP/1.1\r\n").unwrap();
    assert_eq!(t.port, 443);
    assert_eq!(t.path_query, "/x");
}

#[test]
fn url_explicit_port_wins() {
    let t = Target::from_str("GET http://example.com:8080/p HTTP/1.1\r\n").unwrap();
    assert_eq!(t.port, 8080);
    assert_eq!(t.host, "example.com");
    assert_eq!(t.path_query, "/p");
}
