use forward_proxy::dispatch::{route_for, Route};
use forward_proxy::pump::{body_forward_chunk, tunnel_forward_chunk};
use forward_proxy::relay::{next_session_step, request_line};
use forward_proxy::target::Target;
use forward_proxy::tunnel::{established_response, tunnel_step, TunnelStep};

#[test]
fn tunnel_forwards_fragments_in_order() {
    let mut sent: Vec<u8> = Vec::new();
    for chunk in [&b"ab"[..], &b""[..], &b"cde"[..], &b"f"[..]] {
        let buf = chunk.to_vec();
        let out = tunnel_forward_chunk(&buf, buf.len());
        assert_eq!(out, buf);
        sent.extend_from_slice(&out);
    }
    assert_eq!(sent, b"abcdef");
}

#[test]
fn tunnel_forwards_only_the_read_prefix() {
    let buf = vec![1u8, 2, 3, 4, 5];
    assert_eq!(tunnel_forward_chunk(&buf, 3), vec![1, 2, 3]);
}

#[test]
fn body_copy_stops_at_content_length() {
    let mut remaining: u64 = 5;
    let first = b"abc".to_vec();
    let out = body_forward_chunk(&mut remaining, &first, 3);
    assert_eq!(out, b"abc".to_vec());
    assert_eq!(remaining, 2);
    let second = b"defg".to_vec();
    let out = body_forward_chunk(&mut remaining, &second, 4);
    assert_eq!(out, b"de".to_vec());
    assert_eq!(remaining, 0);
    let third = b"hi".to_vec();
    let out = body_forward_chunk(&mut remaining, &third, 2);
    assert_eq!(out, b"".to_vec());
    assert_eq!(remaining, 0);
}

#[test]
fn request_line_for_target() {
    let t = Target::from_str("GET http://example.com/a?b=1 HTTP/1.1\r\n").unwrap();
    assert_eq!(request_line(&t), "GET /a?b=1 HTTP/1.1\r\n");
}

#[test]
fn session_ends_cleanly_without_followup() {
    let r = next_session_step(None).unwrap();
    assert!(r.is_none());
}

#[test]
fn session_reresolves_pipelined_requests_in_order() {
    let lines = [
        "GET http://first.example/one HTTP/1.1\r\n",
        "GET http://second.example/two HTTP/1.1\r\n",
    ];
    let mut hosts: Vec<String> = Vec::new();
    for line in lines {
        let t = next_session_step(Some(line)).unwrap().unwrap();
        hosts.push(t.host.clone());
    }
    assert_eq!(hosts, vec!["first.example".to_string(), "second.example".to_string()]);
}

#[test]
fn session_fails_on_bad_followup() {
    assert!(next_session_step(Some("garbage\r\n")).is_err());
}

#[test]
fn routing_by_method() {
    let t = Target::from_str("CONNECT example.com:443 HTTP/1.1\r\n").unwrap();
    assert_eq!(route_for(&t), Route::Tunnel);
    let t = Target::from_str("GET http://example.com/ HTTP/1.1\r\n").unwrap();
    assert_eq!(route_for(&t), Route::HttpRelay);
    let t = Target::from_str("POST http://example.com/ HTTP/1.1\r\n").unwrap();
    assert_eq!(route_for(&t), Route::HttpRelay);
}

#[test]
fn connect_end_to_end_decisions() {
    let t = Target::from_str("CONNECT 1.2.3.4:80 HTTP/1.1\r\n").unwrap();
    assert_eq!(t.host, "1.2.3.4");
    assert_eq!(t.port, 80);
    assert_eq!(route_for(&t), Route::Tunnel);

    // the proxy drains the CONNECT headers up to the blank line
    assert_eq!(tunnel_step(9, "Host: x\r\n"), TunnelStep::SkipHeader);
    assert_eq!(tunnel_step(2, "\r\n"), TunnelStep::HandshakeDone);

    // replies with the literal handshake
    assert_eq!(
        established_response(),
        "HTTP/1.1 200 Connection established\r\n\r\n"
    );

    // and then forwards bytes both ways untouched
    let c2s = b"client hello".to_vec();
    assert_eq!(tunnel_forward_chunk(&c2s, c2s.len()), c2s);
    let s2c = b"server hello".to_vec();
    assert_eq!(tunnel_forward_chunk(&s2c, s2c.len()), s2c);
}

#[test]
fn tunnel_handshake_sees_client_close() {
    assert_eq!(tunnel_step(0, ""), TunnelStep::ClientClosed);
}
