use forward_proxy::headers::{header_content_length, is_end_of_headers, HeaderScan, HeaderStep};

#[test]
fn blank_line_ends_headers() {
    assert!(is_end_of_headers("\r\n"));
    assert!(!is_end_of_headers("x\r\n"));
    assert!(!is_end_of_headers(""));
    assert!(!is_end_of_headers("\n"));
}

#[test]
fn content_length_is_read() {
    assert_eq!(header_content_length("Content-Length: 42\r\n", 0), 42);
    assert_eq!(header_content_length("content-length:7\r\n", 0), 7);
    assert_eq!(header_content_length("CONTENT-LENGTH:\t19 \r\n", 0), 19);
}

#[test]
fn other_headers_leave_length_alone() {
    assert_eq!(header_content_length("Host: example.com\r\n", 3), 3);
    assert_eq!(header_content_length("no colon here\r\n", 3), 3);
    assert_eq!(header_content_length("\r\n", 3), 3);
}

#[test]
fn unreadable_length_keeps_current() {
    assert_eq!(header_content_length("Content-Length: abc\r\n", 5), 5);
    assert_eq!(header_content_length("Content-Length: \r\n", 5), 5);
    assert_eq!(
        header_content_length("Content-Length: 99999999999999999999\r\n", 5),
        5
    );
}

#[test]
fn scan_walks_a_header_block() {
    let mut scan = HeaderScan::new();
    assert_eq!(scan.step(18, "Host: example.com\r\n"), HeaderStep::MoreHeaders);
    assert_eq!(scan.content_length, 0);
    assert_eq!(scan.step(20, "Content-Length: 11\r\n"), HeaderStep::MoreHeaders);
    assert_eq!(scan.content_length, 11);
    assert_eq!(scan.step(2, "\r\n"), HeaderStep::HeadersDone);
    assert_eq!(scan.content_length, 11);
}

#[test]
fn scan_sees_client_close() {
    let mut scan = HeaderScan::new();
    assert_eq!(scan.step(0, ""), HeaderStep::ClientClosed);
    assert_eq!(scan.content_length, 0);
}
