use worker_pool::responder::{append, append_decimal, respond, route, starts_with, Route};

fn decimal_of(n: usize) -> Vec<u8> {
    let mut out: Vec<u8> = Vec::new();
    append_decimal(&mut out, n);
    out
}

#[test]
fn get_of_root_is_the_greeting() {
    assert_eq!(route(b"GET / HTTP/1.1\r\n"), Route::Root);
    assert_eq!(route(b"GET / HTTP/1.1\r\nHost: localhost\r\n\r\n"), Route::Root);
}

#[test]
fn get_of_sleep_is_the_slow_greeting() {
    assert_eq!(route(b"GET /sleep HTTP/1.1\r\n"), Route::Sleep);
    assert_eq!(route(b"GET /sleep HTTP/1.1\r\nHost: x\r\n\r\n"), Route::Sleep);
}

#[test]
fn anything_else_is_not_found() {
    assert_eq!(route(b""), Route::NotFound);
    assert_eq!(route(b"GET / HTTP/1.1\r"), Route::NotFound);
    assert_eq!(route(b"GET / HTTP/1.0\r\n"), Route::NotFound);
    assert_eq!(route(b"GET /favicon.ico HTTP/1.1\r\n"), Route::NotFound);
    assert_eq!(route(b"POST / HTTP/1.1\r\n"), Route::NotFound);
    assert_eq!(route(b" GET / HTTP/1.1\r\n"), Route::NotFound);
    assert_eq!(route(b"GET /sleep HTTP/1.1\n"), Route::NotFound);
}

#[test]
fn request_in_a_zeroed_buffer_is_routed() {
    let mut buffer: Vec<u8> = vec![0u8; 1024];
    assert_eq!(route(&buffer), Route::NotFound);
    let line = b"GET /sleep HTTP/1.1\r\n";
    buffer[..line.len()].copy_from_slice(line);
    assert_eq!(route(&buffer), Route::Sleep);
}

#[test]
fn routes_name_their_status_file_and_delay() {
    assert_eq!(Route::Root.status_line(), "HTTP/1.1 200 OK");
    assert_eq!(Route::Sleep.status_line(), "HTTP/1.1 200 OK");
    assert_eq!(Route::NotFound.status_line(), "HTTP/1.1 404 NOT FOUND");
    assert_eq!(Route::Root.file_name(), "hello.html");
    assert_eq!(Route::Sleep.file_name(), "hello.html");
    assert_eq!(Route::NotFound.file_name(), "404.html");
    assert_eq!(Route::Root.delay_seconds(), 0);
    assert_eq!(Route::Sleep.delay_seconds(), 5);
    assert_eq!(Route::NotFound.delay_seconds(), 0);
}

#[test]
fn starts_with_compares_the_leading_bytes() {
    assert!(starts_with(b"abc", b""));
    assert!(starts_with(b"abc", b"ab"));
    assert!(starts_with(b"abc", b"abc"));
    assert!(!starts_with(b"abc", b"abcd"));
    assert!(!starts_with(b"abc", b"b"));
    assert!(!starts_with(b"", b"a"));
}

#[test]
fn append_keeps_what_was_there() {
    let mut out: Vec<u8> = vec![1u8, 2];
    append(&mut out, &[3u8, 4, 5]);
    assert_eq!(out, vec![1u8, 2, 3, 4, 5]);
    append(&mut out, &[]);
    assert_eq!(out, vec![1u8, 2, 3, 4, 5]);
}

#[test]
fn decimal_has_no_leading_zeros() {
    assert_eq!(decimal_of(0), b"0".to_vec());
    assert_eq!(decimal_of(7), b"7".to_vec());
    assert_eq!(decimal_of(10), b"10".to_vec());
    assert_eq!(decimal_of(1024), b"1024".to_vec());
    assert_eq!(decimal_of(90210), b"90210".to_vec());
    assert_eq!(decimal_of(usize::MAX), format!("{}", usize::MAX).into_bytes());
}

#[test]
fn response_frames_the_body() {
    let response = respond("HTTP/1.1 200 OK", "hello");
    assert_eq!(response, b"HTTP/1.1 200 OK\r\nContent-Length: 5\r\n\r\nhello".to_vec());
}

#[test]
fn response_with_an_empty_body() {
    let response = respond("HTTP/1.1 404 NOT FOUND", "");
    assert_eq!(response, b"HTTP/1.1 404 NOT FOUND\r\nContent-Length: 0\r\n\r\n".to_vec());
}

#[test]
fn response_counts_bytes_not_characters() {
    let content = "<p>caf\u{e9}</p>\n";
    let status = Route::Root.status_line();
    let expected = format!("{}\r\nContent-Length: {}\r\n\r\n{}", status, content.len(), content);
    assert_eq!(content.len(), 13);
    assert_eq!(respond(status, content), expected.into_bytes());
}
