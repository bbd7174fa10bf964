use frpc::server::proto::handshake_res;
use frpc::server::utils::{html_response, sec_web_socket_key};
use frpc::server::{route, Route};

#[test]
fn test() {
    // The server answers requests by how they begin; a chat request gets its key read.
    let request = b"GET /chat HTTP/1.1\r\nHost: example.com:8000\r\nUpgrade: websocket\r\nConnection: Upgrade\r\nSec-WebSocket-Key: dGhlIHNhbXBsZSBub25jZQ==\r\nSec-WebSocket-Version: 13\r\n\r\n";
    println!("{:?}", route(request));
    println!("{:#?}", sec_web_socket_key(request));
}

#[test]
fn route_by_prefix() {
    assert_eq!(route(b"GET /echo HTTP/1.1"), Route::Echo);
    assert_eq!(route(b"GET /index HTTP/1.1"), Route::Index);
    assert_eq!(route(b"GET /chat HTTP/1.1"), Route::Chat);
    assert_eq!(route(b"POST /echo HTTP/1.1"), Route::Ignore);
    assert_eq!(route(b"GET /ech"), Route::Ignore);
    assert_eq!(route(b""), Route::Ignore);
}

#[test]
fn key_from_handshake_request() {
    let request = b"GET /chat HTTP/1.1\r\nHost: example.com:8000\r\nUpgrade: websocket\r\nConnection: Upgrade\r\nSec-WebSocket-Key: dGhlIHNhbXBsZSBub25jZQ==\r\nSec-WebSocket-Version: 13\r\n\r\n";
    assert_eq!(sec_web_socket_key(request), Some("dGhlIHNhbXBsZSBub25jZQ=="));
}

#[test]
fn key_edge_cases() {
    // Missing header.
    assert_eq!(sec_web_socket_key(b"GET /chat HTTP/1.1\r\nHost: x\r\n\r\n"), None);
    // Header without the separator.
    assert_eq!(sec_web_socket_key(b"Sec-WebSocket-Key:abc\r\n"), None);
    // Last line without a line break, no carriage return.
    assert_eq!(sec_web_socket_key(b"Host: x\nSec-WebSocket-Key: abc"), Some("abc"));
    // A colon that is not followed by a space stays in the value.
    assert_eq!(sec_web_socket_key(b"Sec-WebSocket-Key: a:b\r\nHost: x\r\n"), Some("a:b"));
    // A second separator ends the value.
    assert_eq!(sec_web_socket_key(b"Sec-WebSocket-Key: a: b\r\n"), Some("a"));
    // Empty value.
    assert_eq!(sec_web_socket_key(b"Sec-WebSocket-Key: \r\n"), Some(""));
    // A carriage return not followed by a line feed stays in the text.
    assert_eq!(sec_web_socket_key(b"Sec-WebSocket-Key: abc\r"), Some("abc\r"));
    // Only the first matching line counts.
    assert_eq!(
        sec_web_socket_key(b"Sec-WebSocket-Key-X\r\nSec-WebSocket-Key: k\r\n"),
        None
    );
    // Non-UTF-8 input.
    assert_eq!(sec_web_socket_key(b"Sec-WebSocket-Key: \xff\r\n"), None);
    // Multi-byte text around the key.
    assert_eq!(
        sec_web_socket_key("Sec-WebSocket-Key: ключ\r\n".as_bytes()),
        Some("ключ")
    );
}

#[test]
fn handshake_response_of_rfc_example() {
    let res = [
        "HTTP/1.1 101 Switching Protocols",
        "Upgrade: websocket",
        "Connection: Upgrade",
        "Sec-WebSocket-Accept: s3pPLMBiTxaQ9kYGzzhZRbK+xOo=",
        "",
        "",
    ];
    assert_eq!(handshake_res("dGhlIHNhbXBsZSBub25jZQ=="), res.join("\r\n"));
}

#[test]
fn handshake_accept_is_28_chars() {
    let res = handshake_res("");
    let accept = res
        .lines()
        .find(|l| l.starts_with("Sec-WebSocket-Accept: "))
        .unwrap()
        .trim_start_matches("Sec-WebSocket-Accept: ");
    assert_eq!(accept.len(), 28);
}

#[test]
fn html_page_response() {
    let body = "<h1>hi</h1>";
    let res = html_response(body.as_bytes());
    assert_eq!(
        String::from_utf8(res).unwrap(),
        "HTTP/1.1 200 OK\r\nContent-Type: text/html\r\nContent-Length: 11\r\n\r\n<h1>hi</h1>"
    );
    let res = html_response(b"");
    assert_eq!(
        String::from_utf8(res).unwrap(),
        "HTTP/1.1 200 OK\r\nContent-Type: text/html\r\nContent-Length: 0\r\n\r\n"
    );
}
