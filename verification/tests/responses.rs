use sigma_serve::response::Response;

fn wire(response: &Response) -> Vec<u8> {
    let mut out = Vec::new();
    response.write(&mut out);
    out
}

#[test]
fn new_keeps_its_parts() {
    let response = Response::new(200, "Ok", vec![1, 2, 3]);
    assert_eq!(response.status_code, 200);
    assert_eq!(response.status_message, "Ok");
    assert_eq!(response.body, vec![1, 2, 3]);
}

#[test]
fn ok_carries_the_contents() {
    let response = Response::ok(b"<h1>hi</h1>".to_vec());
    assert_eq!(response, Response::new(200, "Ok", b"<h1>hi</h1>".to_vec()));
}

#[test]
fn bad_request_is_fixed() {
    assert_eq!(Response::bad_request(), Response::new(400, "Bad Request", b"Bad Request".to_vec()));
}

#[test]
fn not_found_uses_the_fallback_page() {
    let response = Response::not_found(Some(b"<p>gone</p>".to_vec()));
    assert_eq!(response, Response::new(404, "Not Found", b"<p>gone</p>".to_vec()));
}

#[test]
fn not_found_uses_an_empty_fallback_page() {
    let response = Response::not_found(Some(Vec::new()));
    assert_eq!(response, Response::new(404, "Not Found", Vec::new()));
}

#[test]
fn not_found_without_a_page_is_fixed() {
    let response = Response::not_found(None);
    assert_eq!(response, Response::new(404, "Not Found", b"404 Not Found".to_vec()));
}

#[test]
fn method_not_allowed_is_fixed() {
    assert_eq!(
        Response::method_not_allowed(),
        Response::new(405, "Method Not Allowed", b"Method Not Allowed".to_vec())
    );
}

#[test]
fn internal_error_is_fixed() {
    assert_eq!(
        Response::internal_error(),
        Response::new(500, "Internal Server Error", b"Internal Server Error".to_vec())
    );
}

#[test]
fn writes_status_line_length_and_body() {
    let response = Response::new(200, "Ok", b"hello".to_vec());
    assert_eq!(wire(&response), b"HTTP/1.1 200 Ok\r\nContent-Length: 5\r\n\r\nhello".to_vec());
}

#[test]
fn writes_an_empty_body() {
    let response = Response::new(204, "No Content", Vec::new());
    assert_eq!(wire(&response), b"HTTP/1.1 204 No Content\r\nContent-Length: 0\r\n\r\n".to_vec());
}

#[test]
fn writes_the_fixed_not_found() {
    assert_eq!(
        wire(&Response::not_found(None)),
        b"HTTP/1.1 404 Not Found\r\nContent-Length: 13\r\n\r\n404 Not Found".to_vec()
    );
}

#[test]
fn writes_long_lengths_in_decimal() {
    let response = Response::new(200, "Ok", vec![b'x'; 12345]);
    let mut expected = b"HTTP/1.1 200 Ok\r\nContent-Length: 12345\r\n\r\n".to_vec();
    expected.extend_from_slice(&vec![b'x'; 12345]);
    assert_eq!(wire(&response), expected);
}

#[test]
fn writes_bodies_that_are_not_text() {
    let response = Response::new(200, "Ok", vec![0, 255, 13, 10]);
    let mut expected = b"HTTP/1.1 200 Ok\r\nContent-Length: 4\r\n\r\n".to_vec();
    expected.extend_from_slice(&[0, 255, 13, 10]);
    assert_eq!(wire(&response), expected);
}

#[test]
fn writes_any_status_code() {
    assert_eq!(wire(&Response::new(0, "", Vec::new())), b"HTTP/1.1 0 \r\nContent-Length: 0\r\n\r\n".to_vec());
    assert_eq!(
        wire(&Response::new(-7, "Odd", Vec::new())),
        b"HTTP/1.1 -7 Odd\r\nContent-Length: 0\r\n\r\n".to_vec()
    );
    assert_eq!(
        wire(&Response::new(i32::MAX, "Max", Vec::new())),
        b"HTTP/1.1 2147483647 Max\r\nContent-Length: 0\r\n\r\n".to_vec()
    );
    assert_eq!(
        wire(&Response::new(i32::MIN, "Min", Vec::new())),
        b"HTTP/1.1 -2147483648 Min\r\nContent-Length: 0\r\n\r\n".to_vec()
    );
}

#[test]
fn writes_messages_as_utf8() {
    let response = Response::new(200, "D\u{e9}j\u{e0}", Vec::new());
    assert_eq!(wire(&response), "HTTP/1.1 200 D\u{e9}j\u{e0}\r\nContent-Length: 0\r\n\r\n".as_bytes().to_vec());
}

#[test]
fn write_appends_to_what_is_there() {
    let mut out = b"kept".to_vec();
    Response::new(200, "Ok", b"a".to_vec()).write(&mut out);
    assert_eq!(out, b"keptHTTP/1.1 200 Ok\r\nContent-Length: 1\r\n\r\na".to_vec());
}

#[test]
fn write_agrees_with_formatting() {
    for code in [-1000, -1, 0, 9, 10, 99, 100, 404, 65535] {
        for len in [0usize, 1, 9, 10, 11, 99, 100, 101, 1000] {
            let response = Response::new(code, "Message", vec![7; len]);
            let mut expected =
                format!("HTTP/1.1 {} {}\r\nContent-Length: {}\r\n\r\n", code, "Message", len)
                    .into_bytes();
            expected.extend_from_slice(&vec![7; len]);
            assert_eq!(wire(&response), expected);
        }
    }
}
