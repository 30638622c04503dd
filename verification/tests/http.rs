use plugind::http::{HeadError, HeadParse, HttpResponse, Json, ResponseError};

#[test]
fn response_frames_json_body() {
    let framed = Json::response(200, b"{\"a\":1}");
    assert_eq!(
        framed,
        b"HTTP/1.1 200\r\nContent-Type: application/json\r\nContent-Length: 7\r\n\r\n{\"a\":1}".to_vec()
    );
}

#[test]
fn response_status_and_length_in_decimal() {
    let body = vec![b'x'; 1234];
    let framed = Json::response(0, &body);
    let mut expected = b"HTTP/1.1 0\r\nContent-Type: application/json\r\nContent-Length: 1234\r\n\r\n".to_vec();
    expected.extend_from_slice(&body);
    assert_eq!(framed, expected);
    let framed = Json::response(65535, b"");
    assert_eq!(
        framed,
        b"HTTP/1.1 65535\r\nContent-Type: application/json\r\nContent-Length: 0\r\n\r\n".to_vec()
    );
}

#[test]
fn error_wraps_message_in_json_object() {
    let framed = Json::error(404, "not \"found\"");
    let body = b"{\"message\":\"not \\\"found\\\"\"}";
    let mut expected = format!(
        "HTTP/1.1 404\r\nContent-Type: application/json\r\nContent-Length: {}\r\n\r\n",
        body.len()
    )
    .into_bytes();
    expected.extend_from_slice(body);
    assert_eq!(framed, expected);
}

#[test]
fn error_counts_length_in_bytes() {
    let framed = Json::error(500, "é");
    let text = String::from_utf8(framed).unwrap();
    assert_eq!(
        text,
        "HTTP/1.1 500\r\nContent-Type: application/json\r\nContent-Length: 16\r\n\r\n{\"message\":\"é\"}"
    );
}

#[test]
fn try_from_complete_head_keeps_the_head() {
    let raw = b"HTTP/1.1 404 Not Found\r\nContent-Length: 4\r\n\r\nbody".to_vec();
    let res = HttpResponse::try_from(raw.clone()).ok().unwrap();
    assert_eq!(res.status, 404);
    assert_eq!(res.body, raw[..raw.len() - 4].to_vec());
}

#[test]
fn try_from_partial_head_is_incomplete() {
    let res = HttpResponse::try_from(b"HTTP/1.1 200 OK\r\nX: y".to_vec());
    assert!(matches!(res, Err(ResponseError::Incomplete)));
    assert_eq!(ResponseError::Incomplete.description(), "Failed to parse HTTP response");
}

#[test]
fn try_from_malformed_head_is_invalid() {
    let res = HttpResponse::try_from(b"HTTP/1.1 2x0 OK\r\n\r\n".to_vec());
    assert!(matches!(res, Err(ResponseError::Invalid(HeadError::Status))));
    assert_eq!(ResponseError::Invalid(HeadError::Status).description(), "invalid response status");
    let res = HttpResponse::try_from(b"garbage!\r\n\r\n".to_vec());
    assert!(matches!(res, Err(ResponseError::Invalid(_))));
}

#[test]
fn from_head_without_code_gives_zero() {
    let res = HttpResponse::from_head(b"abcdef".to_vec(), HeadParse::Complete(3, None)).ok().unwrap();
    assert_eq!(res.status, 0);
    assert_eq!(res.body, b"abc".to_vec());
    let res = HttpResponse::from_head(b"abcdef".to_vec(), HeadParse::Complete(6, Some(201))).ok().unwrap();
    assert_eq!(res.status, 201);
    assert_eq!(res.body, b"abcdef".to_vec());
    assert!(matches!(
        HttpResponse::from_head(vec![], HeadParse::Invalid(HeadError::Token)),
        Err(ResponseError::Invalid(HeadError::Token))
    ));
    assert!(matches!(HttpResponse::from_head(vec![], HeadParse::Partial), Err(ResponseError::Incomplete)));
}

#[test]
fn head_error_descriptions() {
    assert_eq!(HeadError::HeaderName.description(), "invalid header name");
    assert_eq!(HeadError::HeaderValue.description(), "invalid header value");
    assert_eq!(HeadError::NewLine.description(), "invalid new line");
    assert_eq!(HeadError::Token.description(), "invalid token");
    assert_eq!(HeadError::TooManyHeaders.description(), "too many headers");
    assert_eq!(HeadError::Version.description(), "invalid HTTP version");
}

#[test]
fn error_escapes_control_bytes() {
    let framed = Json::error(400, "a\nb\u{1}\\/\t");
    let body = b"{\"message\":\"a\\nb\\u0001\\\\/\\t\"}";
    let mut expected = format!(
        "HTTP/1.1 400\r\nContent-Type: application/json\r\nContent-Length: {}\r\n\r\n",
        body.len()
    )
    .into_bytes();
    expected.extend_from_slice(body);
    assert_eq!(framed, expected);
}

#[test]
fn try_from_head_with_too_many_headers_is_invalid() {
    let mut raw = b"HTTP/1.1 200 OK\r\n".to_vec();
    for _ in 0..129 {
        raw.extend_from_slice(b"X: y\r\n");
    }
    raw.extend_from_slice(b"\r\n");
    let res = HttpResponse::try_from(raw);
    assert!(matches!(res, Err(ResponseError::Invalid(HeadError::TooManyHeaders))));
}
