//! HTTP framing of JSON replies, and reading the status of a raw HTTP
//! response that a plugin hands back.
use vstd::prelude::*;
use vstd::string::StringSliceAdditionalSpecFns;
use vstd::utf8::*;
use crate::decimal::{decimal, push_decimal};
use crate::json::{json_object_entry, encode_string_entry};
use crate::text::{push_bytes, push_str_bytes};

verus! {

broadcast use vstd::string::group_string_axioms;

/// `HTTP/1.1 <status>\r\nContent-Type: application/json\r\nContent-Length: <n>\r\n\r\n<body>`,
/// where `<n>` is the length of `body` in bytes.
pub open spec fn json_response_bytes(status: u16, body: Seq<u8>) -> Seq<u8> {
    encode_utf8("HTTP/1.1 "@) + decimal(status as nat) + encode_utf8("\r\n"@)
        + encode_utf8("Content-Type: application/json\r\n"@)
        + encode_utf8("Content-Length: "@) + decimal(body.len()) + encode_utf8("\r\n\r\n"@)
        + body
}

/// The JSON object `{"message":<message>}` in compact form.
pub open spec fn message_body(message: Seq<char>) -> Seq<u8> {
    json_object_entry("message"@, message)
}

/// Builders of JSON HTTP replies that a plugin returns to its caller.
pub struct Json;

impl Json {
    /// Frames an already serialised JSON `body` as an HTTP/1.1 response
    /// with the given status code.
    pub fn response(status: u16, body: &[u8]) -> (res: Vec<u8>)
        ensures
            res@ == json_response_bytes(status, body@),
    {
        let mut buf: Vec<u8> = Vec::new();
        push_str_bytes(&mut buf, "HTTP/1.1 ");
        push_decimal(&mut buf, status as u64);
        push_str_bytes(&mut buf, "\r\n");
        push_str_bytes(&mut buf, "Content-Type: application/json\r\n");
        push_str_bytes(&mut buf, "Content-Length: ");
        push_decimal(&mut buf, body.len() as u64);
        push_str_bytes(&mut buf, "\r\n\r\n");
        push_bytes(&mut buf, body);
        buf
    }

    /// The error reply with the given status whose body is the JSON object
    /// `{"message": message}`.
    pub fn error(status: u16, message: &str) -> (res: Vec<u8>)
        ensures
            res@ == json_response_bytes(status, message_body(message@)),
    {
        let body = encode_string_entry("message", message);
        Json::response(status, body.as_slice())
    }
}

/// The ways the head of an HTTP response can be malformed, one for each
/// error that `httparse` reports.
#[derive(Debug, Clone, Copy, PartialEq, Eq, Structural)]
pub enum HeadError {
    HeaderName,
    HeaderValue,
    NewLine,
    Status,
    Token,
    TooManyHeaders,
    Version,
}

impl HeadError {
    /// The human readable text of the error, as `httparse` words it.
    pub fn description(&self) -> (text: &'static str)
        ensures
            text@ == head_error_text(*self),
    {
        match self {
            HeadError::HeaderName => "invalid header name",
            HeadError::HeaderValue => "invalid header value",
            HeadError::NewLine => "invalid new line",
            HeadError::Status => "invalid response status",
            HeadError::Token => "invalid token",
            HeadError::TooManyHeaders => "too many headers",
            HeadError::Version => "invalid HTTP version",
        }
    }
}

/// The text of each head error.
pub open spec fn head_error_text(e: HeadError) -> Seq<char> {
    match e {
        HeadError::HeaderName => "invalid header name"@,
        HeadError::HeaderValue => "invalid header value"@,
        HeadError::NewLine => "invalid new line"@,
        HeadError::Status => "invalid response status"@,
        HeadError::Token => "invalid token"@,
        HeadError::TooManyHeaders => "too many headers"@,
        HeadError::Version => "invalid HTTP version"@,
    }
}

/// What parsing the head of an HTTP response gives: the head is complete
/// (its length in bytes and the status code read), the bytes end before
/// the head does, or the head is malformed.
#[derive(Debug, Clone, Copy, PartialEq, Eq, Structural)]
pub enum HeadParse {
    Complete(usize, Option<u16>),
    Partial,
    Invalid(HeadError),
}

/// How many headers a plugin's reply may carry in its head.
pub const HEAD_ROOM: usize = 128;

/// What `httparse` reports for a response whose bytes are `bytes`, parsed
/// with room for `max_headers` headers.
pub uninterp spec fn response_head(bytes: Seq<u8>, max_headers: usize) -> HeadParse;

/// Parses the head of an HTTP response with `httparse::Response::parse`,
/// with room for `max_headers` headers (more give `TooManyHeaders`). The
/// outcome is named `response_head(bytes@, max_headers)`.
/// Beyond that, the contract states what `httparse`'s source shows of a
/// complete head: the length it reports counts bytes consumed from
/// `bytes`, and the status code has been read as three decimal digits.
#[verifier::external_body]
pub(crate) fn parse_response_head(bytes: &[u8], max_headers: usize) -> (res: HeadParse)
    ensures
        res == response_head(bytes@, max_headers),
        res matches HeadParse::Complete(len, code) ==> (len <= bytes@.len() && (code matches Some(c) && c <= 999)),
{
    let mut headers = vec![httparse::EMPTY_HEADER; max_headers];
    let mut parsed = httparse::Response::new(&mut headers);
    match parsed.parse(bytes) {
        Ok(httparse::Status::Complete(len)) => HeadParse::Complete(len, parsed.code),
        Ok(httparse::Status::Partial) => HeadParse::Partial,
        Err(httparse::Error::HeaderName) => HeadParse::Invalid(HeadError::HeaderName),
        Err(httparse::Error::HeaderValue) => HeadParse::Invalid(HeadError::HeaderValue),
        Err(httparse::Error::NewLine) => HeadParse::Invalid(HeadError::NewLine),
        Err(httparse::Error::Status) => HeadParse::Invalid(HeadError::Status),
        Err(httparse::Error::Token) => HeadParse::Invalid(HeadError::Token),
        Err(httparse::Error::TooManyHeaders) => HeadParse::Invalid(HeadError::TooManyHeaders),
        Err(httparse::Error::Version) => HeadParse::Invalid(HeadError::Version),
    }
}

/// Why a plugin's bytes could not be read as an HTTP response.
#[derive(Debug, Clone, Copy, PartialEq, Eq, Structural)]
pub enum ResponseError {
    /// The head is malformed.
    Invalid(HeadError),
    /// The bytes end before the head does.
    Incomplete,
}

impl ResponseError {
    /// The human readable text of the error.
    pub fn description(&self) -> (text: &'static str)
        ensures
            text@ == match *self {
                ResponseError::Invalid(e) => head_error_text(e),
                ResponseError::Incomplete => "Failed to parse HTTP response"@,
            },
    {
        match self {
            ResponseError::Invalid(e) => e.description(),
            ResponseError::Incomplete => "Failed to parse HTTP response",
        }
    }
}

/// A plugin's reply read as an HTTP response: its status code and the
/// bytes of its head.
pub struct HttpResponse {
    pub status: u16,
    pub body: Vec<u8>,
}

/// What reading `bytes` as a response gives once its head has been parsed
/// as `head`: on a complete head, the status code (0 where none was read)
/// and the first `len` bytes, the head itself.
pub open spec fn response_outcome(bytes: Seq<u8>, head: HeadParse) -> Result<(u16, Seq<u8>), ResponseError> {
    match head {
        HeadParse::Complete(len, code) => Ok((
            match code {
                Some(c) => c,
                None => 0u16,
            },
            bytes.take(len as int),
        )),
        HeadParse::Partial => Err(ResponseError::Incomplete),
        HeadParse::Invalid(e) => Err(ResponseError::Invalid(e)),
    }
}

/// A result of reading a response, by its plain values.
pub open spec fn response_view(res: Result<HttpResponse, ResponseError>) -> Result<(u16, Seq<u8>), ResponseError> {
    match res {
        Ok(r) => Ok((r.status, r.body@)),
        Err(e) => Err(e),
    }
}

impl HttpResponse {
    /// Reads `bytes` as a response whose head parsed as `head`.
    pub fn from_head(bytes: Vec<u8>, head: HeadParse) -> (res: Result<HttpResponse, ResponseError>)
        requires
            head matches HeadParse::Complete(len, _) ==> len <= bytes@.len(),
        ensures
            response_view(res) == response_outcome(bytes@, head),
    {
        match head {
            HeadParse::Complete(len, code) => {
                let status: u16 = match code {
                    Some(c) => c,
                    None => 0,
                };
                let mut body = bytes;
                body.truncate(len);
                Ok(HttpResponse { status, body })
            },
            HeadParse::Partial => Err(ResponseError::Incomplete),
            HeadParse::Invalid(e) => Err(ResponseError::Invalid(e)),
        }
    }

    /// Reads the bytes a plugin returned as an HTTP response.
    pub fn try_from(bytes: Vec<u8>) -> (res: Result<HttpResponse, ResponseError>)
        ensures
            response_view(res) == response_outcome(bytes@, response_head(bytes@, HEAD_ROOM)),
    {
        let head = parse_response_head(bytes.as_slice(), HEAD_ROOM);
        HttpResponse::from_head(bytes, head)
    }
}

} // verus!
