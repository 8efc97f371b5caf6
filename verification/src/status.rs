//! HTTP status codes that the routes answer with, and their reason phrases.
use vstd::prelude::*;

verus! {

/// 200 OK.
pub const STATUS_OK: u16 = 200;
/// 201 Created.
pub const STATUS_CREATED: u16 = 201;
/// 204 No Content.
pub const STATUS_NO_CONTENT: u16 = 204;
/// 400 Bad Request.
pub const STATUS_BAD_REQUEST: u16 = 400;
/// 401 Unauthorized.
pub const STATUS_UNAUTHORIZED: u16 = 401;
/// 409 Conflict.
pub const STATUS_CONFLICT: u16 = 409;
/// 411 Length Required.
pub const STATUS_LENGTH_REQUIRED: u16 = 411;
/// 415 Unsupported Media Type.
pub const STATUS_UNSUPPORTED_MEDIA_TYPE: u16 = 415;
/// 500 Internal Server Error.
pub const STATUS_INTERNAL_SERVER_ERROR: u16 = 500;

/// The request tracer: it records each request with the status line of its answer.
pub struct RequestTraceSpan;

impl RequestTraceSpan {
    pub fn new() -> (r: Self) {
        RequestTraceSpan
    }
}

/// The status line that the request tracer records for a status code.
pub open spec fn status_line(code: u16) -> &'static str {
    match code {
        100 => "100 Continue",
        101 => "101 Switching Protocols",
        102 => "102 Processing",
        200 => "200 OK",
        201 => "201 Created",
        202 => "202 Accepted",
        203 => "203 Non-Authoritative Information",
        204 => "204 No Content",
        205 => "205 Reset Content",
        206 => "206 Partial Content",
        207 => "207 Multi-Status",
        208 => "208 Already Reported",
        226 => "226 IM Used",
        300 => "300 Multiple Choices",
        301 => "301 Moved Permanently",
        302 => "302 Found",
        303 => "303 See Other",
        304 => "304 Not Modified",
        307 => "307 Temporary Redirect",
        308 => "308 Permanent Redirect",
        400 => "400 Bad Request",
        401 => "401 Unauthorized",
        402 => "402 Payment Required",
        403 => "403 Forbidden",
        404 => "404 Not Found",
        405 => "405 Method Not Allowed",
        406 => "406 Not Acceptable",
        408 => "408 Request Timeout",
        409 => "409 Conflict",
        410 => "410 Gone",
        411 => "411 Length Required",
        412 => "412 Precondition Failed",
        413 => "413 Payload Too Large",
        414 => "414 URI Too Long",
        415 => "415 Unsupported Media Type",
        416 => "416 Range Not Satisfiable",
        417 => "417 Expectation Failed",
        418 => "418 I'm a teapot",
        422 => "422 Unprocessable Entity",
        429 => "429 Too Many Requests",
        500 => "500 Internal Server Error",
        501 => "501 Not Implemented",
        502 => "502 Bad Gateway",
        503 => "503 Service Unavailable",
        504 => "504 Gateway Timeout",
        _ => "??? Unknown",
    }
}

/// The status line for `code`: the code and its reason phrase, or `??? Unknown`.
pub fn status_text(code: u16) -> (r: &'static str)
    ensures
        r == status_line(code),
{
    match code {
        100 => "100 Continue",
        101 => "101 Switching Protocols",
        102 => "102 Processing",
        200 => "200 OK",
        201 => "201 Created",
        202 => "202 Accepted",
        203 => "203 Non-Authoritative Information",
        204 => "204 No Content",
        205 => "205 Reset Content",
        206 => "206 Partial Content",
        207 => "207 Multi-Status",
        208 => "208 Already Reported",
        226 => "226 IM Used",
        300 => "300 Multiple Choices",
        301 => "301 Moved Permanently",
        302 => "302 Found",
        303 => "303 See Other",
        304 => "304 Not Modified",
        307 => "307 Temporary Redirect",
        308 => "308 Permanent Redirect",
        400 => "400 Bad Request",
        401 => "401 Unauthorized",
        402 => "402 Payment Required",
        403 => "403 Forbidden",
        404 => "404 Not Found",
        405 => "405 Method Not Allowed",
        406 => "406 Not Acceptable",
        408 => "408 Request Timeout",
        409 => "409 Conflict",
        410 => "410 Gone",
        411 => "411 Length Required",
        412 => "412 Precondition Failed",
        413 => "413 Payload Too Large",
        414 => "414 URI Too Long",
        415 => "415 Unsupported Media Type",
        416 => "416 Range Not Satisfiable",
        417 => "417 Expectation Failed",
        418 => "418 I'm a teapot",
        422 => "422 Unprocessable Entity",
        429 => "429 Too Many Requests",
        500 => "500 Internal Server Error",
        501 => "501 Not Implemented",
        502 => "502 Bad Gateway",
        503 => "503 Service Unavailable",
        504 => "504 Gateway Timeout",
        _ => "??? Unknown",
    }
}

} // verus!
