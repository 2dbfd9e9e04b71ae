//! HTTP requests and responses as plain values.
use crate::text::{bytes_of, decimal};
use vstd::prelude::*;
use vstd::string::*;

verus! {

/// The method of a request.
#[derive(Clone, Copy, Debug, PartialEq, Eq, Structural)]
pub enum Method {
    Get,
    Post,
    Delete,
    /// Any other method.
    Other,
}

/// An optional text over its characters.
pub open spec fn opt_text(s: Option<String>) -> Option<Seq<char>> {
    match s {
        Some(t) => Some(t@),
        None => None,
    }
}

/// A borrowed optional text over its characters.
pub open spec fn opt_str(s: Option<&str>) -> Option<Seq<char>> {
    match s {
        Some(t) => Some(t@),
        None => None,
    }
}

/// A request that is to be sent.
#[derive(Debug)]
pub struct Request {
    pub method: Method,
    pub url: String,
    /// The `authorization` header.
    pub authorization: Option<String>,
    /// The `X-MQ-Subject` header, under which a topic files the message.
    pub subject: Option<String>,
    /// The `content-type` header.
    pub content_type: Option<String>,
    pub body: Vec<u8>,
}

/// A request over mathematical values.
#[verifier::ext_equal]
pub struct RequestView {
    pub method: Method,
    pub url: Seq<char>,
    pub authorization: Option<Seq<char>>,
    pub subject: Option<Seq<char>>,
    pub content_type: Option<Seq<char>>,
    pub body: Seq<u8>,
}

impl View for Request {
    type V = RequestView;

    open spec fn view(&self) -> RequestView {
        RequestView {
            method: self.method,
            url: self.url@,
            authorization: opt_text(self.authorization),
            subject: opt_text(self.subject),
            content_type: opt_text(self.content_type),
            body: self.body@,
        }
    }
}

impl RequestView {
    /// The headers of a request, name and value.
    pub open spec fn headers(self) -> Seq<(Seq<char>, Seq<char>)> {
        header("authorization"@, self.authorization) + header("X-MQ-Subject"@, self.subject)
            + header("content-type"@, self.content_type)
    }
}

/// One header, where it has a value.
pub open spec fn header(name: Seq<char>, value: Option<Seq<char>>) -> Seq<(Seq<char>, Seq<char>)> {
    match value {
        Some(v) => seq![(name, v)],
        None => Seq::empty(),
    }
}

/// Headers over their characters.
pub open spec fn header_texts(headers: Seq<(String, String)>) -> Seq<(Seq<char>, Seq<char>)> {
    headers.map_values(|h: (String, String)| (h.0@, h.1@))
}

/// Adds one header to a list, where it has a value.
fn push_header(headers: &mut Vec<(String, String)>, name: &str, value: &Option<String>)
    ensures
        header_texts(final(headers)@) == header_texts(old(headers)@) + header(
            name@,
            opt_text(*value),
        ),
{
    match value {
        Some(v) => {
            headers.push((name.to_string(), v.clone()));
            assert(header_texts(headers@) =~= header_texts(old(headers)@).push((name@, v@)));
            assert(header_texts(old(headers)@).push((name@, v@)) =~= header_texts(old(headers)@)
                + seq![(name@, v@)]);
        },
        None => {
            assert(header_texts(headers@) =~= header_texts(old(headers)@) + Seq::empty());
        },
    }
}

impl Request {
    /// The headers to send, name and value.
    pub fn headers(&self) -> (r: Vec<(String, String)>)
        ensures
            header_texts(r@) == self@.headers(),
    {
        let mut r: Vec<(String, String)> = Vec::new();
        assert(header_texts(r@) =~= Seq::empty());
        push_header(&mut r, "authorization", &self.authorization);
        push_header(&mut r, "X-MQ-Subject", &self.subject);
        push_header(&mut r, "content-type", &self.content_type);
        assert(header_texts(r@) =~= self@.headers());
        r
    }
}

/// The value of the `authorization` header for a bearer token.
pub open spec fn bearer_header(bearer: Seq<char>) -> Seq<char> {
    "Bearer "@ + bearer
}

/// The value of the `authorization` header for a bearer token.
pub fn bearer_value(bearer: &str) -> (r: String)
    ensures
        r@ == bearer_header(bearer@),
{
    "Bearer ".to_string().concat(bearer)
}

/// A response that is to be given to a caller.
#[derive(Debug)]
pub struct Response {
    pub status: u16,
    /// The `content-type` header.
    pub content_type: Option<String>,
    /// The `location` header.
    pub location: Option<String>,
    /// The `cache-control` header.
    pub cache_control: Option<String>,
    pub body: Vec<u8>,
}

/// A response over mathematical values.
#[verifier::ext_equal]
pub struct ResponseView {
    pub status: u16,
    pub content_type: Option<Seq<char>>,
    pub location: Option<Seq<char>>,
    pub cache_control: Option<Seq<char>>,
    pub body: Seq<u8>,
}

impl View for Response {
    type V = ResponseView;

    open spec fn view(&self) -> ResponseView {
        ResponseView {
            status: self.status,
            content_type: opt_text(self.content_type),
            location: opt_text(self.location),
            cache_control: opt_text(self.cache_control),
            body: self.body@,
        }
    }
}

impl ResponseView {
    /// The headers of a response, name and value.
    pub open spec fn headers(self) -> Seq<(Seq<char>, Seq<char>)> {
        header("content-type"@, self.content_type) + header("location"@, self.location) + header(
            "cache-control"@,
            self.cache_control,
        )
    }
}

impl Response {
    /// The headers to send, name and value.
    pub fn headers(&self) -> (r: Vec<(String, String)>)
        ensures
            header_texts(r@) == self@.headers(),
    {
        let mut r: Vec<(String, String)> = Vec::new();
        assert(header_texts(r@) =~= Seq::empty());
        push_header(&mut r, "content-type", &self.content_type);
        push_header(&mut r, "location", &self.location);
        push_header(&mut r, "cache-control", &self.cache_control);
        assert(header_texts(r@) =~= self@.headers());
        r
    }
}

/// A plain text response.
pub open spec fn text_response(status: u16, msg: Seq<char>) -> ResponseView {
    ResponseView {
        status,
        content_type: Some("text/plain; charset=utf-8"@),
        location: None,
        cache_control: None,
        body: vstd::utf8::encode_utf8(msg),
    }
}

/// A plain text response.
pub fn text(status: u16, msg: &str) -> (r: Response)
    ensures
        r@ == text_response(status, msg@),
{
    Response {
        status,
        content_type: Some("text/plain; charset=utf-8".to_string()),
        location: None,
        cache_control: None,
        body: bytes_of(msg),
    }
}

/// A JSON document, handed on as it is.
pub open spec fn json_response(body: Seq<u8>) -> ResponseView {
    ResponseView {
        status: 200,
        content_type: Some("application/json"@),
        location: None,
        cache_control: None,
        body,
    }
}

/// A JSON document, handed on as it is.
pub fn json(body: Vec<u8>) -> (r: Response)
    ensures
        r@ == json_response(body@),
{
    Response {
        status: 200,
        content_type: Some("application/json".to_string()),
        location: None,
        cache_control: None,
        body,
    }
}

/// A redirect that no cache may keep.
pub open spec fn redirect_response(location: Seq<char>) -> ResponseView {
    ResponseView {
        status: 302,
        content_type: None,
        location: Some(location),
        cache_control: Some("no-store"@),
        body: Seq::empty(),
    }
}

/// A redirect that no cache may keep.
pub fn redirect(location: String) -> (r: Response)
    ensures
        r@ == redirect_response(location@),
{
    Response {
        status: 302,
        content_type: None,
        location: Some(location),
        cache_control: Some("no-store".to_string()),
        body: Vec::new(),
    }
}

/// Whether a status code reports success.
pub open spec fn success(status: u16) -> bool {
    200 <= status < 300
}

/// Whether a status code reports success.
pub fn is_success(status: u16) -> (r: bool)
    ensures
        r == success(status),
{
    200 <= status && status < 300
}

/// A status code with a reason phrase, as it stands in error messages.
pub open spec fn status_with(code: u16, phrase: Option<Seq<char>>) -> Seq<char> {
    crate::text::decimal_text(code as nat) + " "@ + match phrase {
        Some(p) => p,
        None => "<unknown status code>"@,
    }
}

/// A status code with a reason phrase, as it stands in error messages.
pub fn status_with_phrase(code: u16, phrase: Option<String>) -> (r: String)
    ensures
        r@ == status_with(code, opt_text(phrase)),
{
    let head = decimal(code as u64).concat(" ");
    match phrase {
        Some(p) => head.concat(p.as_str()),
        None => head.concat("<unknown status code>"),
    }
}

} // verus!
