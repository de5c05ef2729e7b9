//! HTTP requests as plain values.

use crate::decimal::{decimal_string, decimal_text, decimal_value, lemma_decimal_text_denotes};
use vstd::prelude::*;
use vstd::slice::slice_to_vec;
use vstd::string::StringExecFns;

verus! {

#[derive(Clone, Copy, Debug, PartialEq, Eq, Structural)]
pub enum Method {
    Get,
    Post,
}

/// One header line: a name and a value.
#[derive(Debug)]
pub struct Header {
    pub name: String,
    pub value: String,
}

impl View for Header {
    type V = (Seq<char>, Seq<char>);

    open spec fn view(&self) -> (Seq<char>, Seq<char>) {
        (self.name@, self.value@)
    }
}

impl Header {
    pub fn new(name: &str, value: &str) -> (r: Header)
        ensures
            r@ == (name@, value@),
    {
        Header { name: String::from_str(name), value: String::from_str(value) }
    }
}

/// A request, ready to be handed to an HTTP client.
#[derive(Debug)]
pub struct Request {
    pub method: Method,
    pub url: String,
    pub headers: Vec<Header>,
    pub payload: Vec<u8>,
}

/// What a request is: its method, its URL, its header lines in order and
/// the bytes of its body.
pub struct RequestView {
    pub method: Method,
    pub url: Seq<char>,
    pub headers: Seq<(Seq<char>, Seq<char>)>,
    pub payload: Seq<u8>,
}

impl View for Request {
    type V = RequestView;

    open spec fn view(&self) -> RequestView {
        RequestView {
            method: self.method,
            url: self.url@,
            headers: self.headers@.map_values(|h: Header| h@),
            payload: self.payload@,
        }
    }
}

/// The header lines of a plain-text POST whose body is `length` bytes long.
pub open spec fn post_headers_for(length: nat) -> Seq<(Seq<char>, Seq<char>)> {
    seq![
        ("accept"@, "text/plain"@),
        ("content-type"@, "text/plain"@),
        ("connection"@, "close"@),
        ("content-length"@, decimal_text(length)),
    ]
}

/// A GET request: no header lines of its own and no body.
pub open spec fn get_request(url: Seq<char>) -> RequestView {
    RequestView { method: Method::Get, url, headers: Seq::empty(), payload: Seq::empty() }
}

/// A plain-text POST request that carries `payload`.
pub open spec fn post_request_for(url: Seq<char>, payload: Seq<u8>) -> RequestView {
    RequestView { method: Method::Post, url, headers: post_headers_for(payload.len()), payload }
}

/// The value of the `content-length` header for `payload`: its length in
/// bytes, in decimal.
pub fn content_length(payload: &[u8]) -> (r: String)
    ensures
        r@ == decimal_text(payload@.len()),
{
    decimal_string(payload.len())
}

/// The header lines of a plain-text POST that carries `payload`.
pub fn post_headers(payload: &[u8]) -> (r: Vec<Header>)
    ensures
        r@.map_values(|h: Header| h@) == post_headers_for(payload@.len()),
{
    let mut headers: Vec<Header> = Vec::new();
    headers.push(Header::new("accept", "text/plain"));
    headers.push(Header::new("content-type", "text/plain"));
    headers.push(Header::new("connection", "close"));
    headers.push(Header { name: String::from_str("content-length"), value: content_length(payload) });
    assert(headers@.map_values(|h: Header| h@) =~= post_headers_for(payload@.len()));
    headers
}

impl Request {
    pub fn get(url: &str) -> (r: Request)
        ensures
            r@ == get_request(url@),
    {
        let r = Request {
            method: Method::Get,
            url: String::from_str(url),
            headers: Vec::new(),
            payload: Vec::new(),
        };
        assert(r@.headers =~= Seq::empty());
        r
    }

    pub fn post(url: &str, payload: &[u8]) -> (r: Request)
        ensures
            r@ == post_request_for(url@, payload@),
    {
        Request {
            method: Method::Post,
            url: String::from_str(url),
            headers: post_headers(payload),
            payload: slice_to_vec(payload),
        }
    }
}

/// A POST request declares the length of the body that it carries: its last
/// header line is `content-length`, and the value of that line denotes the
/// number of bytes of the payload, neither more nor less.
pub proof fn lemma_post_declares_payload_length(url: Seq<char>, payload: Seq<u8>)
    ensures
        post_request_for(url, payload).headers.len() == 4,
        post_request_for(url, payload).headers[3].0 == "content-length"@,
        decimal_value(post_request_for(url, payload).headers[3].1) == payload.len(),
        post_request_for(url, payload).payload == payload,
{
    lemma_decimal_text_denotes(payload.len());
}

} // verus!
