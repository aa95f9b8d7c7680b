//! Requests, as the server derives them from what a connection sent.
//!
//! A request holds the path that its first line asks for and, as its body, the
//! whole text that was received: headers are not told apart from the body.

use crate::request_line::{path_of, request_path};
use vstd::prelude::*;
use vstd::utf8::{decode_utf8, valid_utf8};

verus! {

/// A request: the path it asks for, and everything that was received.
pub struct Request {
    pub path: String,
    pub body: String,
}

/// What a `Request` holds, as a mathematical value.
pub struct RequestView {
    pub path: Seq<char>,
    pub body: Seq<char>,
}

impl View for Request {
    type V = RequestView;

    open spec fn view(&self) -> RequestView {
        RequestView { path: self.path@, body: self.body@ }
    }
}

/// The request that the received text `text` makes.
pub open spec fn request_of(text: Seq<char>) -> RequestView {
    RequestView { path: path_of(text), body: text }
}

/// The text that `String::from_utf8_lossy` reads out of `bytes`. Well-formed
/// UTF-8 is decoded as it stands; every ill-formed sequence becomes the
/// replacement character U+FFFD.
pub uninterp spec fn utf8_lossy(bytes: Seq<u8>) -> Seq<char>;

/// Reads `bytes` as text with `String::from_utf8_lossy`.
///
/// The contract gives the text a name, and says of it what the documentation of
/// the function promises for input that is well-formed UTF-8: it is that input,
/// unchanged. How ill-formed input is replaced is left to the function.
#[verifier::external_body]
fn decode_lossy(bytes: &[u8]) -> (text: String)
    ensures
        text@ == utf8_lossy(bytes@),
        valid_utf8(bytes@) ==> text@ == decode_utf8(bytes@),
{
    String::from_utf8_lossy(bytes).into_owned()
}

/// The path component that `http::Uri` reads out of the request target
/// `target`: what stands before a query or a fragment, and after the authority
/// where the target names one. `None` where `http` does not take `target` for
/// a URI.
pub uninterp spec fn uri_path(target: Seq<char>) -> Option<Seq<char>>;

/// The path that a request for `path` resolves to: the path component of
/// `path` read as a URI, and `path` as it stands where it is no URI.
pub open spec fn resolved(path: Seq<char>) -> Seq<char> {
    match uri_path(path) {
        Some(component) => component,
        None => path,
    }
}

/// Reads `target` as a URI with `http::Uri::try_from` and takes the path
/// component of the result with `http::Uri::path`.
///
/// The contract gives the answer a name and claims that it depends on the
/// target alone: `http` parses the text it is handed and consults nothing
/// else. No text makes the parser fail other than by returning its error,
/// which is `None` here.
#[verifier::external_body]
fn parse_uri_path(target: &str) -> (path: Option<String>)
    ensures
        match path {
            Some(component) => uri_path(target@) == Some(component@),
            None => uri_path(target@) is None,
        },
{
    match http::Uri::try_from(target) {
        Ok(uri) => Some(uri.path().to_owned()),
        Err(_) => None,
    }
}

impl Request {
    /// The path that the request resolves to, without query or fragment.
    pub fn resolved_path(&self) -> (path: String)
        ensures
            path@ == resolved(self@.path),
    {
        match parse_uri_path(self.path.as_str()) {
            Some(component) => component,
            None => self.path.clone(),
        }
    }

    /// The request that the received text makes: its path is that of the
    /// request line, its body the text itself.
    pub fn from_text(text: String) -> (request: Request)
        ensures
            request@ == request_of(text@),
    {
        let path = request_path(text.as_str());
        Request { path, body: text }
    }

    /// The request that the received bytes make. They are read as UTF-8, with
    /// ill-formed sequences replaced and never rejected.
    pub fn from_bytes(raw: &[u8]) -> (request: Request)
        ensures
            request@ == request_of(utf8_lossy(raw@)),
            valid_utf8(raw@) ==> request@ == request_of(decode_utf8(raw@)),
    {
        Request::from_text(decode_lossy(raw))
    }
}

} // verus!
