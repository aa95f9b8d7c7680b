//! Handlers: whatever turns a request into a response.
//!
//! The server never looks inside a handler. It hands the request over and
//! sends back what comes out. A handler has no way to fail: what goes wrong
//! inside it is answered in band, with an error status.

use crate::request::{resolved, Request, RequestView};
use crate::response::{ok_with, Response, ResponseView};
use std::sync::Arc;
use vstd::prelude::*;

verus! {

/// The capability to answer a request.
///
/// One handler may be asked by many connections at once, so a handler that
/// keeps state that changes has to guard it itself.
///
/// `responds` says which responses the handler may give to a request. A
/// handler that leaves it as it is promises nothing about its answers.
pub trait Handler: Send + Sync {
    /// Whether `response` is an answer that this handler may give to `request`.
    open spec fn responds(&self, request: RequestView, response: ResponseView) -> bool {
        true
    }

    /// Answers `request`.
    fn handle(&self, request: &Request) -> (response: Response)
        ensures
            self.responds(request@, response@),
    ;
}

impl<H: Handler + ?Sized> Handler for Box<H> {
    open spec fn responds(&self, request: RequestView, response: ResponseView) -> bool {
        (**self).responds(request, response)
    }

    fn handle(&self, request: &Request) -> (response: Response) {
        (**self).handle(request)
    }
}

impl<H: Handler + ?Sized> Handler for Arc<H> {
    open spec fn responds(&self, request: RequestView, response: ResponseView) -> bool {
        (**self).responds(request, response)
    }

    fn handle(&self, request: &Request) -> (response: Response) {
        (**self).handle(request)
    }
}

/// The body with which the path `path` is echoed.
pub open spec fn echo_of(path: Seq<char>) -> Seq<char> {
    "You requested: "@ + path
}

/// The body with which `path` is echoed.
pub fn echo_text(path: &str) -> (body: String)
    ensures
        body@ == echo_of(path@),
{
    let mut body = "You requested: ".to_owned();
    body.append(path);
    body
}

/// The body that echoes `request`: it names the path that the request
/// resolves to.
pub fn echo_body(request: &Request) -> (body: String)
    ensures
        body@ == echo_of(resolved(request@.path)),
{
    let path = request.resolved_path();
    echo_text(path.as_str())
}

/// A handler that answers every request with status 200 and a body that names
/// the path that the request resolves to.
pub struct Echo;

impl Handler for Echo {
    open spec fn responds(&self, request: RequestView, response: ResponseView) -> bool {
        response == ok_with(echo_of(resolved(request.path)))
    }

    fn handle(&self, request: &Request) -> (response: Response) {
        Response::ok(echo_body(request))
    }
}

/// A handler that answers every request with status 200 and the same body.
pub struct Fixed {
    body: String,
}

impl View for Fixed {
    type V = Seq<char>;

    /// The body that the handler answers with.
    closed spec fn view(&self) -> Seq<char> {
        self.body@
    }
}

impl Fixed {
    /// A handler that always answers with `body`.
    pub fn new(body: &str) -> (fixed: Fixed)
        ensures
            fixed@ == body@,
    {
        Fixed { body: body.to_owned() }
    }
}

impl Handler for Fixed {
    open spec fn responds(&self, request: RequestView, response: ResponseView) -> bool {
        response == ok_with(self@)
    }

    fn handle(&self, request: &Request) -> (response: Response) {
        Response::ok(self.body.clone())
    }
}

/// The response of a static file whose contents could be read, or, with
/// `None`, could not.
pub open spec fn file_response(contents: Option<Seq<char>>) -> ResponseView {
    match contents {
        Some(text) => ok_with(text),
        None => ResponseView { status: 404, body: "404: File not found"@ },
    }
}

/// What a read of the file gave, without the error of a failed read.
pub open spec fn contents_read<E>(read: Result<String, E>) -> Option<Seq<char>> {
    match read {
        Ok(text) => Some(text@),
        Err(_) => None,
    }
}

/// A handler that serves one file, whose path is fixed when the handler is
/// made. The file is read anew for every request and nothing is cached.
///
/// Reading is left to the caller: `path` says what to read and `respond`
/// turns the outcome of the read into the response.
pub struct StaticFile {
    path: String,
}

impl View for StaticFile {
    type V = Seq<char>;

    /// The path of the file that the handler serves.
    closed spec fn view(&self) -> Seq<char> {
        self.path@
    }
}

impl StaticFile {
    /// A handler for the file at `path`.
    pub fn new(path: &str) -> (file: StaticFile)
        ensures
            file@ == path@,
    {
        StaticFile { path: path.to_owned() }
    }

    /// The path of the file to read.
    pub fn path(&self) -> (path: &str)
        ensures
            path@ == self@,
    {
        self.path.as_str()
    }

    /// The response for the outcome of reading the file: its contents with
    /// status 200, or, whatever the error was, status 404 and a fixed body.
    pub fn respond<E>(read: Result<String, E>) -> (response: Response)
        ensures
            response@ == file_response(contents_read(read)),
    {
        match read {
            Ok(contents) => Response::ok(contents),
            Err(_) => Response { status: 404, body: "404: File not found".to_owned() },
        }
    }
}

} // verus!
