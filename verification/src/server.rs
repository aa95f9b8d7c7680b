//! The server's configuration: the address to listen on and the route table.
//!
//! A server is put together before it serves: `bind` makes one without routes
//! and each `route` adds a binding. Nothing here changes a server that is
//! shared by reference, so a route table in use is never mutated.

use crate::handler::Handler;
use crate::request::{request_of, utf8_lossy, Request, RequestView};
use crate::response::{not_found, wire_of, Response, ResponseView};
use vstd::hash_map::StringHashMap;
use vstd::prelude::*;
use vstd::utf8::{decode_utf8, valid_utf8};

verus! {

/// A socket address, as plain numbers.
#[derive(Clone, Copy, Debug, PartialEq, Eq)]
pub enum Address {
    /// An IPv4 address and a port.
    V4 { octets: [u8; 4], port: u16 },
    /// An IPv6 address with its port, flow information and scope.
    V6 { segments: [u16; 8], port: u16, flow: u32, scope: u32 },
}

impl Address {
    /// The IPv4 address with the given octets and port.
    pub fn v4(octets: [u8; 4], port: u16) -> (addr: Address)
        ensures
            addr == (Address::V4 { octets, port }),
    {
        Address::V4 { octets, port }
    }

    /// The IPv6 address with the given segments and port, without flow
    /// information or scope.
    pub fn v6(segments: [u16; 8], port: u16) -> (addr: Address)
        ensures
            addr == (Address::V6 { segments, port, flow: 0, scope: 0 }),
    {
        Address::V6 { segments, port, flow: 0, scope: 0 }
    }

    /// The port of the address.
    pub fn port(&self) -> (port: u16)
        ensures
            port == match *self {
                Address::V4 { port, .. } => port,
                Address::V6 { port, .. } => port,
            },
    {
        match *self {
            Address::V4 { port, .. } => port,
            Address::V6 { port, .. } => port,
        }
    }
}

/// A server: the address it listens on and its route table, which binds paths
/// to handlers of type `H`.
///
/// A path is an opaque string. Routes are matched by equality alone: nothing
/// is normalised, and a query string is part of the path it stands in.
#[verifier::reject_recursive_types(H)]
pub struct Server<H> {
    addr: Address,
    routes: StringHashMap<H>,
}

/// What a `Server` holds, as a mathematical value.
#[verifier::reject_recursive_types(H)]
pub struct ServerView<H> {
    pub addr: Address,
    pub routes: Map<Seq<char>, H>,
}

impl<H> View for Server<H> {
    type V = ServerView<H>;

    closed spec fn view(&self) -> ServerView<H> {
        ServerView { addr: self.addr, routes: self.routes@ }
    }
}

impl<H> ServerView<H> {
    /// The server with `path` bound to `handler`, in place of what it was
    /// bound to before, if anything.
    pub open spec fn bound(self, path: Seq<char>, handler: H) -> ServerView<H> {
        ServerView { addr: self.addr, routes: self.routes.insert(path, handler) }
    }

    /// The server after the given registrations, made in order.
    pub open spec fn bound_all(self, registrations: Seq<(Seq<char>, H)>) -> ServerView<H>
        decreases registrations.len(),
    {
        if registrations.len() == 0 {
            self
        } else {
            self.bound_all(registrations.drop_last()).bound(
                registrations.last().0,
                registrations.last().1,
            )
        }
    }
}

/// Whether `response` answers `request` under the route table `routes`: it is
/// an answer of the handler bound to the request's path, or, where no handler
/// is bound to it, the fixed not-found response.
pub open spec fn dispatches<H: Handler>(
    routes: Map<Seq<char>, H>,
    request: RequestView,
    response: ResponseView,
) -> bool {
    if routes.contains_key(request.path) {
        routes[request.path].responds(request, response)
    } else {
        response == not_found()
    }
}

/// Of the registrations for one path, the last one decides: after a series of
/// registrations, a path is bound to the handler of the last registration
/// that names it, whatever was registered for it before.
pub proof fn last_registration_wins<H>(
    server: ServerView<H>,
    registrations: Seq<(Seq<char>, H)>,
    i: int,
)
    requires
        0 <= i < registrations.len(),
        forall|j: int| i < j < registrations.len() ==> registrations[j].0 != registrations[i].0,
    ensures
        server.bound_all(registrations).routes.contains_key(registrations[i].0),
        server.bound_all(registrations).routes[registrations[i].0] == registrations[i].1,
    decreases registrations.len(),
{
    if i < registrations.len() - 1 {
        let earlier = registrations.drop_last();
        assert(earlier[i] == registrations[i]);
        assert forall|j: int| i < j < earlier.len() implies earlier[j].0 != earlier[i].0 by {
            assert(earlier[j] == registrations[j]);
        }
        last_registration_wins(server, earlier, i);
    }
}

/// A path that no registration names is bound as it was before: registering
/// other paths neither binds nor unbinds it, and the address stays.
pub proof fn other_paths_stay<H>(
    server: ServerView<H>,
    registrations: Seq<(Seq<char>, H)>,
    path: Seq<char>,
)
    requires
        forall|j: int| 0 <= j < registrations.len() ==> registrations[j].0 != path,
    ensures
        server.bound_all(registrations).addr == server.addr,
        server.bound_all(registrations).routes.contains_key(path) == server.routes.contains_key(path),
        server.routes.contains_key(path) ==> server.bound_all(registrations).routes[path]
            == server.routes[path],
    decreases registrations.len(),
{
    if registrations.len() > 0 {
        let earlier = registrations.drop_last();
        assert forall|j: int| 0 <= j < earlier.len() implies earlier[j].0 != path by {
            assert(earlier[j] == registrations[j]);
        }
        other_paths_stay(server, earlier, path);
        other_addr_stays(server, earlier);
    }
}

/// Registrations leave the address as it is.
pub proof fn other_addr_stays<H>(server: ServerView<H>, registrations: Seq<(Seq<char>, H)>)
    ensures
        server.bound_all(registrations).addr == server.addr,
    decreases registrations.len(),
{
    if registrations.len() > 0 {
        other_addr_stays(server, registrations.drop_last());
    }
}

impl<H> Server<H> {
    /// A server for the address `addr`, with an empty route table.
    pub fn bind(addr: Address) -> (server: Server<H>)
        ensures
            server@ == (ServerView { addr, routes: Map::<Seq<char>, H>::empty() }),
    {
        Server { addr, routes: StringHashMap::new() }
    }

    /// The server with `path` bound to `handler`. A handler that `path` was
    /// bound to before is replaced and can no longer be reached.
    pub fn route(self, path: &str, handler: H) -> (server: Server<H>)
        ensures
            server@ == self@.bound(path@, handler),
    {
        let mut server = self;
        server.routes.insert(path.to_owned(), handler);
        server
    }

    /// The address to listen on.
    pub fn addr(&self) -> (addr: Address)
        ensures
            addr == self@.addr,
    {
        self.addr
    }

    /// The handler that `path` is bound to, if any.
    pub fn handler(&self, path: &str) -> (found: Option<&H>)
        ensures
            match found {
                Some(handler) => self@.routes.contains_key(path@) && *handler == self@.routes[path@],
                None => !self@.routes.contains_key(path@),
            },
    {
        self.routes.get(path)
    }
}

impl<H: Handler> Server<H> {
    /// Answers `request`: with the handler that its path is bound to, or with
    /// the not-found response, and then without calling any handler.
    pub fn dispatch(&self, request: &Request) -> (response: Response)
        ensures
            dispatches(self@.routes, request@, response@),
    {
        match self.handler(request.path.as_str()) {
            Some(handler) => handler.handle(request),
            None => Response::not_found(),
        }
    }

    /// Answers the request that the received bytes make.
    pub fn answer(&self, raw: &[u8]) -> (response: Response)
        ensures
            dispatches(self@.routes, request_of(utf8_lossy(raw@)), response@),
            valid_utf8(raw@) ==> dispatches(self@.routes, request_of(decode_utf8(raw@)), response@),
    {
        let request = Request::from_bytes(raw);
        self.dispatch(&request)
    }

    /// One exchange: the text to send back for the received bytes.
    pub fn exchange(&self, raw: &[u8]) -> (text: String)
        ensures
            exists|response: ResponseView|
                dispatches(self@.routes, request_of(utf8_lossy(raw@)), response) && text@
                    == wire_of(response),
            valid_utf8(raw@) ==> exists|response: ResponseView|
                dispatches(self@.routes, request_of(decode_utf8(raw@)), response) && text@
                    == wire_of(response),
    {
        let response = self.answer(raw);
        response.to_wire()
    }
}

} // verus!
