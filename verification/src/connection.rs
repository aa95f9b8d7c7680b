//! The protocol of one connection, as a state machine without I/O.
//!
//! A connection carries exactly one exchange. It is read once, the request is
//! parsed and dispatched, the response is written once, and the connection is
//! closed. Nothing is retried: a failed read or write closes the connection.
//!
//! The machine decides and its caller acts. The caller performs the action it
//! is handed, reports what came of it as an event, and gets the next action.

use crate::request::{request_of, utf8_lossy, Request, RequestView};
use crate::response::{not_found, wire_of, Response, ResponseView};
use crate::server::{Server, ServerView};
use vstd::prelude::*;
use vstd::utf8::{decode_utf8, valid_utf8};

verus! {

/// The most bytes that are read from a connection. What a request holds beyond
/// them is never seen.
pub const READ_LIMIT: usize = 1024;

/// Where a connection stands.
#[derive(Clone, Copy, Debug, PartialEq, Eq, Structural)]
pub enum State {
    /// The request is being read.
    Reading,
    /// The request was parsed and its handler is at work.
    Dispatching,
    /// The response is being written.
    Writing,
    /// The connection is closed. This state is final.
    Closed,
}

/// How a connection came to its end.
#[derive(Clone, Copy, Debug, PartialEq, Eq, Structural)]
pub enum Ending {
    /// The response was written.
    Done,
    /// The read failed. Nothing was sent.
    ReadFailed,
    /// Writing the response failed. Part of it may have been sent.
    WriteFailed,
    /// Something was reported that the connection did not wait for.
    OutOfTurn,
}

/// The diagnostic to log for an ending: one for each failure of the
/// connection itself, none otherwise.
pub open spec fn diagnostic_of(ending: Ending) -> Option<Seq<char>> {
    match ending {
        Ending::ReadFailed => Some("Failed to read from connection"@),
        Ending::WriteFailed => Some("Failed to write response"@),
        _ => None,
    }
}

impl Ending {
    /// The diagnostic to log for this ending, if it is a failure.
    pub fn diagnostic(&self) -> (text: Option<&'static str>)
        ensures
            match text {
                Some(t) => diagnostic_of(*self) == Some(t@),
                None => diagnostic_of(*self) is None,
            },
    {
        match *self {
            Ending::ReadFailed => Some("Failed to read from connection"),
            Ending::WriteFailed => Some("Failed to write response"),
            _ => None,
        }
    }
}

/// What the caller reports to the machine.
pub enum Event<'e> {
    /// The read gave these bytes.
    Read(&'e [u8]),
    /// The read failed.
    ReadFailed,
    /// The handler gave this response.
    Handled(Response),
    /// The response was written.
    Written,
    /// Writing the response failed.
    WriteFailed,
}

/// An `Event` as a mathematical value.
pub enum EventView {
    Read(Seq<u8>),
    ReadFailed,
    Handled(ResponseView),
    Written,
    WriteFailed,
}

impl<'e> View for Event<'e> {
    type V = EventView;

    open spec fn view(&self) -> EventView {
        match *self {
            Event::Read(bytes) => EventView::Read(bytes@),
            Event::ReadFailed => EventView::ReadFailed,
            Event::Handled(response) => EventView::Handled(response@),
            Event::Written => EventView::Written,
            Event::WriteFailed => EventView::WriteFailed,
        }
    }
}

/// What the machine asks its caller to do next.
pub enum Action<'a, H> {
    /// Read once from the connection, at most `limit` bytes.
    Read { limit: usize },
    /// Call `handler` with `request`.
    Invoke { handler: &'a H, request: Request },
    /// Write `text` to the connection, all of it.
    Write { text: String },
    /// Close the connection, which ended as `ending` says.
    Close { ending: Ending },
}

/// An `Action` as a mathematical value.
pub enum ActionView<H> {
    Read { limit: usize },
    Invoke { handler: H, request: RequestView },
    Write { text: Seq<char> },
    Close { ending: Ending },
}

impl<'a, H> View for Action<'a, H> {
    type V = ActionView<H>;

    open spec fn view(&self) -> ActionView<H> {
        match *self {
            Action::Read { limit } => ActionView::Read { limit },
            Action::Invoke { handler, request } => ActionView::Invoke {
                handler: *handler,
                request: request@,
            },
            Action::Write { text } => ActionView::Write { text: text@ },
            Action::Close { ending } => ActionView::Close { ending },
        }
    }
}

/// How a connection starts: in `Reading`, with one read of at most
/// `READ_LIMIT` bytes.
pub open spec fn opening<H>() -> (State, ActionView<H>) {
    (State::Reading, ActionView::Read { limit: READ_LIMIT })
}

/// What follows when the text `text` was received. Where a handler is bound
/// to its path, the handler is called with the request; where none is, the
/// not-found response is written and no handler is called.
pub open spec fn received<H>(routes: Map<Seq<char>, H>, text: Seq<char>) -> (State, ActionView<H>) {
    let request = request_of(text);
    if routes.contains_key(request.path) {
        (State::Dispatching, ActionView::Invoke { handler: routes[request.path], request })
    } else {
        (State::Writing, ActionView::Write { text: wire_of(not_found()) })
    }
}

/// The step that a connection in `state` takes on `event`: the next state and
/// the action to perform. A failure closes the connection at once, and so does
/// an event that the state does not wait for.
pub open spec fn transition<H>(routes: Map<Seq<char>, H>, state: State, event: EventView) -> (
    State,
    ActionView<H>,
) {
    match (state, event) {
        (State::Reading, EventView::Read(bytes)) => received(routes, utf8_lossy(bytes)),
        (State::Reading, EventView::ReadFailed) => (
            State::Closed,
            ActionView::Close { ending: Ending::ReadFailed },
        ),
        (State::Dispatching, EventView::Handled(response)) => (
            State::Writing,
            ActionView::Write { text: wire_of(response) },
        ),
        (State::Writing, EventView::Written) => (State::Closed, ActionView::Close { ending: Ending::Done }),
        (State::Writing, EventView::WriteFailed) => (
            State::Closed,
            ActionView::Close { ending: Ending::WriteFailed },
        ),
        _ => (State::Closed, ActionView::Close { ending: Ending::OutOfTurn }),
    }
}

/// The actions that a connection in `state` takes on the given events, one
/// after the other.
pub open spec fn actions<H>(routes: Map<Seq<char>, H>, state: State, events: Seq<EventView>) -> Seq<
    ActionView<H>,
>
    decreases events.len(),
{
    if events.len() == 0 {
        Seq::empty()
    } else {
        let (next, action) = transition(routes, state, events[0]);
        seq![action] + actions(routes, next, events.drop_first())
    }
}

/// The number of steps after which a connection in `state` is closed at the
/// latest.
pub open spec fn steps_left(state: State) -> nat {
    match state {
        State::Reading => 3,
        State::Dispatching => 2,
        State::Writing => 1,
        State::Closed => 0,
    }
}

/// Every step brings a connection nearer to its end, and no step leads back
/// into `Reading` or asks for a read.
pub proof fn step_advances<H>(routes: Map<Seq<char>, H>, state: State, event: EventView)
    ensures
        transition(routes, state, event).0 != State::Reading,
        !(transition(routes, state, event).1 is Read),
        state != State::Closed ==> steps_left(transition(routes, state, event).0) < steps_left(state),
        state == State::Closed ==> transition(routes, state, event) == (
            State::Closed,
            ActionView::<H>::Close { ending: Ending::OutOfTurn },
        ),
        transition(routes, state, event).1 is Write <==> transition(routes, state, event).0
            == State::Writing,
        transition(routes, state, event).1 is Invoke <==> transition(routes, state, event).0
            == State::Dispatching,
        transition(routes, state, event).1 is Close <==> transition(routes, state, event).0
            == State::Closed,
{
}

/// What a connection does from `state` on, whatever is reported to it: it
/// takes one action per event, never asks for a read, and from the step at
/// which its time is up it only closes. A response is written at most once,
/// and after it nothing but closing follows.
pub proof fn connection_runs_down<H>(routes: Map<Seq<char>, H>, state: State, events: Seq<EventView>)
    ensures
        actions(routes, state, events).len() == events.len(),
        forall|i: int| 0 <= i < events.len() ==> !(#[trigger] actions(routes, state, events)[i] is Read),
        forall|i: int|
            steps_left(state) <= i + 1 && 0 <= i < events.len() ==> #[trigger] actions(
                routes,
                state,
                events,
            )[i] is Close,
        forall|i: int, j: int|
            0 <= i < j < events.len() && #[trigger] actions(routes, state, events)[i] is Write
                ==> #[trigger] actions(routes, state, events)[j] is Close,
    decreases events.len(),
{
    if events.len() > 0 {
        let (next, action) = transition(routes, state, events[0]);
        let rest = actions(routes, next, events.drop_first());
        step_advances(routes, state, events[0]);
        connection_runs_down(routes, next, events.drop_first());
        assert(actions(routes, state, events) == seq![action] + rest);
        assert forall|i: int| 0 <= i < events.len() implies !(#[trigger] actions(
            routes,
            state,
            events,
        )[i] is Read) by {
            if i > 0 {
                assert(actions(routes, state, events)[i] == rest[i - 1]);
            }
        }
        assert forall|i: int| steps_left(state) <= i + 1 && 0 <= i < events.len() implies #[trigger] actions(
            routes,
            state,
            events,
        )[i] is Close by {
            if i > 0 {
                assert(actions(routes, state, events)[i] == rest[i - 1]);
            }
        }
        assert forall|i: int, j: int|
            0 <= i < j < events.len() && #[trigger] actions(routes, state, events)[i] is Write
            implies #[trigger] actions(routes, state, events)[j] is Close by {
            assert(actions(routes, state, events)[j] == rest[j - 1]);
            if i > 0 {
                assert(actions(routes, state, events)[i] == rest[i - 1]);
            }
        }
    }
}

/// A connection is read once and answered at most once: after the read that
/// opens it no further read is asked for, whatever happens, at most one
/// response is written, nothing but closing follows a written response, and
/// from the third event on the connection is closed.
pub proof fn one_exchange_per_connection<H>(routes: Map<Seq<char>, H>, events: Seq<EventView>)
    ensures
        opening::<H>().1 is Read,
        forall|i: int|
            0 <= i < events.len() ==> !(#[trigger] actions(routes, opening::<H>().0, events)[i] is Read),
        forall|i: int, j: int|
            0 <= i < j < events.len() && #[trigger] actions(routes, opening::<H>().0, events)[i] is Write
                ==> #[trigger] actions(routes, opening::<H>().0, events)[j] is Close,
        forall|i: int|
            2 <= i < events.len() ==> #[trigger] actions(routes, opening::<H>().0, events)[i] is Close,
        events.len() > 0 && !(events[0] is Read) ==> forall|i: int|
            0 <= i < events.len() ==> #[trigger] actions(routes, opening::<H>().0, events)[i] is Close,
{
    connection_runs_down(routes, State::Reading, events);
    if events.len() > 0 && !(events[0] is Read) {
        let rest = actions(routes, State::Closed, events.drop_first());
        connection_runs_down(routes, State::Closed, events.drop_first());
        assert(actions(routes, State::Reading, events) == seq![
            transition(routes, State::Reading, events[0]).1,
        ] + rest);
        assert forall|i: int| 0 <= i < events.len() implies #[trigger] actions(
            routes,
            State::Reading,
            events,
        )[i] is Close by {
            if i > 0 {
                assert(actions(routes, State::Reading, events)[i] == rest[i - 1]);
            }
        }
    }
}

/// A request for a registered path goes to the handler that was registered for
/// it last, and what that handler answers is what is written: with the request
/// that `text` makes, the handler of the last registration for its path is
/// called, and its response goes onto the wire as it is.
pub proof fn registered_path_reaches_its_handler<H>(
    server: ServerView<H>,
    registrations: Seq<(Seq<char>, H)>,
    i: int,
    text: Seq<char>,
    response: ResponseView,
)
    requires
        0 <= i < registrations.len(),
        forall|j: int| i < j < registrations.len() ==> registrations[j].0 != registrations[i].0,
        request_of(text).path == registrations[i].0,
    ensures
        received(server.bound_all(registrations).routes, text) == (
            State::Dispatching,
            ActionView::Invoke { handler: registrations[i].1, request: request_of(text) },
        ),
        transition(
            server.bound_all(registrations).routes,
            State::Dispatching,
            EventView::Handled(response),
        ) == (State::Writing, ActionView::<H>::Write { text: wire_of(response) }),
{
    crate::server::last_registration_wins(server, registrations, i);
}

/// A request for a path that was never registered is answered with the
/// not-found response, and no handler is called for it.
pub proof fn unregistered_path_is_not_found<H>(
    addr: crate::server::Address,
    registrations: Seq<(Seq<char>, H)>,
    text: Seq<char>,
)
    requires
        forall|j: int| 0 <= j < registrations.len() ==> registrations[j].0 != request_of(text).path,
    ensures
        ({
            let server = ServerView { addr, routes: Map::<Seq<char>, H>::empty() };
            received(server.bound_all(registrations).routes, text) == (
                State::Writing,
                ActionView::<H>::Write { text: wire_of(not_found()) },
            )
        }),
{
    let server = ServerView { addr, routes: Map::<Seq<char>, H>::empty() };
    crate::server::other_paths_stay(server, registrations, request_of(text).path);
}

/// Opens a connection: it starts in `Reading`, and the one read of its life is
/// to be made.
pub fn open<'a, H>() -> (start: (State, Action<'a, H>))
    ensures
        start.0 == opening::<H>().0,
        start.1@ == opening::<H>().1,
{
    (State::Reading, Action::Read { limit: READ_LIMIT })
}

impl<H> Server<H> {
    /// The step after the text `text` was received: the request is parsed and
    /// its handler looked up.
    pub fn receive<'a>(&'a self, text: String) -> (next: (State, Action<'a, H>))
        ensures
            next.0 == received(self@.routes, text@).0,
            next.1@ == received(self@.routes, text@).1,
    {
        let request = Request::from_text(text);
        match self.handler(request.path.as_str()) {
            Some(handler) => (State::Dispatching, Action::Invoke { handler, request }),
            None => (State::Writing, Action::Write { text: Response::not_found().to_wire() }),
        }
    }

    /// The step that a connection in `state` takes on `event`.
    ///
    /// Bytes that were read are taken as UTF-8, ill-formed sequences replaced.
    pub fn step<'a>(&'a self, state: State, event: Event<'_>) -> (next: (State, Action<'a, H>))
        ensures
            next.0 == transition(self@.routes, state, event@).0,
            next.1@ == transition(self@.routes, state, event@).1,
            state == State::Reading ==> (event@ matches EventView::Read(bytes) ==> valid_utf8(bytes)
                ==> next.0 == received(self@.routes, decode_utf8(bytes)).0 && next.1@ == received(
                self@.routes,
                decode_utf8(bytes),
            ).1),
    {
        match (state, event) {
            (State::Reading, Event::Read(bytes)) => {
                let request = Request::from_bytes(bytes);
                match self.handler(request.path.as_str()) {
                    Some(handler) => (State::Dispatching, Action::Invoke { handler, request }),
                    None => (
                        State::Writing,
                        Action::Write { text: Response::not_found().to_wire() },
                    ),
                }
            },
            (State::Reading, Event::ReadFailed) => (
                State::Closed,
                Action::Close { ending: Ending::ReadFailed },
            ),
            (State::Dispatching, Event::Handled(response)) => (
                State::Writing,
                Action::Write { text: response.to_wire() },
            ),
            (State::Writing, Event::Written) => (State::Closed, Action::Close { ending: Ending::Done }),
            (State::Writing, Event::WriteFailed) => (
                State::Closed,
                Action::Close { ending: Ending::WriteFailed },
            ),
            _ => (State::Closed, Action::Close { ending: Ending::OutOfTurn }),
        }
    }
}

} // verus!
