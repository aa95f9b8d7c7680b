use web_server::connection::open;
use web_server::{Action, Address, Echo, Ending, Event, Fixed, Handler, Response, Server, State, READ_LIMIT};

fn server() -> Server<Fixed> {
    Server::bind(Address::v4([127, 0, 0, 1], 8081))
        .route("/test", Fixed::new("ping"))
        .route("/test", Fixed::new("pong"))
}

fn is_close<H>(action: &Action<'_, H>, expected: Ending) -> bool {
    match action {
        Action::Close { ending } => *ending == expected,
        _ => false,
    }
}

#[test]
fn connection_opens_with_one_read() {
    let (state, action) = open::<Fixed>();
    assert_eq!(state, State::Reading);
    assert_eq!(READ_LIMIT, 1024);
    match action {
        Action::Read { limit } => assert_eq!(limit, 1024),
        _ => panic!("a connection starts by reading"),
    }
}

#[test]
fn exchange_with_a_registered_path() {
    let server = server();
    let (state, _) = open::<Fixed>();
    let raw = b"GET /test HTTP/1.1\r\nHost: localhost\r\n\r\n";
    let (state, action) = server.step(state, Event::Read(raw));
    assert_eq!(state, State::Dispatching);
    let response = match action {
        Action::Invoke { handler, request } => {
            assert_eq!(request.path, "/test");
            assert_eq!(request.body.as_bytes(), &raw[..]);
            handler.handle(&request)
        }
        _ => panic!("a registered path is dispatched"),
    };
    let (state, action) = server.step(state, Event::Handled(response));
    assert_eq!(state, State::Writing);
    match action {
        Action::Write { text } => assert_eq!(
            text,
            "HTTP/1.1 200 OK\r\nContent-Length: 4\r\nContent-Type: text/html\r\n\r\npong"
        ),
        _ => panic!("the response is written"),
    }
    let (state, action) = server.step(state, Event::Written);
    assert_eq!(state, State::Closed);
    assert!(is_close(&action, Ending::Done));
}

#[test]
fn exchange_with_an_unregistered_path() {
    let server = server();
    let (state, action) = server.step(State::Reading, Event::Read(b"GET /nothing HTTP/1.1\r\n\r\n"));
    assert_eq!(state, State::Writing);
    match action {
        Action::Write { text } => assert_eq!(
            text,
            "HTTP/1.1 404 Not Found\r\nContent-Length: 14\r\nContent-Type: text/html\r\n\r\n404: Not Found"
        ),
        _ => panic!("no handler is called for an unregistered path"),
    }
    let (state, action) = server.step(state, Event::Written);
    assert_eq!(state, State::Closed);
    assert!(is_close(&action, Ending::Done));
}

#[test]
fn handler_response_is_written_as_it_is() {
    let server = server();
    let response = Response { status: 500, body: "broken".to_string() };
    let (state, action) = server.step(State::Dispatching, Event::Handled(response));
    assert_eq!(state, State::Writing);
    match action {
        Action::Write { text } => assert_eq!(
            text,
            "HTTP/1.1 500 Internal Server Error\r\nContent-Length: 6\r\nContent-Type: text/html\r\n\r\nbroken"
        ),
        _ => panic!("the response is written"),
    }
}

#[test]
fn failed_read_closes_without_a_response() {
    let server = server();
    let (state, action) = server.step(State::Reading, Event::ReadFailed);
    assert_eq!(state, State::Closed);
    assert!(is_close(&action, Ending::ReadFailed));
}

#[test]
fn failed_write_closes() {
    let server = server();
    let (state, action) = server.step(State::Writing, Event::WriteFailed);
    assert_eq!(state, State::Closed);
    assert!(is_close(&action, Ending::WriteFailed));
}

#[test]
fn closed_connection_stays_closed() {
    let server = server();
    let events = [
        Event::Read(b"GET /test HTTP/1.1\r\n\r\n"),
        Event::ReadFailed,
        Event::Handled(Response::ok("x".to_string())),
        Event::Written,
        Event::WriteFailed,
    ];
    for event in events {
        let (state, action) = server.step(State::Closed, event);
        assert_eq!(state, State::Closed);
        assert!(is_close(&action, Ending::OutOfTurn));
    }
}

#[test]
fn event_out_of_turn_closes() {
    let server = server();
    let (state, action) = server.step(State::Reading, Event::Written);
    assert_eq!(state, State::Closed);
    assert!(is_close(&action, Ending::OutOfTurn));
    let (state, action) = server.step(State::Reading, Event::Handled(Response::not_found()));
    assert_eq!(state, State::Closed);
    assert!(is_close(&action, Ending::OutOfTurn));
    let (state, action) = server.step(State::Dispatching, Event::Read(b"GET / HTTP/1.1"));
    assert_eq!(state, State::Closed);
    assert!(is_close(&action, Ending::OutOfTurn));
    let (state, action) = server.step(State::Writing, Event::Read(b"GET / HTTP/1.1"));
    assert_eq!(state, State::Closed);
    assert!(is_close(&action, Ending::OutOfTurn));
    let (state, action) = server.step(State::Dispatching, Event::WriteFailed);
    assert_eq!(state, State::Closed);
    assert!(is_close(&action, Ending::OutOfTurn));
}

#[test]
fn no_step_asks_for_a_second_read() {
    let server = server();
    let states = [State::Reading, State::Dispatching, State::Writing, State::Closed];
    for state in states {
        let events = [
            Event::Read(b"GET /test HTTP/1.1\r\n\r\n"),
            Event::Read(b"GET /none HTTP/1.1\r\n\r\n"),
            Event::ReadFailed,
            Event::Handled(Response::ok("x".to_string())),
            Event::Written,
            Event::WriteFailed,
        ];
        for event in events {
            let (next, action) = server.step(state, event);
            assert_ne!(next, State::Reading);
            assert!(!matches!(action, Action::Read { .. }));
        }
    }
}

#[test]
fn second_request_on_a_connection_is_never_read() {
    let server = server();
    let first = b"GET /test HTTP/1.1\r\n\r\n";
    let (state, action) = server.step(State::Reading, Event::Read(first));
    let response = match action {
        Action::Invoke { handler, request } => handler.handle(&request),
        _ => panic!("a registered path is dispatched"),
    };
    let (state, _) = server.step(state, Event::Handled(response));
    let (state, _) = server.step(state, Event::Written);
    let (state, action) = server.step(state, Event::Read(first));
    assert_eq!(state, State::Closed);
    assert!(is_close(&action, Ending::OutOfTurn));
}

#[test]
fn receive_takes_text_that_was_decoded_already() {
    let server: Server<Echo> = Server::bind(Address::v4([127, 0, 0, 1], 8084)).route("/dynamic", Echo);
    let (state, action) = server.receive("GET /dynamic HTTP/1.1\r\n".to_string());
    assert_eq!(state, State::Dispatching);
    match action {
        Action::Invoke { handler, request } => {
            assert_eq!(request.path, "/dynamic");
            assert_eq!(handler.handle(&request).body, "You requested: /dynamic");
        }
        _ => panic!("a registered path is dispatched"),
    }
    let (state, action) = server.receive("GET /notfound HTTP/1.1\r\n".to_string());
    assert_eq!(state, State::Writing);
    assert!(matches!(action, Action::Write { .. }));
}

#[test]
fn ill_formed_bytes_are_replaced_before_the_lookup() {
    let server = Server::bind(Address::v4([127, 0, 0, 1], 8080)).route("/\u{fffd}", Fixed::new("odd"));
    let raw: [u8; 6] = [b'G', b'E', b'T', b' ', b'/', 0xff];
    let (state, action) = server.step(State::Reading, Event::Read(&raw));
    assert_eq!(state, State::Dispatching);
    match action {
        Action::Invoke { request, .. } => assert_eq!(request.path, "/\u{fffd}"),
        _ => panic!("the replaced path is registered"),
    }
}

#[test]
fn diagnostics_of_endings() {
    assert_eq!(Ending::ReadFailed.diagnostic(), Some("Failed to read from connection"));
    assert_eq!(Ending::WriteFailed.diagnostic(), Some("Failed to write response"));
    assert_eq!(Ending::Done.diagnostic(), None);
    assert_eq!(Ending::OutOfTurn.diagnostic(), None);
}
