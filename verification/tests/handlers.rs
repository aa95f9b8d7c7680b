use std::sync::Arc;
use web_server::handler::{echo_body, echo_text};
use web_server::{Echo, Fixed, Handler, Request, Response, StaticFile};

fn request(path: &str) -> Request {
    Request { path: path.to_string(), body: format!("GET {} HTTP/1.1\r\n\r\n", path) }
}

struct Shout;

impl Handler for Shout {
    fn handle(&self, request: &Request) -> Response {
        Response { status: 202, body: request.path.to_uppercase() }
    }
}

#[test]
fn echo_names_the_requested_path() {
    let response = Echo.handle(&request("/dynamic"));
    assert_eq!(response.status, 200);
    assert_eq!(response.body, "You requested: /dynamic");
    let response = Echo.handle(&request("/dynamic/test"));
    assert_eq!(response.status, 200);
    assert_eq!(response.body, "You requested: /dynamic/test");
}

#[test]
fn echo_text_embeds_the_path_it_is_given() {
    assert_eq!(echo_text("/"), "You requested: /");
    assert_eq!(echo_text("/a?b=c"), "You requested: /a?b=c");
    assert_eq!(echo_text(""), "You requested: ");
    assert_eq!(echo_text("/caf\u{e9}"), "You requested: /caf\u{e9}");
}

#[test]
fn echo_body_names_the_resolved_path() {
    assert_eq!(echo_body(&request("/")), "You requested: /");
    assert_eq!(echo_body(&request("/a/b")), "You requested: /a/b");
    assert_eq!(echo_body(&request("/a?b=c")), "You requested: /a");
    assert_eq!(echo_body(&request("/a#top")), "You requested: /a");
    assert_eq!(echo_body(&request("http://localhost:8084/dynamic?x=1")), "You requested: /dynamic");
    assert_eq!(echo_body(&request("*")), "You requested: *");
}

#[test]
fn echo_body_names_what_is_no_uri_as_it_stands() {
    assert_eq!(echo_body(&request("/a b")), "You requested: /a b");
    assert_eq!(echo_body(&request("/a{b}")), "You requested: /a{b}");
}

#[test]
fn resolved_path_of_a_request() {
    assert_eq!(request("/index.html").resolved_path(), "/index.html");
    assert_eq!(request("/search?q=1").resolved_path(), "/search");
    assert_eq!(request("/a b").resolved_path(), "/a b");
}

#[test]
fn fixed_answers_the_same_to_every_request() {
    let ping = Fixed::new("pong");
    for path in ["/", "/ping", "/anything/else"] {
        let response = ping.handle(&request(path));
        assert_eq!(response.status, 200);
        assert_eq!(response.body, "pong");
    }
}

#[test]
fn static_file_serves_what_was_read() {
    let response = StaticFile::respond::<std::io::Error>(Ok("hello".to_string()));
    assert_eq!(response.status, 200);
    assert_eq!(response.body, "hello");
}

#[test]
fn static_file_answers_a_failed_read_with_404() {
    let missing = std::io::Error::new(std::io::ErrorKind::NotFound, "no such file");
    let response = StaticFile::respond(Err(missing));
    assert_eq!(response.status, 404);
    assert_eq!(response.body, "404: File not found");
}

#[test]
fn static_file_answers_any_read_error_alike() {
    let denied = std::io::Error::new(std::io::ErrorKind::PermissionDenied, "denied");
    let response = StaticFile::respond(Err(denied));
    assert_eq!(response.status, 404);
    assert_eq!(response.body, "404: File not found");
    let response = StaticFile::respond::<()>(Err(()));
    assert_eq!(response.status, 404);
    assert_eq!(response.body, "404: File not found");
}

#[test]
fn static_file_serves_an_empty_file() {
    let response = StaticFile::respond::<()>(Ok(String::new()));
    assert_eq!(response.status, 200);
    assert_eq!(response.body, "");
}

#[test]
fn static_file_keeps_its_path() {
    assert_eq!(StaticFile::new("static/index.html").path(), "static/index.html");
    assert_eq!(StaticFile::new("nonexistent.html").path(), "nonexistent.html");
}

#[test]
fn handlers_of_any_kind_answer_behind_one_type() {
    let handlers: Vec<Box<dyn Handler>> = vec![Box::new(Shout), Box::new(Fixed::new("pong")), Box::new(Echo)];
    let asked = request("/a");
    assert_eq!(handlers[0].handle(&asked).body, "/A");
    assert_eq!(handlers[0].handle(&asked).status, 202);
    assert_eq!(handlers[1].handle(&asked).body, "pong");
    assert_eq!(handlers[2].handle(&asked).body, "You requested: /a");
}

#[test]
fn shared_handler_answers_like_the_handler_itself() {
    let shared: Arc<dyn Handler> = Arc::new(Fixed::new("pong"));
    let other = shared.clone();
    assert_eq!(Handler::handle(&shared, &request("/")).body, "pong");
    assert_eq!(Handler::handle(&other, &request("/x")).body, "pong");
    let boxed: Box<Echo> = Box::new(Echo);
    assert_eq!(Handler::handle(&boxed, &request("/b")).body, "You requested: /b");
}
