//! A minimal HTTP server core, verified with Verus.
//!
//! One connection carries one request and one response. The request line is
//! parsed for its path, the path is looked up in a route table by exact
//! match, the handler bound to it gives the response, and the response is put
//! into its form on the wire.
//!
//! Nothing here performs I/O. The accept loop and the protocol of a
//! connection are state machines that decide what is to be done; whoever
//! drives them reads, writes, and runs handlers that have to wait.

pub mod connection;
pub mod handler;
pub mod listener;
pub mod request;
pub mod request_line;
pub mod response;
pub mod server;
pub mod timing;

pub use connection::{Action, Ending, Event, State, READ_LIMIT};
pub use handler::{Echo, Fixed, Handler, StaticFile};
pub use request::Request;
pub use response::Response;
pub use server::{Address, Server};
pub use timing::Timing;
