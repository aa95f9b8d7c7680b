//! The times measured around one answer of a handler.
//!
//! A handler that reports how long it took measures two spans: the time spent
//! on building the body of its response, and the time the whole answer took.
//! What the answer cost beyond the body is the difference of the two.

use vstd::prelude::*;

verus! {

/// Two measured spans, in nanoseconds.
#[derive(Clone, Copy, Debug, PartialEq, Eq, Structural)]
pub struct Timing {
    /// The time spent on building the body of the response.
    pub handler: u128,
    /// The time the whole answer took.
    pub total: u128,
}

impl Timing {
    /// What the answer cost beyond building the body: the total less the
    /// handler's own time. There is none where the handler's time exceeds the
    /// total, which no two measurements of one clock give.
    pub fn overhead(&self) -> (overhead: Option<u128>)
        ensures
            self.handler <= self.total ==> overhead == Some((self.total - self.handler) as u128),
            self.handler > self.total ==> overhead is None,
    {
        if self.handler <= self.total {
            Some(self.total - self.handler)
        } else {
            None
        }
    }
}

} // verus!
