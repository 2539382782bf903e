//! The transport client's decision half. The surrounding program owns the
//! socket and performs the write; this type owns the connection status,
//! decided once at startup, and turns each message into either the exact
//! newline-terminated line owed to the wire or nothing at all. A failed
//! connection attempt therefore degrades every later send to a no-op instead
//! of failing anything.

use vstd::prelude::*;
use vstd::string::*;

verus! {

/// An outbound client that is either connected or permanently disconnected.
/// The status never changes during a run: a dropped connection is not
/// retried.
#[derive(Clone, Copy, PartialEq, Eq, Structural, Debug)]
pub struct Client {
    /// Whether the startup connection attempt succeeded.
    pub connected: bool,
}

impl Client {
    /// A client in the given state. Connecting is the caller's business; a
    /// failed attempt yields a disconnected client, never an error.
    pub fn new(connected: bool) -> (r: Client)
        ensures
            r.connected == connected,
    {
        Client { connected }
    }

    /// The line of text to put on the wire for one message: the message plus
    /// the terminating newline when connected; nothing whatsoever when
    /// disconnected, however often it is called.
    pub fn send(&self, msg: &str) -> (r: Option<String>)
        ensures
            self.connected ==> r is Some && r.unwrap()@ == msg@ + "\n"@,
            !self.connected ==> r is None,
    {
        if self.connected {
            let mut line = String::from_str(msg);
            line.append("\n");
            Some(line)
        } else {
            None
        }
    }
}

} // verus!
