//! What the interactive loop hands to the session pipe.

use vstd::prelude::*;

verus! {

/// An order for the session pipe, queued by the interactive loop.
#[derive(Debug, PartialEq, Eq)]
pub enum NetworkCommand {
    /// Send this text to the peer, as the user typed it.
    Send(String),
}

impl NetworkCommand {
    /// The text that the command carries.
    pub open spec fn text(self) -> Seq<char> {
        match self {
            NetworkCommand::Send(text) => text@,
        }
    }
}

} // verus!
