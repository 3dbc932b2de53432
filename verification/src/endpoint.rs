//! The transport endpoint's two roles and what each says about its
//! progress. Binding, accepting and connecting are the driver's work.

use vstd::prelude::*;
use vstd::string::*;

verus! {

/// How this side comes by its one connection. Fixed at startup.
#[derive(Debug, Clone, Copy, PartialEq, Eq, Structural)]
pub enum ConnectionRole {
    /// Binds, accepts exactly one inbound connection and stops listening.
    Listener,
    /// Makes a single attempt to connect.
    Dialer,
}

/// The role that a mode word selects: `server` listens, and every other
/// word dials.
pub open spec fn role_of(mode: Seq<char>) -> ConnectionRole {
    if mode == "server"@ {
        ConnectionRole::Listener
    } else {
        ConnectionRole::Dialer
    }
}

/// What a role prints before it binds or connects.
pub open spec fn starting_text(role: ConnectionRole, address: Seq<char>) -> Seq<char> {
    match role {
        ConnectionRole::Listener => "Starting server on "@ + address
            + " - waiting for one connection..."@,
        ConnectionRole::Dialer => "Connecting to "@ + address + "..."@,
    }
}

/// What a role prints once the connection stands.
pub open spec fn connected_text(role: ConnectionRole, peer: Seq<char>) -> Seq<char> {
    match role {
        ConnectionRole::Listener => "Client connected: "@ + peer,
        ConnectionRole::Dialer => "Connected to server"@,
    }
}

/// The status line that a role puts on the inbound display queue once the
/// connection stands, before the session pipe takes over.
pub open spec fn connected_status(role: ConnectionRole, peer: Seq<char>) -> Seq<char> {
    match role {
        ConnectionRole::Listener => "--- Connected: "@ + peer + " ---"@,
        ConnectionRole::Dialer => "--- Connected to server ---"@,
    }
}

/// What a role prints to the error stream when it fails.
pub open spec fn failure_text(role: ConnectionRole, reason: Seq<char>) -> Seq<char> {
    match role {
        ConnectionRole::Listener => "server error: "@ + reason,
        ConnectionRole::Dialer => "client error: "@ + reason,
    }
}

impl ConnectionRole {
    /// The role for a mode word from the command line.
    pub fn from_mode(mode: &str) -> (role: ConnectionRole)
        ensures
            role == role_of(mode@),
    {
        if String::from_str(mode) == String::from_str("server") {
            ConnectionRole::Listener
        } else {
            ConnectionRole::Dialer
        }
    }

    /// The progress line to print before binding or connecting to
    /// `address`. It goes to the side channel, never to the history.
    pub fn starting_notice(self, address: &str) -> (notice: String)
        ensures
            notice@ == starting_text(self, address@),
    {
        match self {
            ConnectionRole::Listener => {
                let mut notice = String::from_str("Starting server on ");
                notice.append(address);
                notice.append(" - waiting for one connection...");
                notice
            },
            ConnectionRole::Dialer => {
                let mut notice = String::from_str("Connecting to ");
                notice.append(address);
                notice.append("...");
                notice
            },
        }
    }

    /// The progress line to print once the connection to `peer` stands.
    pub fn connected_notice(self, peer: &str) -> (notice: String)
        ensures
            notice@ == connected_text(self, peer@),
    {
        match self {
            ConnectionRole::Listener => {
                let mut notice = String::from_str("Client connected: ");
                notice.append(peer);
                notice
            },
            ConnectionRole::Dialer => String::from_str("Connected to server"),
        }
    }

    /// The status line for the inbound display queue once the connection to
    /// `peer` stands.
    pub fn connected_line(self, peer: &str) -> (line: String)
        ensures
            line@ == connected_status(self, peer@),
    {
        match self {
            ConnectionRole::Listener => {
                let mut line = String::from_str("--- Connected: ");
                line.append(peer);
                line.append(" ---");
                line
            },
            ConnectionRole::Dialer => String::from_str("--- Connected to server ---"),
        }
    }

    /// The line for the error stream when establishing or running the
    /// connection failed for `reason`.
    pub fn failure_notice(self, reason: &str) -> (notice: String)
        ensures
            notice@ == failure_text(self, reason@),
    {
        match self {
            ConnectionRole::Listener => {
                let mut notice = String::from_str("server error: ");
                notice.append(reason);
                notice
            },
            ConnectionRole::Dialer => {
                let mut notice = String::from_str("client error: ");
                notice.append(reason);
                notice
            },
        }
    }
}

} // verus!
