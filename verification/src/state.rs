//! The life cycle of one connection: its states, what a turn of the driver can
//! find, and where each finding leads.

use vstd::prelude::*;

verus! {

/// Where a connection stands.  `Closed` and `Failed` are terminal.
#[derive(Clone, Copy, Debug, PartialEq, Eq, Structural)]
pub enum ConnectionState {
    /// The TLS handshake is still under way.
    Handshaking,
    /// The handshake is done; application data may flow.
    Established,
    /// The peer has stopped sending and the request was handed on; the
    /// response is awaited.
    Closing,
    /// Finished in good order.
    Closed,
    /// Given up after a transport or TLS failure.
    Failed,
}

/// What one call into the driver found.
#[derive(Clone, Copy, Debug, PartialEq, Eq, Structural)]
pub enum Outcome {
    /// Nothing was done: the connection was not in a state to do it.
    NotRun,
    /// The socket read failed, or gave nothing in the time allowed.
    ReadFailed,
    /// A write to the socket failed.
    WriteFailed,
    /// The TLS session refused the ciphertext, or took none of it.
    IngestFailed,
    /// The TLS session found a protocol error in the buffered records.
    ProcessFailed,
    /// The stream ended inside a record, or before the handshake was done.
    Truncated,
    /// The session took the ciphertext; `handshaking` says whether the
    /// handshake is still under way afterwards.
    Progress { handshaking: bool },
    /// The stream ended between two records and the parser accepted the
    /// request.
    Accepted,
    /// The stream ended between two records and the parser refused the request;
    /// `answered` says whether the whole error response went into the session.
    Rejected { answered: bool },
    /// A response was offered; `delivered` says whether all of it went into
    /// the session.
    Responded { delivered: bool },
}

/// What the caller has to do after a call into the driver, once it has
/// written out the bytes that came with it.
#[derive(Clone, Copy, Debug, PartialEq, Eq, Structural)]
pub enum Next {
    /// Read from the socket again.
    Read,
    /// Have the request handled, then offer the response.
    Respond,
    /// Close the socket.
    Close,
}

impl ConnectionState {
    /// `Closed` and `Failed` are the terminal states.
    pub open spec fn is_terminal(self) -> bool {
        self is Closed || self is Failed
    }

    /// Ciphertext is still wanted in `Handshaking` and `Established`.
    pub open spec fn is_reading(self) -> bool {
        self is Handshaking || self is Established
    }

    /// The position of a state in the life cycle: a connection never moves to
    /// a state of lower rank.
    pub open spec fn rank(self) -> nat {
        match self {
            ConnectionState::Handshaking => 0,
            ConnectionState::Established => 1,
            ConnectionState::Closing => 2,
            ConnectionState::Closed => 3,
            ConnectionState::Failed => 3,
        }
    }

    /// The state that follows `self` when a call into the driver found
    /// `outcome`.  Nothing leads out of a terminal state.  A failed socket read
    /// or write ends any other state in `Failed`.  What a turn of the driver found counts
    /// only while ciphertext is wanted, and what became of a response only
    /// while one is awaited.
    pub open spec fn after(self, outcome: Outcome) -> ConnectionState {
        match self {
            ConnectionState::Closed => ConnectionState::Closed,
            ConnectionState::Failed => ConnectionState::Failed,
            ConnectionState::Closing => match outcome {
                Outcome::ReadFailed => ConnectionState::Failed,
                Outcome::WriteFailed => ConnectionState::Failed,
                Outcome::Responded { delivered } => if delivered {
                    ConnectionState::Closed
                } else {
                    ConnectionState::Failed
                },
                _ => ConnectionState::Closing,
            },
            _ => match outcome {
                Outcome::NotRun => self,
                Outcome::Responded { .. } => self,
                Outcome::Progress { handshaking } => if self is Handshaking && handshaking {
                    ConnectionState::Handshaking
                } else {
                    ConnectionState::Established
                },
                Outcome::Accepted => ConnectionState::Closing,
                Outcome::Rejected { answered } => if answered {
                    ConnectionState::Closed
                } else {
                    ConnectionState::Failed
                },
                _ => ConnectionState::Failed,
            },
        }
    }

    /// What the caller does next when the connection has come to `self`.
    pub open spec fn next(self) -> Next {
        match self {
            ConnectionState::Handshaking => Next::Read,
            ConnectionState::Established => Next::Read,
            ConnectionState::Closing => Next::Respond,
            ConnectionState::Closed => Next::Close,
            ConnectionState::Failed => Next::Close,
        }
    }

    pub fn terminal(self) -> (b: bool)
        ensures
            b == self.is_terminal(),
    {
        match self {
            ConnectionState::Closed => true,
            ConnectionState::Failed => true,
            _ => false,
        }
    }

    pub fn reading(self) -> (b: bool)
        ensures
            b == self.is_reading(),
    {
        match self {
            ConnectionState::Handshaking => true,
            ConnectionState::Established => true,
            _ => false,
        }
    }

    /// Moves on from `self` by what a call into the driver found.
    pub fn advance(self, outcome: Outcome) -> (to: ConnectionState)
        ensures
            to == self.after(outcome),
    {
        match self {
            ConnectionState::Closed => ConnectionState::Closed,
            ConnectionState::Failed => ConnectionState::Failed,
            ConnectionState::Closing => match outcome {
                Outcome::ReadFailed => ConnectionState::Failed,
                Outcome::WriteFailed => ConnectionState::Failed,
                Outcome::Responded { delivered } => if delivered {
                    ConnectionState::Closed
                } else {
                    ConnectionState::Failed
                },
                _ => ConnectionState::Closing,
            },
            ConnectionState::Handshaking => match outcome {
                Outcome::NotRun => ConnectionState::Handshaking,
                Outcome::Responded { .. } => ConnectionState::Handshaking,
                Outcome::Progress { handshaking } => if handshaking {
                    ConnectionState::Handshaking
                } else {
                    ConnectionState::Established
                },
                Outcome::Accepted => ConnectionState::Closing,
                Outcome::Rejected { answered } => if answered {
                    ConnectionState::Closed
                } else {
                    ConnectionState::Failed
                },
                _ => ConnectionState::Failed,
            },
            ConnectionState::Established => match outcome {
                Outcome::NotRun => ConnectionState::Established,
                Outcome::Responded { .. } => ConnectionState::Established,
                Outcome::Progress { .. } => ConnectionState::Established,
                Outcome::Accepted => ConnectionState::Closing,
                Outcome::Rejected { answered } => if answered {
                    ConnectionState::Closed
                } else {
                    ConnectionState::Failed
                },
                _ => ConnectionState::Failed,
            },
        }
    }

    /// What the caller does next in this state.
    pub fn directive(self) -> (next: Next)
        ensures
            next == self.next(),
    {
        match self {
            ConnectionState::Handshaking => Next::Read,
            ConnectionState::Established => Next::Read,
            ConnectionState::Closing => Next::Respond,
            ConnectionState::Closed => Next::Close,
            ConnectionState::Failed => Next::Close,
        }
    }
}

} // verus!
