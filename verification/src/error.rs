//! What can go wrong in the relay, and how far each failure reaches.

use vstd::prelude::*;

verus! {

/// The broker operation that failed.
#[derive(Clone, Copy, Debug, PartialEq, Eq, Structural)]
pub enum BrokerOperation {
    Publish,
    Subscribe,
    Unsubscribe,
}

/// A failure met while serving a connection or starting the process.
#[derive(Clone, Copy, Debug, PartialEq, Eq, Structural)]
pub enum RelayError {
    /// An inbound payload did not decode.
    Decode,
    /// A broker operation failed.
    Broker(BrokerOperation),
    /// A client sent a message that only the relay may send.
    ProtocolViolation,
    /// The transport failed while reading or writing.
    Connection,
    /// Required startup configuration is missing.
    Config,
}

/// How far a failure reaches.
#[derive(Clone, Copy, Debug, PartialEq, Eq, Structural)]
pub enum Reach {
    /// The offending message or operation is given up; the session goes on.
    Dropped,
    /// The session is torn down; other sessions are untouched.
    Session,
    /// The process does not start.
    Process,
}

impl RelayError {
    /// The reach of each kind of failure.
    pub open spec fn spec_reach(self) -> Reach {
        match self {
            RelayError::Decode => Reach::Dropped,
            RelayError::Broker(_) => Reach::Dropped,
            RelayError::ProtocolViolation => Reach::Dropped,
            RelayError::Connection => Reach::Session,
            RelayError::Config => Reach::Process,
        }
    }

    /// How far this failure reaches: only a transport failure ends a session,
    /// and only missing configuration stops the process.
    #[verifier::when_used_as_spec(spec_reach)]
    pub fn reach(self) -> (reach: Reach)
        ensures
            reach == self.spec_reach(),
    {
        match self {
            RelayError::Decode => Reach::Dropped,
            RelayError::Broker(_) => Reach::Dropped,
            RelayError::ProtocolViolation => Reach::Dropped,
            RelayError::Connection => Reach::Session,
            RelayError::Config => Reach::Process,
        }
    }
}

} // verus!
