//! The ways in which launching a guest can fail.

use vstd::prelude::*;
use vstd::string::StringExecFns;

verus! {

/// Why a launch, or an exchange with a launched guest, did not succeed.
#[derive(Debug, Clone, Copy, PartialEq, Eq, Structural)]
pub enum LaunchError {
    /// A path of the configuration is missing or names no file.
    Configuration,
    /// The monitor process could not be created.
    Spawn,
    /// The peer sent a frame longer than allowed, or bytes that do not
    /// parse.
    ProtocolViolation,
    /// The guest did not answer within the handshake's bound.
    HandshakeTimeout,
    /// The peer closed the stream while bytes were still expected.
    ConnectionClosed,
    /// The host could not carry out a socket or process operation.
    Io,
}

impl LaunchError {
    /// The text of the error, for people.
    pub open spec fn spec_message(self) -> Seq<char> {
        match self {
            LaunchError::Configuration => "invalid launch configuration"@,
            LaunchError::Spawn => "could not create the monitor process"@,
            LaunchError::ProtocolViolation => "protocol violation"@,
            LaunchError::HandshakeTimeout => "handshake timed out"@,
            LaunchError::ConnectionClosed => "connection closed"@,
            LaunchError::Io => "host operation failed"@,
        }
    }

    /// The text of the error, for people.
    pub fn message(&self) -> (text: String)
        ensures
            text@ == self.spec_message(),
    {
        match self {
            LaunchError::Configuration => String::from_str("invalid launch configuration"),
            LaunchError::Spawn => String::from_str("could not create the monitor process"),
            LaunchError::ProtocolViolation => String::from_str("protocol violation"),
            LaunchError::HandshakeTimeout => String::from_str("handshake timed out"),
            LaunchError::ConnectionClosed => String::from_str("connection closed"),
            LaunchError::Io => String::from_str("host operation failed"),
        }
    }

    /// Whether the error ends a handshake, as opposed to preventing it from
    /// being started.
    pub open spec fn spec_is_handshake_failure(self) -> bool {
        self == LaunchError::ProtocolViolation || self == LaunchError::HandshakeTimeout
            || self == LaunchError::ConnectionClosed || self == LaunchError::Io
    }

    /// Whether the error ends a handshake, as opposed to preventing it from
    /// being started.
    #[verifier::when_used_as_spec(spec_is_handshake_failure)]
    pub fn is_handshake_failure(self) -> (failure: bool)
        ensures
            failure == self.spec_is_handshake_failure(),
    {
        match self {
            LaunchError::Configuration | LaunchError::Spawn => false,
            _ => true,
        }
    }
}

} // verus!
