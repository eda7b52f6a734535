//! Error taxonomy of the connection core, and the shared error latch that
//! records the first fatal error of a connection.

use vstd::prelude::*;

verus! {

/// Error codes a broker can attach to an `error` frame, in wire order.
#[derive(Clone, Copy, Debug, PartialEq, Eq, Structural)]
pub enum ServerError {
    UnknownError,
    MetadataError,
    PersistenceError,
    AuthenticationError,
    AuthorizationError,
    ConsumerBusy,
    ServiceNotReady,
    ProducerBlockedQuotaExceededError,
    ProducerBlockedQuotaExceededException,
    ChecksumError,
    UnsupportedVersionError,
    TopicNotFound,
    SubscriptionNotFound,
    ConsumerNotFound,
    TooManyRequests,
    TopicTerminatedError,
    ProducerBusy,
    InvalidTopicName,
}

/// Wire code of each server error, as the protocol numbers them.
pub open spec fn spec_server_error(code: i32) -> Option<ServerError> {
    if code == 0 {
        Some(ServerError::UnknownError)
    } else if code == 1 {
        Some(ServerError::MetadataError)
    } else if code == 2 {
        Some(ServerError::PersistenceError)
    } else if code == 3 {
        Some(ServerError::AuthenticationError)
    } else if code == 4 {
        Some(ServerError::AuthorizationError)
    } else if code == 5 {
        Some(ServerError::ConsumerBusy)
    } else if code == 6 {
        Some(ServerError::ServiceNotReady)
    } else if code == 7 {
        Some(ServerError::ProducerBlockedQuotaExceededError)
    } else if code == 8 {
        Some(ServerError::ProducerBlockedQuotaExceededException)
    } else if code == 9 {
        Some(ServerError::ChecksumError)
    } else if code == 10 {
        Some(ServerError::UnsupportedVersionError)
    } else if code == 11 {
        Some(ServerError::TopicNotFound)
    } else if code == 12 {
        Some(ServerError::SubscriptionNotFound)
    } else if code == 13 {
        Some(ServerError::ConsumerNotFound)
    } else if code == 14 {
        Some(ServerError::TooManyRequests)
    } else if code == 15 {
        Some(ServerError::TopicTerminatedError)
    } else if code == 16 {
        Some(ServerError::ProducerBusy)
    } else if code == 17 {
        Some(ServerError::InvalidTopicName)
    } else {
        None
    }
}

/// Decodes the wire code of a broker error; unknown codes map to `None`.
pub fn server_error(code: i32) -> (r: Option<ServerError>)
    ensures
        r == spec_server_error(code),
{
    if code == 0 {
        Some(ServerError::UnknownError)
    } else if code == 1 {
        Some(ServerError::MetadataError)
    } else if code == 2 {
        Some(ServerError::PersistenceError)
    } else if code == 3 {
        Some(ServerError::AuthenticationError)
    } else if code == 4 {
        Some(ServerError::AuthorizationError)
    } else if code == 5 {
        Some(ServerError::ConsumerBusy)
    } else if code == 6 {
        Some(ServerError::ServiceNotReady)
    } else if code == 7 {
        Some(ServerError::ProducerBlockedQuotaExceededError)
    } else if code == 8 {
        Some(ServerError::ProducerBlockedQuotaExceededException)
    } else if code == 9 {
        Some(ServerError::ChecksumError)
    } else if code == 10 {
        Some(ServerError::UnsupportedVersionError)
    } else if code == 11 {
        Some(ServerError::TopicNotFound)
    } else if code == 12 {
        Some(ServerError::SubscriptionNotFound)
    } else if code == 13 {
        Some(ServerError::ConsumerNotFound)
    } else if code == 14 {
        Some(ServerError::TooManyRequests)
    } else if code == 15 {
        Some(ServerError::TopicTerminatedError)
    } else if code == 16 {
        Some(ServerError::ProducerBusy)
    } else if code == 17 {
        Some(ServerError::InvalidTopicName)
    } else {
        None
    }
}

/// What can go wrong on a connection.
///
/// `Disconnected` is terminal: the transport is torn down or a channel
/// tied to it closed.  `PulsarError` and `UnexpectedResponse` are
/// per-call results and do not poison the connection.  `Io` and `Tls`
/// carry the description of a lower-layer connect or handshake failure.
#[derive(Clone, Debug, PartialEq, Eq)]
pub enum ConnectionError {
    Disconnected,
    NotFound,
    PulsarError(Option<ServerError>, Option<String>),
    Unexpected(String),
    UnexpectedResponse(String),
    Shutdown,
    Io(String),
    Tls(String),
}

/// Single-writer-wins latch that records the first fatal error of a
/// connection.  The connection is valid exactly while the latch is empty.
///
/// The latch itself is plain data; the shell that runs the connection's
/// tasks shares one instance between them behind its own synchronization.
pub struct SharedError {
    error: Option<ConnectionError>,
}

impl SharedError {
    /// The recorded error, if one has been set.
    pub closed spec fn stored(self) -> Option<ConnectionError> {
        self.error
    }

    /// A fresh latch holds no error.
    pub fn new() -> (r: SharedError)
        ensures
            r.stored() is None,
    {
        SharedError { error: None }
    }

    /// True once an error has been recorded.
    pub fn is_set(&self) -> (r: bool)
        ensures
            r == (self.stored() is Some),
    {
        self.error.is_some()
    }

    /// Records `error` if the latch is empty; a later error is discarded,
    /// so the first writer wins.
    pub fn set(&mut self, error: ConnectionError)
        ensures
            old(self).stored() is None ==> final(self).stored() == Some(error),
            old(self).stored() is Some ==> final(self).stored() == old(self).stored(),
    {
        if self.error.is_none() {
            self.error = Some(error);
        }
    }

    /// Consumes and returns the recorded error, leaving the latch empty.
    pub fn remove(&mut self) -> (r: Option<ConnectionError>)
        ensures
            r == old(self).stored(),
            final(self).stored() is None,
    {
        self.error.take()
    }
}

} // verus!
