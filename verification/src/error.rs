//! The failures that cross the boundaries of the bridge.

use vstd::prelude::*;

verus! {

/// Status reported when a resource does not exist.
pub const NOT_FOUND: u16 = 404;

/// Status reported when a backing system fails.
pub const INTERNAL_SERVER_ERROR: u16 = 500;

/// Whether `code` is a status an HTTP response can carry.
pub open spec fn valid_status(code: int) -> bool {
    100 <= code <= 999
}

/// Tests `valid_status` at run time.
pub fn is_valid_status(code: u16) -> (valid: bool)
    ensures
        valid == valid_status(code as int),
{
    100 <= code && code <= 999
}

/// A fault of a backing system: a message for the caller and the HTTP status
/// it is reported with.
#[derive(Debug, PartialEq, Eq)]
pub struct Error {
    msg: String,
    code: u16,
}

impl Error {
    /// The message as a sequence of characters.
    pub closed spec fn detail(&self) -> Seq<char> {
        self.msg@
    }

    /// The status as a number.
    pub closed spec fn status(&self) -> int {
        self.code as int
    }

    /// Every `Error` carries a status that a response can be built with.
    #[verifier::type_invariant]
    pub closed spec fn well_formed(&self) -> bool {
        valid_status(self.code as int)
    }

    /// An error with the given message and status.
    pub fn new(msg: String, code: u16) -> (error: Self)
        requires
            valid_status(code as int),
        ensures
            error.detail() == msg@,
            error.status() == code,
    {
        Error { msg, code }
    }

    /// An error reported as "not found".
    pub fn new_404(msg: String) -> (error: Self)
        ensures
            error.detail() == msg@,
            error.status() == NOT_FOUND,
    {
        Error { msg, code: NOT_FOUND }
    }

    /// An error reported as an internal failure.
    pub fn new_500(msg: String) -> (error: Self)
        ensures
            error.detail() == msg@,
            error.status() == INTERNAL_SERVER_ERROR,
    {
        Error { msg, code: INTERNAL_SERVER_ERROR }
    }

    /// The status the error is reported with, always one a response can carry.
    pub fn status_code(&self) -> (code: u16)
        ensures
            code == self.status(),
            valid_status(code as int),
    {
        proof {
            use_type_invariant(self);
        }
        self.code
    }

    /// The text shown to the caller: the message alone.
    pub fn message(&self) -> (text: String)
        ensures
            text@ == self.detail(),
    {
        self.msg.clone()
    }
}

/// Whether `error` reports an internal failure with the message `msg`.
pub open spec fn is_internal(error: Error, msg: Seq<char>) -> bool {
    error.detail() == msg && error.status() == INTERNAL_SERVER_ERROR
}

impl Clone for Error {
    fn clone(&self) -> (copy: Self)
        ensures
            copy == *self,
    {
        proof {
            use_type_invariant(self);
        }
        Error { msg: self.msg.clone(), code: self.code }
    }
}

/// Why the cache-aside manager could not complete an operation.
#[derive(Debug, Clone, PartialEq, Eq)]
pub enum Fault {
    /// The store failed; nothing was written to the cache.
    Store(Error),
    /// The cache failed while it was read.
    Cache(Error),
    /// The mutation is committed, but the cache entry could not be rebuilt.
    CacheRefreshFailed(Error),
}

impl Fault {
    /// The fault of the backing system that caused this one.
    pub open spec fn cause(&self) -> Error {
        match *self {
            Fault::Store(e) => e,
            Fault::Cache(e) => e,
            Fault::CacheRefreshFailed(e) => e,
        }
    }

    /// The text sent back to the requester.
    pub fn message(&self) -> (text: String)
        ensures
            text@ == self.cause().detail(),
    {
        match self {
            Fault::Store(e) => e.message(),
            Fault::Cache(e) => e.message(),
            Fault::CacheRefreshFailed(e) => e.message(),
        }
    }
}

/// Why a call over the bridge produced no payload.
#[derive(Debug, Clone, PartialEq, Eq)]
pub enum BridgeError {
    /// No correlation key could be issued: the sequence counter is out of reach.
    Unavailable { detail: String },
    /// The request never reached the bus.
    PublishFailed { detail: String },
    /// No reply arrived before the deadline.
    Timeout,
    /// The server ran the operation and rejected it.
    RemoteError { detail: String },
    /// A reply arrived that is no reply envelope.
    DecodeFailed,
}

impl BridgeError {
    /// Whether the request is known not to have been processed to a reply, so
    /// that the caller may send it again.
    pub open spec fn never_answered(&self) -> bool {
        *self is Unavailable || *self is PublishFailed || *self is Timeout
    }

    /// Tells "never reached the server" from "processed and rejected".
    pub fn retry_is_safe(&self) -> (safe: bool)
        ensures
            safe == self.never_answered(),
    {
        match self {
            BridgeError::Unavailable { .. } => true,
            BridgeError::PublishFailed { .. } => true,
            BridgeError::Timeout => true,
            BridgeError::RemoteError { .. } => false,
            BridgeError::DecodeFailed => false,
        }
    }
}

} // verus!
