//! Error codes of the Maelstrom protocol, which workloads emit or receive
//! in `error` payloads.
use vstd::prelude::*;

verus! {

/// A Maelstrom error code.
#[derive(Clone, Copy, Debug, PartialEq, Eq, Structural)]
pub enum ErrorCode {
    Timeout,
    NodeNotFound,
    NotSupported,
    TemporarilyUnavailable,
    MalformedRequest,
    Crash,
    Abort,
    KeyDoesNotExist,
    KeyAlreadyExists,
    PreconditionFailed,
    TxnConflict,
}

/// The numeric code that stands for `e` on the wire.
pub open spec fn code_of(e: ErrorCode) -> nat {
    match e {
        ErrorCode::Timeout => 0,
        ErrorCode::NodeNotFound => 1,
        ErrorCode::NotSupported => 10,
        ErrorCode::TemporarilyUnavailable => 11,
        ErrorCode::MalformedRequest => 12,
        ErrorCode::Crash => 13,
        ErrorCode::Abort => 14,
        ErrorCode::KeyDoesNotExist => 20,
        ErrorCode::KeyAlreadyExists => 21,
        ErrorCode::PreconditionFailed => 22,
        ErrorCode::TxnConflict => 30,
    }
}

/// A definite error means that the operation did not take effect; after an
/// indefinite one (a timeout, a crash) its outcome is unknown.
pub open spec fn definite(e: ErrorCode) -> bool {
    !(e is Timeout || e is Crash)
}

impl ErrorCode {
    /// The numeric code of this error.
    pub fn code(self) -> (r: usize)
        ensures
            r == code_of(self),
    {
        match self {
            ErrorCode::Timeout => 0,
            ErrorCode::NodeNotFound => 1,
            ErrorCode::NotSupported => 10,
            ErrorCode::TemporarilyUnavailable => 11,
            ErrorCode::MalformedRequest => 12,
            ErrorCode::Crash => 13,
            ErrorCode::Abort => 14,
            ErrorCode::KeyDoesNotExist => 20,
            ErrorCode::KeyAlreadyExists => 21,
            ErrorCode::PreconditionFailed => 22,
            ErrorCode::TxnConflict => 30,
        }
    }

    /// The error whose numeric code is `code`, if there is one.
    pub fn from_code(code: usize) -> (r: Option<ErrorCode>)
        ensures
            match r {
                Some(e) => code_of(e) == code,
                None => forall|e: ErrorCode| code_of(e) != code,
            },
    {
        match code {
            0 => Some(ErrorCode::Timeout),
            1 => Some(ErrorCode::NodeNotFound),
            10 => Some(ErrorCode::NotSupported),
            11 => Some(ErrorCode::TemporarilyUnavailable),
            12 => Some(ErrorCode::MalformedRequest),
            13 => Some(ErrorCode::Crash),
            14 => Some(ErrorCode::Abort),
            20 => Some(ErrorCode::KeyDoesNotExist),
            21 => Some(ErrorCode::KeyAlreadyExists),
            22 => Some(ErrorCode::PreconditionFailed),
            30 => Some(ErrorCode::TxnConflict),
            _ => None,
        }
    }
}

impl From<ErrorCode> for usize {
    fn from(value: ErrorCode) -> (r: usize) {
        value.code()
    }
}

impl vstd::std_specs::convert::FromSpecImpl<ErrorCode> for usize {
    open spec fn obeys_from_spec() -> bool {
        true
    }

    open spec fn from_spec(v: ErrorCode) -> usize {
        code_of(v) as usize
    }
}

/// Whether `error` is definite: whether the operation that it answers is
/// known not to have taken effect.
pub fn is_definite(error: ErrorCode) -> (r: bool)
    ensures
        r == definite(error),
{
    match error {
        ErrorCode::Timeout | ErrorCode::Crash => false,
        _ => true,
    }
}

} // verus!
