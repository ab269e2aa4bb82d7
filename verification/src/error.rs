//! Error taxonomy and the classifier for server-signalled error codes.
//!
//! Transport failures, codec failures and protocol-level failures are kept
//! apart so that a caller can tell a broken connection from a malformed
//! byte stream from a well-formed reply of the wrong kind. After any codec
//! or protocol error the stream's framing position is no longer
//! trustworthy, so the session must be replaced, not reused.

use vstd::prelude::*;

use crate::hdr::CtrlType;

verus! {

/// Failure while decoding wire bytes: the buffer was shorter than the
/// required fixed size, or an enumerated field carried a code with no
/// defined meaning. Decoding never guesses a default for an unknown code.
#[derive(Clone, Copy, Debug, PartialEq, Eq, Structural)]
pub enum CodecError {
    /// The buffer holds fewer bytes than the header's fixed size.
    Undersized,
    /// The control-type byte carries a value with no defined meaning.
    UnknownCtrlType(u8),
    /// The instruction byte carries a value with no defined meaning.
    UnknownInstr(u8),
}

/// Everything a client operation can fail with.
#[derive(Clone, Copy, Debug, PartialEq, Eq, Structural)]
pub enum CqcError {
    /// General purpose server error, no details.
    General,
    /// No qubit with the specified id for this application.
    NoQubit,
    /// Command or command sequence not supported.
    Unsupported,
    /// Timeout signalled by the server.
    Timeout,
    /// A well-formed reply whose control type is neither the expected
    /// success kind nor a defined server error kind.
    Mismatch { expected: CtrlType, observed: CtrlType },
    /// The reply bytes could not be decoded.
    Codec(CodecError),
    /// The underlying connection failed. Produced by transport wrappers
    /// around this library, never by the in-memory session itself.
    Transport,
}

impl CqcError {
    /// A short description of the error, for reporting.
    pub fn describe(&self) -> String {
        match self {
            CqcError::General => "general server error".to_string(),
            CqcError::NoQubit => "no qubit with the specified id for this application".to_string(),
            CqcError::Unsupported => "command not supported by the implementation".to_string(),
            CqcError::Timeout => "timeout".to_string(),
            CqcError::Mismatch { .. } => "unexpected response kind".to_string(),
            CqcError::Codec(_) => "malformed reply bytes".to_string(),
            CqcError::Transport => "connection failure".to_string(),
        }
    }
}

/// The error owed when a waiting operation that expected `expected`
/// observed the control type `observed` instead: the specific server
/// error kind when `observed` is one of the four defined error kinds,
/// otherwise a mismatch naming both kinds.
pub open spec fn spec_classify(expected: CtrlType, observed: CtrlType) -> CqcError {
    match observed {
        CtrlType::ErrGeneral => CqcError::General,
        CtrlType::ErrNoQubit => CqcError::NoQubit,
        CtrlType::ErrUnsupp => CqcError::Unsupported,
        CtrlType::ErrTimeout => CqcError::Timeout,
        _ => CqcError::Mismatch { expected, observed },
    }
}

/// Classify an observed control type against the single success kind the
/// operation expected. See `spec_classify`.
pub fn classify_mismatch(expected: CtrlType, observed: CtrlType) -> (r: CqcError)
    ensures
        r == spec_classify(expected, observed),
{
    match observed {
        CtrlType::ErrGeneral => CqcError::General,
        CtrlType::ErrNoQubit => CqcError::NoQubit,
        CtrlType::ErrUnsupp => CqcError::Unsupported,
        CtrlType::ErrTimeout => CqcError::Timeout,
        _ => CqcError::Mismatch { expected, observed },
    }
}

} // verus!
