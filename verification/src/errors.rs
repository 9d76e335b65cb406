//! The bridge's closed error taxonomy and its owned error object.
//!
//! Every fallible entry point of the bridge reports exactly one of these
//! categories; the engine's native failures are translated at the boundary
//! and never passed through opaquely.

use vstd::prelude::*;

verus! {

/// The closed set of failure categories the bridge reports to the host.
#[derive(Clone, Copy, PartialEq, Eq, Structural, Debug)]
pub enum ErrorCode {
    /// A byte sequence that was promised to be text failed to decode.
    Utf8,
    /// A protocol-level fault, such as checkpoint corruption or a usage
    /// violation on a handle.
    Protocol,
    /// An operation required loaded snapshot state and none was present.
    MissingMetadata,
    /// The engine reported that a table or file does not exist.
    NotFound,
    /// The engine reported a storage or I/O failure.
    Storage,
    /// The operation exists at the boundary but has no behaviour yet.
    NotImplemented,
    /// The operation observed its cancellation token set and stopped.
    Cancelled,
}

/// The owned error object delivered to the host: a category and a
/// free-form message.  Ownership moves with the value; releasing it is
/// dropping it, and a released error can no longer be named.
#[derive(Debug)]
pub struct BridgeError {
    pub code: ErrorCode,
    pub message: String,
}

impl BridgeError {
    /// Builds an error object carrying the given category and message.
    pub fn new(code: ErrorCode, message: String) -> (r: BridgeError)
        ensures
            r.code == code,
            r.message == message,
    {
        BridgeError { code, message }
    }
}

/// A failure as the black-box table engine reports it, before it is
/// translated into the bridge's taxonomy.
#[derive(Clone, Copy, PartialEq, Eq, Structural, Debug)]
pub enum EngineFault {
    /// The requested table, version or file does not exist.
    NotFound,
    /// The underlying object store failed.
    Storage,
    /// The transaction log or a checkpoint violated the table protocol.
    Protocol,
    /// The table has no snapshot state loaded.
    NoMetadata,
}

/// The category a given engine fault translates to.
pub open spec fn spec_translate_fault(f: EngineFault) -> ErrorCode {
    match f {
        EngineFault::NotFound => ErrorCode::NotFound,
        EngineFault::Storage => ErrorCode::Storage,
        EngineFault::Protocol => ErrorCode::Protocol,
        EngineFault::NoMetadata => ErrorCode::MissingMetadata,
    }
}

/// Translates an engine fault into the bridge's taxonomy.  This is the
/// only path by which engine failures reach the host, so no native
/// category leaks through.
pub fn translate_fault(f: EngineFault, message: String) -> (r: BridgeError)
    ensures
        r.code == spec_translate_fault(f),
        r.message == message,
{
    let code = match f {
        EngineFault::NotFound => ErrorCode::NotFound,
        EngineFault::Storage => ErrorCode::Storage,
        EngineFault::Protocol => ErrorCode::Protocol,
        EngineFault::NoMetadata => ErrorCode::MissingMetadata,
    };
    BridgeError { code, message }
}

/// Releases an error object.  Ownership is consumed by the move, so a
/// second release of the same object is rejected by the type system.
pub fn error_free(e: BridgeError) {
    let _ = e;
}

} // verus!
