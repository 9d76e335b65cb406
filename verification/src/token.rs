//! The cooperative cancellation token shared between the host and
//! in-flight asynchronous work.
//!
//! A token is allocated active, transitions once and irreversibly to
//! cancelled, and is released by move.  Cancelling is idempotent and safe
//! at any time, in particular after the associated operation has already
//! completed.  Work polls the token at its suspension points; nothing is
//! ever preempted.

use vstd::prelude::*;
use vstd::string::StringExecFns;
use crate::errors::BridgeError;
use crate::errors::ErrorCode;

verus! {

#[verifier::external_type_specification]
#[verifier::external_body]
pub struct ExCancellationToken(tokio_util::sync::CancellationToken);

/// Whether a token value has been cancelled.
pub uninterp spec fn raw_token_cancelled(t: tokio_util::sync::CancellationToken) -> bool;

/// Relies on tokio_util::sync::CancellationToken::new: a freshly created
/// token is not cancelled.
#[verifier::external_body]
fn raw_token_new() -> (t: tokio_util::sync::CancellationToken)
    ensures
        !raw_token_cancelled(t),
{
    tokio_util::sync::CancellationToken::new()
}

/// Relies on tokio_util::sync::CancellationToken::cancel: after the call
/// the token is cancelled; cancelling an already cancelled token is
/// allowed and leaves it cancelled.
#[verifier::external_body]
fn raw_token_cancel(t: &mut tokio_util::sync::CancellationToken)
    ensures
        raw_token_cancelled(*final(t)),
{
    t.cancel()
}

/// Relies on tokio_util::sync::CancellationToken::is_cancelled: reports
/// whether the token has been cancelled.
#[verifier::external_body]
fn raw_token_is_cancelled(t: &tokio_util::sync::CancellationToken) -> (r: bool)
    ensures
        r == raw_token_cancelled(*t),
{
    t.is_cancelled()
}

/// An independently owned cancellation flag.  The bridge holds the token
/// exclusively; in-flight work observes it only through
/// [`cancellation_check`].
pub struct CancelToken {
    raw: tokio_util::sync::CancellationToken,
}

impl CancelToken {
    /// Whether this token has been cancelled.
    pub closed spec fn cancelled(self) -> bool {
        raw_token_cancelled(self.raw)
    }
}

/// Allocates a fresh, active token.
pub fn cancellation_token_new() -> (t: CancelToken)
    ensures
        !t.cancelled(),
{
    CancelToken { raw: raw_token_new() }
}

/// Cancels the token.  The transition is one-way: there is no operation
/// that clears it.  Calling this again, or after the associated work has
/// already completed, is harmless: the token merely stays cancelled.
pub fn cancellation_token_cancel(t: &mut CancelToken)
    ensures
        final(t).cancelled(),
{
    raw_token_cancel(&mut t.raw)
}

/// Releases the token.  Ownership is consumed by the move.
pub fn cancellation_token_free(t: CancelToken) {
    let _ = t;
}

/// The poll made by long-running work at each suspension point: a
/// cancelled token yields the distinguished cancelled error to report
/// through the normal completion path, an active one yields nothing.
pub fn cancellation_check(t: &CancelToken) -> (r: Option<BridgeError>)
    ensures
        t.cancelled() <==> r is Some,
        r is Some ==> r->0.code == ErrorCode::Cancelled,
{
    if raw_token_is_cancelled(&t.raw) {
        Some(BridgeError::new(ErrorCode::Cancelled, String::from_str("operation cancelled")))
    } else {
        None
    }
}

} // verus!
