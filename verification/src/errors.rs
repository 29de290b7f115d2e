//! Declarations for the error type of the `anyhow` crate, which internal
//! failures are reported with, as in the host application around this
//! library.

use vstd::prelude::*;

verus! {

/// Declares `anyhow::Error` so it can appear in event and task payloads.
/// The state machine never inspects such a value; it only carries it from
/// the `InternalError` event to the notify executor.
#[verifier::external_type_specification]
#[verifier::external_body]
pub struct ExAnyhowError(anyhow::Error);

/// Relies on `anyhow::Error::msg` to build an error value from a message.
/// Nothing is assumed of the resulting value; the library only passes it on.
#[verifier::external_body]
pub(crate) fn error_from_message(message: &'static str) -> anyhow::Error {
    anyhow::Error::msg(message)
}

} // verus!
