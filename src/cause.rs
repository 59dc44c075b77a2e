//! The opaque "caused by" value that adapter failures carry across the ports.
use vstd::prelude::*;

verus! {

/// An adapter failure's cause is an `anyhow::Error`: it is carried through, never inspected.
#[verifier::external_type_specification]
#[verifier::external_body]
pub struct ExAnyhowError(anyhow::Error);

/// Relies on `anyhow::Error::context`: wraps `err` under the message `msg`, which keeps
/// `err` as the source of the new error. Nothing about the new value is assumed.
#[verifier::external_body]
pub(crate) fn with_context(err: anyhow::Error, msg: &'static str) -> anyhow::Error {
    err.context(msg)
}

} // verus!
