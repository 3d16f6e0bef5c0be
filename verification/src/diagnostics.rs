//! Diagnostic context captured when an error container is built.
//!
//! The snapshot itself comes from the `failure` crate and is carried through
//! opaquely: nothing in this library reads its contents.

use vstd::prelude::*;

verus! {

/// `failure::Backtrace`, declared so that error containers can hold one.
/// A value of it is a snapshot of the call stack, opaque to this library.
#[verifier::external_type_specification]
#[verifier::external_body]
pub struct ExBacktrace(failure::Backtrace);

/// Relies on `failure::Backtrace::new`: builds a backtrace snapshot of the
/// current call site. Whether a real stack walk happens depends on how the
/// process was started, so nothing is stated about the value.
#[verifier::external_body]
pub(crate) fn capture_backtrace() -> failure::Backtrace {
    failure::Backtrace::new()
}

} // verus!
