//! Early-return helpers: each builds a failure from an error kind, so that a
//! caller can abort with `return bail(kind)` or guard with `ensure(cond,
//! kind)?`. They add no state of their own, only the short-circuit at the
//! call site.

use vstd::prelude::*;
use crate::error::{ChainErrorKind, ErrorContainer};
use crate::fail::Fail;

verus! {

/// A failure built from `kind`, with no cause. Returning it aborts the
/// calling function unconditionally.
pub fn bail<T, ErrorKindT: ChainErrorKind>(kind: ErrorKindT) -> (r: Result<
    T,
    ErrorKindT::Error,
>)
    ensures
        r is Err,
        r->Err_0.spec_kind() == kind,
        r->Err_0.spec_causes() == Seq::<Seq<char>>::empty(),
        r->Err_0.spec_has_backtrace(),
{
    Err(ErrorKindT::Error::from_kind(kind))
}

/// As [`bail`], for a kind built by a constructor from one message string:
/// the failure's kind is `constructor(message)`.
pub fn bail_msg<T, ErrorKindT: ChainErrorKind, F: FnOnce(String) -> ErrorKindT>(
    constructor: F,
    message: String,
) -> (r: Result<T, ErrorKindT::Error>)
    requires
        call_requires(constructor, (message,)),
    ensures
        r is Err,
        call_ensures(constructor, (message,), r->Err_0.spec_kind()),
        r->Err_0.spec_causes() == Seq::<Seq<char>>::empty(),
        r->Err_0.spec_has_backtrace(),
{
    let kind = constructor(message);
    Err(ErrorKindT::Error::from_kind(kind))
}

/// Success when `condition` holds, so that `ensure(condition, kind)?` lets
/// execution continue; when it does not hold, exactly what [`bail`] returns.
/// The condition is evaluated once, by the caller.
pub fn ensure<ErrorKindT: ChainErrorKind>(condition: bool, kind: ErrorKindT) -> (r: Result<
    (),
    ErrorKindT::Error,
>)
    ensures
        r is Ok <==> condition,
        !condition ==> ({
            &&& r->Err_0.spec_kind() == kind
            &&& r->Err_0.spec_causes() == Seq::<Seq<char>>::empty()
            &&& r->Err_0.spec_has_backtrace()
        }),
{
    if condition {
        Ok(())
    } else {
        Err(ErrorKindT::Error::from_kind(kind))
    }
}

/// As [`ensure`], for a kind built by a constructor from one message string;
/// the constructor is applied only when `condition` fails.
pub fn ensure_msg<ErrorKindT: ChainErrorKind, F: FnOnce(String) -> ErrorKindT>(
    condition: bool,
    constructor: F,
    message: String,
) -> (r: Result<(), ErrorKindT::Error>)
    requires
        !condition ==> call_requires(constructor, (message,)),
    ensures
        r is Ok <==> condition,
        !condition ==> ({
            &&& call_ensures(constructor, (message,), r->Err_0.spec_kind())
            &&& r->Err_0.spec_causes() == Seq::<Seq<char>>::empty()
            &&& r->Err_0.spec_has_backtrace()
        }),
{
    if condition {
        Ok(())
    } else {
        let kind = constructor(message);
        Err(ErrorKindT::Error::from_kind(kind))
    }
}

} // verus!
