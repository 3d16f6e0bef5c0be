//! Extension trait adding the `chain_err` family of combinators to `Result`:
//! each one transforms only the failure arm, wrapping the failure that was
//! there into a new error container with a caller-chosen kind.

use vstd::prelude::*;
use crate::error::{ChainErrorKind, ErrorContainer};
use crate::fail::Fail;

verus! {

/// The `chain_err` family. Every combinator leaves a success untouched and,
/// given a failure, always produces a new failure built from the callback's
/// kind: the failure arm is never silently dropped.
pub trait ResultExt: Sized {
    type Success;

    type Error: Fail;

    /// The carrier seen as a plain `Result`.
    spec fn spec_result(self) -> Result<Self::Success, Self::Error>;

    /// Replaces the failure with a new error built from `map`'s kind output;
    /// the original failure becomes the `cause` of the new one. `map` is
    /// called only on the failure path and learns nothing of the original.
    fn chain_err<ErrorKindT: ChainErrorKind, F: FnOnce() -> ErrorKindT>(self, map: F) -> (r:
        Result<Self::Success, ErrorKindT::Error>)
        requires
            self.spec_result() is Err ==> call_requires(map, ()),
        ensures
            r is Ok <==> self.spec_result() is Ok,
            self.spec_result() is Ok ==> r->Ok_0 == self.spec_result()->Ok_0,
            r is Err ==> ({
                let original = self.spec_result()->Err_0;
                &&& call_ensures(map, (), r->Err_0.spec_kind())
                &&& r->Err_0.spec_causes() == seq![original.spec_message()]
                    + original.spec_causes()
                &&& r->Err_0.spec_has_backtrace()
            }),
    ;

    /// Like `chain_err`, but the callback may first inspect the original
    /// failure, so the kind it picks can depend on what went wrong.
    fn chain_inspect_err<ErrorKindT: ChainErrorKind, F: FnOnce(&Self::Error) -> ErrorKindT>(
        self,
        map: F,
    ) -> (r: Result<Self::Success, ErrorKindT::Error>)
        requires
            self.spec_result() is Err ==> call_requires(map, (&self.spec_result()->Err_0,)),
        ensures
            r is Ok <==> self.spec_result() is Ok,
            self.spec_result() is Ok ==> r->Ok_0 == self.spec_result()->Ok_0,
            r is Err ==> ({
                let original = self.spec_result()->Err_0;
                &&& call_ensures(map, (&original,), r->Err_0.spec_kind())
                &&& r->Err_0.spec_causes() == seq![original.spec_message()]
                    + original.spec_causes()
                &&& r->Err_0.spec_has_backtrace()
            }),
    ;

    /// Like `chain_err`, but the callback takes the original failure by
    /// value. Having been consumed by the callback, the original is not
    /// recorded as a cause: the new error starts a fresh chain.
    fn replace_err<ErrorKindT: ChainErrorKind, F: FnOnce(Self::Error) -> ErrorKindT>(
        self,
        map: F,
    ) -> (r: Result<Self::Success, ErrorKindT::Error>)
        requires
            self.spec_result() is Err ==> call_requires(map, (self.spec_result()->Err_0,)),
        ensures
            r is Ok <==> self.spec_result() is Ok,
            self.spec_result() is Ok ==> r->Ok_0 == self.spec_result()->Ok_0,
            r is Err ==> ({
                let original = self.spec_result()->Err_0;
                &&& call_ensures(map, (original,), r->Err_0.spec_kind())
                &&& r->Err_0.spec_causes() == Seq::<Seq<char>>::empty()
                &&& r->Err_0.spec_has_backtrace()
            }),
    ;
}

impl<SuccessT, ErrorT: Fail> ResultExt for Result<SuccessT, ErrorT> {
    type Success = SuccessT;

    type Error = ErrorT;

    open spec fn spec_result(self) -> Result<SuccessT, ErrorT> {
        self
    }

    fn chain_err<ErrorKindT: ChainErrorKind, F: FnOnce() -> ErrorKindT>(self, map: F) -> (r:
        Result<SuccessT, ErrorKindT::Error>) {
        match self {
            Ok(value) => Ok(value),
            Err(initial_error) => {
                let kind = map();
                Err(ErrorKindT::Error::from_cause_and_kind(initial_error.into_prior(), kind))
            },
        }
    }

    fn chain_inspect_err<ErrorKindT: ChainErrorKind, F: FnOnce(&ErrorT) -> ErrorKindT>(
        self,
        map: F,
    ) -> (r: Result<SuccessT, ErrorKindT::Error>) {
        match self {
            Ok(value) => Ok(value),
            Err(initial_error) => {
                let kind = map(&initial_error);
                Err(ErrorKindT::Error::from_cause_and_kind(initial_error.into_prior(), kind))
            },
        }
    }

    fn replace_err<ErrorKindT: ChainErrorKind, F: FnOnce(ErrorT) -> ErrorKindT>(self, map: F) -> (r:
        Result<SuccessT, ErrorKindT::Error>) {
        match self {
            Ok(value) => Ok(value),
            Err(initial_error) => {
                let kind = map(initial_error);
                Err(ErrorKindT::Error::from_kind(kind))
            },
        }
    }
}

} // verus!
