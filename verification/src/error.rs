//! The error containers: a kind, an optional causal predecessor, and a
//! backtrace captured at construction, stored either inline or behind one
//! level of heap indirection.

use vstd::prelude::*;
use crate::diagnostics::capture_backtrace;
use crate::fail::{Fail, PriorFailure};

verus! {

/// What every error container stores: the kind that classifies the failure,
/// the prior failure that led to it (if any), and the backtrace captured when
/// the container was built.
#[derive(Debug)]
struct ChainContext<K> {
    kind: K,
    cause: Option<PriorFailure>,
    backtrace: Option<failure::Backtrace>,
}

/// An error container that stores its chain context inline.
///
/// Potentially a large value, but building one allocates nothing beyond what
/// the kind and cause already own, unlike [`BoxedError`].
#[derive(Debug)]
pub struct UnboxedError<ErrorKindT> {
    inner: ChainContext<ErrorKindT>,
}

/// An error container that stores its chain context behind a `Box`.
///
/// The value itself is one pointer wide, smaller than [`UnboxedError`], but
/// building one makes an allocation.
#[derive(Debug)]
pub struct BoxedError<ErrorKindT> {
    inner: Box<ChainContext<ErrorKindT>>,
}

/// What an error container offers over its kind: construction from a kind,
/// with or without a recorded cause, that never fails; read-only access to
/// the kind; and a display message equal to the kind's own message.
pub trait ErrorContainer<K: Fail>: Fail {
    /// The kind this error was built from, never changed afterwards.
    spec fn spec_kind(&self) -> K;

    /// The container's own message is exactly its kind's message.
    proof fn lemma_message_is_kind_message(&self)
        ensures
            self.spec_message() == self.spec_kind().spec_message(),
    ;

    /// Wraps a fresh kind with no cause, capturing a backtrace. Total.
    fn from_kind(kind: K) -> (e: Self)
        ensures
            e.spec_kind() == kind,
            e.spec_causes() == Seq::<Seq<char>>::empty(),
            e.spec_has_backtrace(),
    ;

    /// Wraps a kind and records `cause` as the new error's direct
    /// predecessor, capturing a backtrace. Total.
    fn from_cause_and_kind(cause: PriorFailure, kind: K) -> (e: Self)
        ensures
            e.spec_kind() == kind,
            e.spec_causes() == cause@,
            e.spec_has_backtrace(),
    ;

    /// Read-only access to the kind.
    fn kind(&self) -> (k: &K)
        ensures
            *k == self.spec_kind(),
    ;

    /// The displayed message: the kind's message alone, never the causes.
    fn display(&self) -> (m: String)
        ensures
            m@ == self.spec_kind().spec_message(),
    ;
}

/// Implemented by each error kind; its `Error` type selects the container
/// that errors of this kind live in, [`UnboxedError`] or [`BoxedError`].
pub trait ChainErrorKind: Fail {
    type Error: ErrorContainer<Self>;
}

impl<ErrorKindT: Fail> Fail for UnboxedError<ErrorKindT> {
    closed spec fn spec_message(&self) -> Seq<char> {
        self.inner.kind.spec_message()
    }

    closed spec fn spec_causes(&self) -> Seq<Seq<char>> {
        match self.inner.cause {
            None => Seq::empty(),
            Some(c) => c@,
        }
    }

    closed spec fn spec_has_backtrace(&self) -> bool {
        self.inner.backtrace is Some
    }

    fn message(&self) -> (m: String) {
        self.inner.kind.message()
    }

    fn cause(&self) -> (c: Option<&PriorFailure>) {
        match &self.inner.cause {
            Some(p) => {
                proof {
                    p.lemma_view_nonempty();
                }
                Some(p)
            },
            None => None,
        }
    }

    fn backtrace(&self) -> (b: Option<&failure::Backtrace>) {
        match &self.inner.backtrace {
            Some(bt) => Some(bt),
            None => None,
        }
    }

    fn into_prior(self) -> (p: PriorFailure) {
        let UnboxedError { inner } = self;
        context_into_prior(inner)
    }
}

impl<ErrorKindT: Fail> ErrorContainer<ErrorKindT> for UnboxedError<ErrorKindT> {
    closed spec fn spec_kind(&self) -> ErrorKindT {
        self.inner.kind
    }

    proof fn lemma_message_is_kind_message(&self) {
    }

    fn from_kind(kind: ErrorKindT) -> (e: Self) {
        UnboxedError {
            inner: ChainContext { kind, cause: None, backtrace: Some(capture_backtrace()) },
        }
    }

    fn from_cause_and_kind(cause: PriorFailure, kind: ErrorKindT) -> (e: Self) {
        UnboxedError {
            inner: ChainContext { kind, cause: Some(cause), backtrace: Some(capture_backtrace()) },
        }
    }

    fn kind(&self) -> (k: &ErrorKindT) {
        &self.inner.kind
    }

    fn display(&self) -> (m: String) {
        self.inner.kind.message()
    }
}

impl<ErrorKindT: Fail> Fail for BoxedError<ErrorKindT> {
    closed spec fn spec_message(&self) -> Seq<char> {
        self.inner.kind.spec_message()
    }

    closed spec fn spec_causes(&self) -> Seq<Seq<char>> {
        match self.inner.cause {
            None => Seq::empty(),
            Some(c) => c@,
        }
    }

    closed spec fn spec_has_backtrace(&self) -> bool {
        self.inner.backtrace is Some
    }

    fn message(&self) -> (m: String) {
        self.inner.kind.message()
    }

    fn cause(&self) -> (c: Option<&PriorFailure>) {
        match &self.inner.cause {
            Some(p) => {
                proof {
                    p.lemma_view_nonempty();
                }
                Some(p)
            },
            None => None,
        }
    }

    fn backtrace(&self) -> (b: Option<&failure::Backtrace>) {
        match &self.inner.backtrace {
            Some(bt) => Some(bt),
            None => None,
        }
    }

    fn into_prior(self) -> (p: PriorFailure) {
        let BoxedError { inner } = self;
        context_into_prior(*inner)
    }
}

impl<ErrorKindT: Fail> ErrorContainer<ErrorKindT> for BoxedError<ErrorKindT> {
    closed spec fn spec_kind(&self) -> ErrorKindT {
        self.inner.kind
    }

    proof fn lemma_message_is_kind_message(&self) {
    }

    fn from_kind(kind: ErrorKindT) -> (e: Self) {
        BoxedError {
            inner: Box::new(
                ChainContext { kind, cause: None, backtrace: Some(capture_backtrace()) },
            ),
        }
    }

    fn from_cause_and_kind(cause: PriorFailure, kind: ErrorKindT) -> (e: Self) {
        BoxedError {
            inner: Box::new(
                ChainContext { kind, cause: Some(cause), backtrace: Some(capture_backtrace()) },
            ),
        }
    }

    fn kind(&self) -> (k: &ErrorKindT) {
        &self.inner.kind
    }

    fn display(&self) -> (m: String) {
        self.inner.kind.message()
    }
}

/// Turns an owned chain context into the prior-failure form that a further
/// chaining step stores as the cause of the next error.
fn context_into_prior<ErrorKindT: Fail>(context: ChainContext<ErrorKindT>) -> (p: PriorFailure)
    ensures
        p@ == seq![context.kind.spec_message()] + match context.cause {
            None => Seq::<Seq<char>>::empty(),
            Some(c) => c@,
        },
{
    let ChainContext { kind, cause, backtrace: _ } = context;
    let message = kind.message();
    match cause {
        None => {
            let p = PriorFailure::new(message);
            proof {
                assert(p@ =~= seq![kind.spec_message()] + Seq::<Seq<char>>::empty());
            }
            p
        },
        Some(c) => PriorFailure::with_cause(message, c),
    }
}

} // verus!
