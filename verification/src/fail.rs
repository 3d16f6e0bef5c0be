//! The failure capability: anything that can act as an error or as the cause
//! of one exposes a message, an optional chain of causes, and an optional
//! backtrace.

use vstd::prelude::*;

verus! {

/// A stored prior failure: its own message together with the messages of its
/// transitive causes, forming a finite, acyclic, singly linked chain.
#[derive(Debug)]
pub struct PriorFailure {
    message: String,
    cause: Option<Box<PriorFailure>>,
}

/// The capability every error kind, error container and wrapped lower-level
/// failure offers: a human-readable message, the messages of its causes
/// (nearest first), an optional backtrace, and conversion into a stored
/// [`PriorFailure`] so that it can become the cause of a new error.
pub trait Fail: Sized {
    /// The failure's own message. Every implementation overrides this; the
    /// default leaves the message unconstrained.
    open spec fn spec_message(&self) -> Seq<char> {
        arbitrary()
    }

    /// The messages of the failure's causes, nearest cause first; empty when
    /// it has none. Every implementation overrides this; the default leaves
    /// the chain unconstrained.
    open spec fn spec_causes(&self) -> Seq<Seq<char>> {
        arbitrary()
    }

    /// Whether a backtrace was captured for this failure. Every
    /// implementation overrides this; the default leaves it unconstrained.
    open spec fn spec_has_backtrace(&self) -> bool {
        arbitrary()
    }

    /// The human-readable message of this failure alone, not of its causes.
    fn message(&self) -> (m: String)
        ensures
            m@ == self.spec_message(),
    ;

    /// The direct predecessor, if any; its chain holds every deeper cause.
    fn cause(&self) -> (c: Option<&PriorFailure>)
        ensures
            c is Some <==> self.spec_causes().len() != 0,
            match c {
                Some(p) => p@ == self.spec_causes(),
                None => true,
            },
    ;

    /// The backtrace captured for this failure, if one was.
    fn backtrace(&self) -> (b: Option<&failure::Backtrace>)
        ensures
            b is Some <==> self.spec_has_backtrace(),
    ;

    /// Consumes the failure into a stored prior failure whose chain starts
    /// with this failure's message and continues with its causes.
    fn into_prior(self) -> (p: PriorFailure)
        ensures
            p@ == seq![self.spec_message()] + self.spec_causes(),
    ;
}

impl PriorFailure {
    /// The chain of messages: index 0 is this failure's own message, followed
    /// by the messages of its causes, nearest cause first.
    pub closed spec fn view(&self) -> Seq<Seq<char>>
        decreases self,
    {
        match self.cause {
            None => seq![self.message@],
            Some(c) => seq![self.message@] + c.view(),
        }
    }

    /// A chain always holds at least the failure's own message.
    pub proof fn lemma_view_nonempty(&self)
        ensures
            self@.len() >= 1,
            self@[0] == self.spec_message(),
    {
    }

    /// A prior failure with no cause of its own.
    pub fn new(message: String) -> (p: PriorFailure)
        ensures
            p@ == seq![message@],
    {
        PriorFailure { message, cause: None }
    }

    /// A prior failure whose own cause chain is `cause`.
    pub fn with_cause(message: String, cause: PriorFailure) -> (p: PriorFailure)
        ensures
            p@ == seq![message@] + cause@,
    {
        PriorFailure { message, cause: Some(Box::new(cause)) }
    }
}

impl Fail for PriorFailure {
    open spec fn spec_message(&self) -> Seq<char> {
        self@[0]
    }

    open spec fn spec_causes(&self) -> Seq<Seq<char>> {
        self@.skip(1)
    }

    open spec fn spec_has_backtrace(&self) -> bool {
        false
    }

    fn message(&self) -> (m: String) {
        self.message.clone()
    }

    fn cause(&self) -> (c: Option<&PriorFailure>) {
        match &self.cause {
            Some(b) => {
                proof {
                    b.lemma_view_nonempty();
                    assert(self@.skip(1) =~= b.view());
                }
                Some(&**b)
            },
            None => {
                proof {
                    assert(self@.skip(1) =~= Seq::<Seq<char>>::empty());
                }
                None
            },
        }
    }

    fn backtrace(&self) -> (b: Option<&failure::Backtrace>) {
        None
    }

    fn into_prior(self) -> (p: PriorFailure) {
        proof {
            assert(seq![self@[0]] + self@.skip(1) =~= self@);
        }
        self
    }
}

} // verus!
