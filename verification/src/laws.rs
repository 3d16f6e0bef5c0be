//! Laws of the chaining model: what repeated wrapping does to an error's
//! cause chain, and that displaying an error is free of hidden mutation.

use vstd::prelude::*;
use crate::error::ErrorContainer;
use crate::fail::Fail;

verus! {

/// The full chain of a failure: its own message followed by the messages of
/// its causes, outermost first.
pub open spec fn full_chain<F: Fail>(f: F) -> Seq<Seq<char>> {
    seq![f.spec_message()] + f.spec_causes()
}

/// The full chain that results from wrapping a failure whose chain is
/// `original` once for each entry of `wrappers`, in order: each wrap puts the
/// new kind's message in front of everything recorded so far.
pub open spec fn chained(original: Seq<Seq<char>>, wrappers: Seq<Seq<char>>) -> Seq<Seq<char>>
    decreases wrappers.len(),
{
    if wrappers.len() == 0 {
        original
    } else {
        seq![wrappers.last()] + chained(original, wrappers.drop_last())
    }
}

/// One more wrap extends the model by exactly the step the combinators'
/// contracts state: the new message in front of the previous full chain.
pub proof fn lemma_chained_step(
    original: Seq<Seq<char>>,
    wrappers: Seq<Seq<char>>,
    next: Seq<char>,
)
    ensures
        chained(original, wrappers.push(next)) == seq![next] + chained(original, wrappers),
{
    assert(wrappers.push(next).drop_last() =~= wrappers);
    assert(wrappers.push(next).last() == next);
}

/// One application of a chaining combinator, as its contracts state it,
/// performs exactly one `chained` wrap: the new failure's full chain is the
/// previous failure's full chain with the new message in front.
pub proof fn lemma_chain_once<F1: Fail, F2: Fail>(previous: &F1, next: &F2)
    requires
        next.spec_causes() == seq![previous.spec_message()] + previous.spec_causes(),
    ensures
        full_chain(*next) == chained(full_chain(*previous), seq![next.spec_message()]),
{
    let wrap = seq![next.spec_message()];
    assert(wrap.last() == next.spec_message());
    assert(wrap.drop_last() =~= Seq::<Seq<char>>::empty());
    assert(chained(full_chain(*previous), Seq::<Seq<char>>::empty()) == full_chain(*previous));
    assert(chained(full_chain(*previous), wrap) =~= seq![next.spec_message()] + full_chain(
        *previous,
    ));
    assert(full_chain(*next) =~= seq![next.spec_message()] + full_chain(*previous));
}

/// Law (chain depth and order): wrapping a failure N times yields a chain
/// whose length grows by exactly N, and walking it from the outermost end
/// visits the wrapping kinds' messages in the exact reverse of the order they
/// were applied, followed by the original chain unchanged.
pub proof fn lemma_chain_depth(original: Seq<Seq<char>>, wrappers: Seq<Seq<char>>)
    ensures
        chained(original, wrappers).len() == original.len() + wrappers.len(),
        forall|i: int|
            0 <= i < wrappers.len() ==> chained(original, wrappers)[i] == wrappers[wrappers.len()
                - 1 - i],
        forall|i: int|
            wrappers.len() <= i < original.len() + wrappers.len() ==> chained(original, wrappers)[i]
                == original[i - wrappers.len()],
    decreases wrappers.len(),
{
    if wrappers.len() > 0 {
        lemma_chain_depth(original, wrappers.drop_last());
    }
}

/// Law (display is idempotent): any two results of displaying the same error
/// hold the same text, so repeating the display operation cannot observe any
/// hidden mutation.
pub proof fn lemma_display_idempotent<K: Fail, E: ErrorContainer<K>>(
    e: &E,
    first: String,
    second: String,
)
    requires
        call_ensures(E::display, (e,), first),
        call_ensures(E::display, (e,), second),
    ensures
        first@ == second@,
{
}

} // verus!
