//! The set-once discipline at the heart of the handle's lazy initialization:
//! a slot that is filled by the first successful construction outcome and
//! never changes afterwards, while a failed construction leaves it empty so a
//! later call may retry.
//!
//! The spec functions give the slot's transition rules; the lemmas state what
//! every sequence of construction outcomes leads to: all callers ever observe
//! at most one value, the first success, and once the slot is filled no later
//! outcome replaces it.

use vstd::prelude::*;

verus! {

/// A single-assignment slot. `None` means construction has not yet succeeded.
pub struct SetOnce<T> {
    slot: Option<T>,
}

impl<T> View for SetOnce<T> {
    type V = Option<T>;

    closed spec fn view(&self) -> Option<T> {
        self.slot
    }
}

/// The slot's value after one construction attempt whose outcome is `outcome`
/// (`None`: the attempt failed). A filled slot is never replaced; an empty
/// slot takes whatever the attempt produced.
pub open spec fn step<T>(state: Option<T>, outcome: Option<T>) -> Option<T> {
    if state is Some {
        state
    } else {
        outcome
    }
}

/// The slot's value after a sequence of construction outcomes, applied in
/// order, starting from `state`.
pub open spec fn run_from<T>(state: Option<T>, outcomes: Seq<Option<T>>) -> Option<T>
    decreases outcomes.len(),
{
    if outcomes.len() == 0 {
        state
    } else {
        run_from(step(state, outcomes.first()), outcomes.drop_first())
    }
}

/// The slot's value after a sequence of construction outcomes on a fresh slot.
pub open spec fn run<T>(outcomes: Seq<Option<T>>) -> Option<T> {
    run_from(None, outcomes)
}

/// The first successful outcome in a sequence, if any.
pub open spec fn first_success<T>(outcomes: Seq<Option<T>>) -> Option<T>
    decreases outcomes.len(),
{
    if outcomes.len() == 0 {
        None
    } else if outcomes.first() is Some {
        outcomes.first()
    } else {
        first_success(outcomes.drop_first())
    }
}

/// Once the slot is filled, it stays filled with the same value, whatever
/// construction outcomes come later: configuration changes and further
/// attempts after the first success have no effect.
pub proof fn lemma_filled_slot_is_stable<T>(value: T, outcomes: Seq<Option<T>>)
    ensures
        run_from(Some(value), outcomes) == Some(value),
    decreases outcomes.len(),
{
    if outcomes.len() > 0 {
        lemma_filled_slot_is_stable(value, outcomes.drop_first());
    }
}

/// Exactly-once construction: after any sequence of construction outcomes,
/// the slot holds precisely the first successful outcome, so no caller ever
/// observes a second constructed value.
pub proof fn lemma_exactly_one_value<T>(outcomes: Seq<Option<T>>)
    ensures
        run(outcomes) == first_success(outcomes),
    decreases outcomes.len(),
{
    if outcomes.len() > 0 {
        if outcomes.first() is Some {
            lemma_filled_slot_is_stable(outcomes.first()->0, outcomes.drop_first());
        } else {
            lemma_exactly_one_value(outcomes.drop_first());
        }
    }
}

/// Failed constructions do not poison the slot: after any number of failures
/// followed by one success, the slot holds that success, and every later
/// attempt finds it filled and reuses it.
pub proof fn lemma_retry_after_failures<T>(
    failures: Seq<Option<T>>,
    value: T,
    later: Seq<Option<T>>,
)
    requires
        forall|i: int| 0 <= i < failures.len() ==> failures[i] is None,
    ensures
        run(failures + seq![Some(value)] + later) == Some(value),
    decreases failures.len(),
{
    let all = failures + seq![Some(value)] + later;
    if failures.len() == 0 {
        assert(all.first() == Some(value));
        assert(all.drop_first() =~= later);
        lemma_filled_slot_is_stable(value, later);
    } else {
        assert(all.first() == failures.first());
        assert(all.drop_first() =~= failures.drop_first() + seq![Some(value)] + later);
        lemma_retry_after_failures(failures.drop_first(), value, later);
    }
}

impl<T> SetOnce<T> {
    /// A fresh, empty slot.
    pub fn new() -> (r: Self)
        ensures
            r@ is None,
    {
        SetOnce { slot: None }
    }

    /// Whether a construction attempt is still needed: construction work is
    /// done only while the slot is empty.
    pub fn needs_construction(&self) -> (r: bool)
        ensures
            r == (self@ is None),
    {
        self.slot.is_none()
    }

    /// Record one construction attempt's outcome. The slot moves exactly as
    /// `step` says: a filled slot is kept, an empty one takes the outcome.
    pub fn apply(&mut self, outcome: Option<T>)
        ensures
            final(self)@ == step(old(self)@, outcome),
    {
        if self.slot.is_none() {
            self.slot = outcome;
        }
    }

    /// The slot's current contents.
    pub fn get(&self) -> (r: &Option<T>)
        ensures
            *r == self@,
    {
        &self.slot
    }
}

} // verus!
