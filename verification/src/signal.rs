//! A reactive value cell: it owns a current value, and every change is
//! announced to each registered subscriber in registration order.
//!
//! The cell records, as ghost state, every value it has held (oldest first)
//! and, for each subscriber, how many values the cell had already held when
//! the subscriber registered. What a subscriber observes is defined from
//! these: first the value current at registration (delivered immediately on
//! registration, so a newly mounted view renders at once), then every later
//! `set` value, in the order `set` was called.
//!
//! Callbacks themselves live outside the cell: after `set`, the caller walks
//! the subscribers in order (`subscriber_count`) and hands each the current
//! value. The cell is the verified bookkeeping that fixes what each
//! subscriber is owed.

use vstd::prelude::*;

verus! {

pub struct Signal<T> {
    value: T,
    held: Ghost<Seq<T>>,
    marks: Vec<Ghost<int>>,
}

impl<T> Signal<T> {
    /// Every value the cell has held: the initial value, then each `set`
    /// argument, oldest first.
    pub closed spec fn held(&self) -> Seq<T> {
        self.held@
    }

    /// How many subscribers are registered.
    pub closed spec fn spec_subscriber_count(&self) -> int {
        self.marks.len() as int
    }

    /// How many values the cell had already held when subscriber `i`
    /// registered (at least 1: the cell is never empty).
    pub closed spec fn mark(&self, i: int) -> int {
        self.marks[i]@
    }

    /// The values subscriber `i` observes, oldest first: the value current
    /// at its registration, then every later `set` value in order.
    pub open spec fn observed(&self, i: int) -> Seq<T> {
        self.held().subrange(self.mark(i) - 1, self.held().len() as int)
    }

    /// The cell always holds at least its initial value, the current value
    /// is the last one held, and every registration mark is in range.
    pub closed spec fn wf(&self) -> bool {
        &&& self.held@.len() >= 1
        &&& self.value == self.held@.last()
        &&& forall|i: int|
            0 <= i < self.marks.len() ==> 1 <= #[trigger] self.marks[i]@ <= self.held@.len()
    }

    /// Create a cell holding `initial`, with no subscribers.
    pub fn new(initial: T) -> (s: Signal<T>)
        ensures
            s.wf(),
            s.held() =~= seq![initial],
            s.spec_subscriber_count() == 0,
    {
        let ghost h = seq![initial];
        Signal { value: initial, held: Ghost(h), marks: Vec::new() }
    }

    /// The current value. Callers that need an owned copy clone it; the
    /// live value inside the cell changes only through `set`.
    pub fn current(&self) -> (r: &T)
        requires
            self.wf(),
        ensures
            *r == self.held().last(),
    {
        &self.value
    }

    /// Replace the value. Every registered subscriber observes exactly the
    /// new value, appended after everything it had observed before, so
    /// observation order equals the order of `set` calls.
    pub fn set(&mut self, v: T)
        requires
            old(self).wf(),
        ensures
            final(self).wf(),
            final(self).held() == old(self).held().push(v),
            final(self).held().last() == v,
            final(self).spec_subscriber_count() == old(self).spec_subscriber_count(),
            forall|i: int| 0 <= i < old(self).spec_subscriber_count() ==>
                #[trigger] final(self).mark(i) == old(self).mark(i),
            forall|i: int| 0 <= i < old(self).spec_subscriber_count() ==>
                #[trigger] final(self).observed(i) == old(self).observed(i).push(v),
    {
        self.held = Ghost(self.held@.push(v));
        self.value = v;
        proof {
            assert forall|i: int| 0 <= i < self.marks.len() implies #[trigger] self.observed(i)
                == old(self).observed(i).push(v) by {
                assert(self.observed(i) =~= old(self).observed(i).push(v));
            }
        }
    }

    /// Register a subscriber and return its position. Its first observation
    /// is the value current at registration (the caller delivers it at once,
    /// the first-render guarantee); the cell's value and the other
    /// subscribers' observations are untouched.
    pub fn on(&mut self) -> (id: usize)
        requires
            old(self).wf(),
        ensures
            final(self).wf(),
            final(self).held() == old(self).held(),
            id == old(self).spec_subscriber_count(),
            final(self).spec_subscriber_count() == old(self).spec_subscriber_count() + 1,
            final(self).observed(id as int) =~= seq![old(self).held().last()],
            forall|i: int| 0 <= i < old(self).spec_subscriber_count() ==>
                #[trigger] final(self).observed(i) == old(self).observed(i),
    {
        let id = self.marks.len();
        self.marks.push(Ghost(self.held@.len() as int));
        proof {
            assert forall|i: int| 0 <= i < old(self).marks@.len() implies #[trigger] self.observed(
                i,
            ) == old(self).observed(i) by {
                assert(self.observed(i) =~= old(self).observed(i));
            }
        }
        id
    }

    /// How many subscribers are registered, for the caller that walks them
    /// to deliver notifications in registration order.
    pub fn subscriber_count(&self) -> (n: usize)
        ensures
            n == self.spec_subscriber_count(),
    {
        self.marks.len()
    }
}

/// Law: for every sequence of `set` calls, each registered subscriber
/// observes each value the cell held from its registration on — its first
/// observation is the value current when `on` registered it, and its
/// following observations are exactly the later `set` values, in the order
/// `set` was called.
pub proof fn lemma_subscriber_observation<T>(s: &Signal<T>, i: int)
    requires
        s.wf(),
        0 <= i < s.spec_subscriber_count(),
    ensures
        s.observed(i).len() == s.held().len() - s.mark(i) + 1,
        s.observed(i)[0] == s.held()[s.mark(i) - 1],
        forall|k: int| 0 <= k < s.observed(i).len() ==>
            #[trigger] s.observed(i)[k] == s.held()[s.mark(i) - 1 + k],
        s.observed(i) == seq![s.held()[s.mark(i) - 1]] + s.held().subrange(
            s.mark(i),
            s.held().len() as int,
        ),
{
    assert(s.observed(i) =~= seq![s.held()[s.mark(i) - 1]] + s.held().subrange(
        s.mark(i),
        s.held().len() as int,
    ));
}

} // verus!
