//! The driver's view of the orbiting bodies: the lifecycle of each, in
//! collection order, and the plan of each time step for all of them.
use vstd::prelude::*;

use crate::lifecycle::{action_for, next_lifecycle, plan_step, Lifecycle, StepAction};

verus! {

/// The lifecycles after one step of every body, given the lifecycles before
/// it and one surface observation per body.
pub open spec fn round_lifecycles(before: Seq<Lifecycle>, below: Seq<bool>) -> Seq<Lifecycle> {
    Seq::new(before.len(), |i: int| next_lifecycle(before[i], below[i]))
}

/// The actions of one step of every body, in collection order.
pub open spec fn round_actions(before: Seq<Lifecycle>, below: Seq<bool>) -> Seq<StepAction> {
    Seq::new(before.len(), |i: int| action_for(before[i], below[i]))
}

/// The number of active bodies among `states`.
pub open spec fn count_active(states: Seq<Lifecycle>) -> nat
    decreases states.len(),
{
    if states.len() == 0 {
        0
    } else {
        count_active(states.drop_last()) + if states.last() is Active {
            1nat
        } else {
            0nat
        }
    }
}

/// Within one step of all bodies, every body that had already deorbited
/// stays deorbited and is skipped.
pub proof fn lemma_round_keeps_deorbited_frozen(before: Seq<Lifecycle>, below: Seq<bool>)
    requires
        below.len() == before.len(),
    ensures
        forall|i: int|
            0 <= i < before.len() && before[i] is Deorbited ==> {
                &&& #[trigger] round_lifecycles(before, below)[i] == Lifecycle::Deorbited
                &&& round_actions(before, below)[i] == StepAction::Skip
            },
{
}

/// A step of all bodies never makes more of them active: the number of
/// active bodies can only fall as the run goes on.
pub proof fn lemma_active_count_never_grows(before: Seq<Lifecycle>, below: Seq<bool>)
    requires
        below.len() == before.len(),
    ensures
        count_active(round_lifecycles(before, below)) <= count_active(before),
    decreases before.len(),
{
    if before.len() > 0 {
        let after = round_lifecycles(before, below);
        lemma_active_count_never_grows(before.drop_last(), below.drop_last());
        assert(after.drop_last() =~= round_lifecycles(before.drop_last(), below.drop_last()));
    }
}

/// The lifecycles of the orbiting bodies of one simulation, in collection
/// order. Bodies are neither added nor removed once the run has begun.
pub struct Roster {
    states: Vec<Lifecycle>,
}

impl View for Roster {
    type V = Seq<Lifecycle>;

    closed spec fn view(&self) -> Seq<Lifecycle> {
        self.states@
    }
}

impl Roster {
    /// A roster of `body_count` bodies, all active.
    pub fn new(body_count: usize) -> (r: Roster)
        ensures
            r@ == Seq::new(body_count as nat, |i: int| Lifecycle::Active),
    {
        let mut states: Vec<Lifecycle> = Vec::new();
        let mut i: usize = 0;
        while i < body_count
            invariant
                i <= body_count,
                states@ == Seq::new(i as nat, |j: int| Lifecycle::Active),
            decreases body_count - i,
        {
            states.push(Lifecycle::Active);
            i = i + 1;
        }
        Roster { states }
    }

    /// The number of bodies.
    pub fn len(&self) -> (r: usize)
        ensures
            r == self@.len(),
    {
        self.states.len()
    }

    /// The lifecycle of the body at `index`.
    pub fn lifecycle(&self, index: usize) -> (r: Lifecycle)
        requires
            index < self@.len(),
        ensures
            r == self@[index as int],
    {
        self.states[index]
    }

    /// The number of bodies that are still active.
    pub fn active_count(&self) -> (r: usize)
        ensures
            r == count_active(self@),
    {
        let mut n: usize = 0;
        let mut i: usize = 0;
        while i < self.states.len()
            invariant
                i <= self.states@.len(),
                n == count_active(self.states@.take(i as int)),
                n <= i,
            decreases self.states@.len() - i,
        {
            assert(self.states@.take(i as int + 1).drop_last() =~= self.states@.take(i as int));
            if self.states[i].is_deorbited() {
            } else {
                n = n + 1;
            }
            i = i + 1;
        }
        assert(self.states@.take(i as int) =~= self.states@);
        n
    }

    /// Plans one time step of every body. `below[i]` tells whether body `i`
    /// was at or below the surface radius when the step began. Each body's
    /// lifecycle is advanced, and the action to take on each is returned,
    /// in collection order.
    pub fn plan_round(&mut self, below: &Vec<bool>) -> (actions: Vec<StepAction>)
        requires
            below@.len() == old(self)@.len(),
        ensures
            final(self)@ == round_lifecycles(old(self)@, below@),
            actions@ == round_actions(old(self)@, below@),
    {
        let ghost before = self.states@;
        let mut actions: Vec<StepAction> = Vec::new();
        let mut i: usize = 0;
        while i < self.states.len()
            invariant
                below@.len() == before.len(),
                self.states@.len() == before.len(),
                i <= before.len(),
                forall|j: int|
                    0 <= j < i ==> self.states@[j] == next_lifecycle(before[j], below@[j]),
                forall|j: int| i <= j < before.len() ==> self.states@[j] == before[j],
                actions@ == round_actions(before, below@).take(i as int),
            decreases before.len() - i,
        {
            let (next, action) = plan_step(self.states[i], below[i]);
            self.states.set(i, next);
            actions.push(action);
            i = i + 1;
            assert(actions@ =~= round_actions(before, below@).take(i as int));
        }
        assert(self.states@ =~= round_lifecycles(before, below@));
        assert(actions@ =~= round_actions(before, below@));
        actions
    }
}

} // verus!
