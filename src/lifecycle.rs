//! The lifecycle of one orbiting body, and what a single time step does to it.
//!
//! A body is `Active` until the first step at which its distance to the
//! origin is at or below the surface radius. From then on it is `Deorbited`
//! for good: it is frozen at its last state and no later step touches it.
use vstd::prelude::*;

verus! {

/// Where a body stands in its lifecycle.
#[derive(Clone, Copy, Debug, PartialEq, Eq, Structural)]
pub enum Lifecycle {
    Active,
    Deorbited,
}

/// What the driver does with one body during one time step.
#[derive(Clone, Copy, Debug, PartialEq, Eq, Structural)]
pub enum StepAction {
    /// The body had deorbited before this step: no force is computed, its
    /// state is left as it is, and no record is written.
    Skip,
    /// The body reached the surface at the start of this step: it is marked
    /// deorbited, its state is left as it is, and its record is written.
    Freeze,
    /// The body is active and above the surface: one velocity Verlet step is
    /// applied to it, and its record is written.
    Integrate,
}

/// The lifecycle of a body after a step that began in `state`, where
/// `at_or_below_surface` tells whether its distance to the origin was at or
/// below the surface radius when the step began.
pub open spec fn next_lifecycle(state: Lifecycle, at_or_below_surface: bool) -> Lifecycle {
    if state is Deorbited || at_or_below_surface {
        Lifecycle::Deorbited
    } else {
        Lifecycle::Active
    }
}

/// The action taken on a body during a step that began in `state`.
pub open spec fn action_for(state: Lifecycle, at_or_below_surface: bool) -> StepAction {
    if state is Deorbited {
        StepAction::Skip
    } else if at_or_below_surface {
        StepAction::Freeze
    } else {
        StepAction::Integrate
    }
}

/// Whether an action changes the body's position or velocity.
pub open spec fn moves_body(action: StepAction) -> bool {
    action is Integrate
}

/// Whether an action writes a record of the body's state.
pub open spec fn writes_record(action: StepAction) -> bool {
    !(action is Skip)
}

/// The lifecycle after a run of steps, one surface observation per step.
pub open spec fn lifecycle_after(state: Lifecycle, observations: Seq<bool>) -> Lifecycle
    decreases observations.len(),
{
    if observations.len() == 0 {
        state
    } else {
        lifecycle_after(next_lifecycle(state, observations[0]), observations.drop_first())
    }
}

/// The actions taken over a run of steps, one surface observation per step.
pub open spec fn actions_over(state: Lifecycle, observations: Seq<bool>) -> Seq<StepAction>
    decreases observations.len(),
{
    if observations.len() == 0 {
        Seq::empty()
    } else {
        seq![action_for(state, observations[0])].add(
            actions_over(next_lifecycle(state, observations[0]), observations.drop_first()),
        )
    }
}

impl Lifecycle {
    /// The lifecycle that a deorbited flag stands for.
    pub fn from_flag(deorbited: bool) -> (r: Lifecycle)
        ensures
            r is Deorbited <==> deorbited,
    {
        if deorbited {
            Lifecycle::Deorbited
        } else {
            Lifecycle::Active
        }
    }

    pub fn is_deorbited(&self) -> (r: bool)
        ensures
            r <==> *self is Deorbited,
    {
        match self {
            Lifecycle::Active => false,
            Lifecycle::Deorbited => true,
        }
    }
}

impl StepAction {
    /// Whether the body's position and velocity are to be advanced.
    pub fn moves_body(&self) -> (r: bool)
        ensures
            r == moves_body(*self),
    {
        match self {
            StepAction::Integrate => true,
            _ => false,
        }
    }

    /// Whether a record of the body's state is to be written after the step.
    pub fn writes_record(&self) -> (r: bool)
        ensures
            r == writes_record(*self),
    {
        match self {
            StepAction::Skip => false,
            _ => true,
        }
    }
}

/// Decides one time step for one body: its lifecycle after the step and
/// the action to take on it.
pub fn plan_step(state: Lifecycle, at_or_below_surface: bool) -> (r: (Lifecycle, StepAction))
    ensures
        r.0 == next_lifecycle(state, at_or_below_surface),
        r.1 == action_for(state, at_or_below_surface),
{
    match state {
        Lifecycle::Deorbited => (Lifecycle::Deorbited, StepAction::Skip),
        Lifecycle::Active => {
            if at_or_below_surface {
                (Lifecycle::Deorbited, StepAction::Freeze)
            } else {
                (Lifecycle::Active, StepAction::Integrate)
            }
        },
    }
}

/// A deorbited body stays frozen: whatever the later surface observations,
/// it stays deorbited, every later step skips it, so that none moves it and
/// none writes a record of it.
pub proof fn lemma_deorbited_stays_frozen(observations: Seq<bool>)
    ensures
        lifecycle_after(Lifecycle::Deorbited, observations) == Lifecycle::Deorbited,
        actions_over(Lifecycle::Deorbited, observations).len() == observations.len(),
        forall|i: int|
            0 <= i < observations.len() ==> {
                let a = #[trigger] actions_over(Lifecycle::Deorbited, observations)[i];
                &&& a == StepAction::Skip
                &&& !moves_body(a)
                &&& !writes_record(a)
            },
    decreases observations.len(),
{
    if observations.len() > 0 {
        lemma_deorbited_stays_frozen(observations.drop_first());
        let rest = actions_over(Lifecycle::Deorbited, observations.drop_first());
        let all = actions_over(Lifecycle::Deorbited, observations);
        assert forall|i: int| 0 <= i < observations.len() implies all[i] == StepAction::Skip by {
            if i > 0 {
                assert(all[i] == rest[i - 1]);
            }
        }
    }
}

/// Deorbiting cannot be undone: a body that is deorbited after the first
/// `k` steps of a run is deorbited at its end, and skipped by every step
/// after the `k`-th.
pub proof fn lemma_deorbit_is_permanent(state: Lifecycle, observations: Seq<bool>, k: int)
    requires
        0 <= k <= observations.len(),
        lifecycle_after(state, observations.take(k)) == Lifecycle::Deorbited,
    ensures
        lifecycle_after(state, observations) == Lifecycle::Deorbited,
        forall|i: int|
            k <= i < observations.len() ==> #[trigger] actions_over(state, observations)[i]
                == StepAction::Skip,
    decreases k,
{
    lemma_actions_len(state, observations);
    if k == 0 {
        assert(observations.take(0) =~= Seq::<bool>::empty());
        lemma_deorbited_stays_frozen(observations);
    } else {
        let next = next_lifecycle(state, observations[0]);
        let rest = observations.drop_first();
        assert(observations.take(k).drop_first() =~= rest.take(k - 1));
        lemma_deorbit_is_permanent(next, rest, k - 1);
        let all = actions_over(state, observations);
        assert forall|i: int| k <= i < observations.len() implies all[i] == StepAction::Skip by {
            assert(all[i] == actions_over(next, rest)[i - 1]);
        }
    }
}

/// A run of steps yields one action per step.
pub proof fn lemma_actions_len(state: Lifecycle, observations: Seq<bool>)
    ensures
        actions_over(state, observations).len() == observations.len(),
    decreases observations.len(),
{
    if observations.len() > 0 {
        lemma_actions_len(
            next_lifecycle(state, observations[0]),
            observations.drop_first(),
        );
    }
}

/// An active body found at or below the surface is marked deorbited by that
/// very step, which applies no integration to it.
pub proof fn lemma_surface_contact_stops_motion(state: Lifecycle)
    requires
        state is Active,
    ensures
        next_lifecycle(state, true) == Lifecycle::Deorbited,
        action_for(state, true) == StepAction::Freeze,
        !moves_body(action_for(state, true)),
{
}

} // verus!
