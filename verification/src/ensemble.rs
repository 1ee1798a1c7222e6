//! The ensemble of pendulum states and the driver that advances it.

use vstd::prelude::*;
use rayon::iter::{IntoParallelRefMutIterator, ParallelIterator};
use crate::error::EnsembleError;
use crate::params::SimulationParameters;
use crate::state::PendulumState;

verus! {

/// An ordered, fixed-size collection of pendulum states that evolve side by
/// side without influencing each other.
///
/// The storage is private: members change only through `advance_all`, and the
/// member count never changes.
#[derive(Debug)]
pub struct Ensemble {
    members: Vec<PendulumState>,
}

impl View for Ensemble {
    type V = Seq<PendulumState>;

    closed spec fn view(&self) -> Seq<PendulumState> {
        self.members@
    }
}

impl Ensemble {
    /// An ensemble is well formed when it has at least one member. Every
    /// ensemble that `create_ensemble` returns is, and `advance_all` keeps it
    /// so.
    pub open spec fn wf(&self) -> bool {
        self@.len() > 0
    }

    /// The number of members, fixed when the ensemble was constructed.
    pub fn len(&self) -> (n: usize)
        ensures
            n == self@.len(),
    {
        self.members.len()
    }
}

/// `after` is what one tick makes of `before`: the same number of members,
/// and each member of `after` is an outcome of `step` applied to the member
/// of `before` at the same index, and to nothing else.
pub open spec fn advanced<F>(
    before: Seq<PendulumState>,
    after: Seq<PendulumState>,
    step: F,
    params: SimulationParameters,
    dt: u64,
) -> bool where F: Fn(PendulumState, SimulationParameters, u64) -> PendulumState {
    &&& after.len() == before.len()
    &&& forall|i: int|
        0 <= i < before.len() ==> step.ensures((before[i], params, dt), #[trigger] after[i])
}

/// `step` may be applied to every member of `members`.
pub open spec fn steppable<F>(
    members: Seq<PendulumState>,
    step: F,
    params: SimulationParameters,
    dt: u64,
) -> bool where F: Fn(PendulumState, SimulationParameters, u64) -> PendulumState {
    forall|i: int| 0 <= i < members.len() ==> step.requires((#[trigger] members[i], params, dt))
}

/// Replaces one member by its successor under `step`.
fn advance_member<F>(
    member: &mut PendulumState,
    params: &SimulationParameters,
    dt: u64,
    step: &F,
) where F: Fn(PendulumState, SimulationParameters, u64) -> PendulumState
    requires
        step.requires((*old(member), *params, dt)),
    ensures
        step.ensures((*old(member), *params, dt), *final(member)),
{
    *member = step(*member, *params, dt);
}

/// Runs `advance_member` on every element of `members` through rayon's
/// `par_iter_mut().for_each(..)`.
///
/// Trusted: rayon hands each element of the slice to the closure exactly
/// once, as an exclusive reference, and returns when every call has returned;
/// the vector's length is untouched. So each element ends as `advance_member`
/// leaves it, given the element it started as.
#[verifier::external_body]
fn advance_each_in_parallel<F>(
    members: &mut Vec<PendulumState>,
    params: &SimulationParameters,
    dt: u64,
    step: &F,
) where F: Fn(PendulumState, SimulationParameters, u64) -> PendulumState + Sync
    requires
        steppable(old(members)@, *step, *params, dt),
    ensures
        advanced(old(members)@, final(members)@, *step, *params, dt),
{
    members.par_iter_mut().for_each(|member| advance_member(member, params, dt, step));
}

/// Builds an ensemble of `size` members, member `i` being
/// `initial_condition(i)`.
///
/// Fails when `size` is zero, and otherwise when some physical parameter is
/// not a positive real number; the error then names the first such parameter.
pub fn create_ensemble<G>(
    size: usize,
    initial_condition: G,
    params: SimulationParameters,
) -> (outcome: Result<Ensemble, EnsembleError>) where G: Fn(usize) -> PendulumState
    requires
        size > 0 && params.valid() ==> forall|i: usize|
            i < size ==> #[trigger] initial_condition.requires((i,)),
    ensures
        size == 0 ==> outcome == Err::<Ensemble, EnsembleError>(EnsembleError::EmptyEnsemble),
        size > 0 && !params.valid() ==> (outcome matches Err(
            EnsembleError::NonPositiveParameter(which),
        ) && params.first_offender(which)),
        size > 0 && params.valid() ==> (outcome matches Ok(ensemble) && ensemble.wf()
            && ensemble@.len() == size && forall|i: usize|
            i < size ==> initial_condition.ensures((i,), #[trigger] ensemble@[i as int])),
{
    if size == 0 {
        return Err(EnsembleError::EmptyEnsemble);
    }
    if let Some(which) = params.first_invalid() {
        return Err(EnsembleError::NonPositiveParameter(which));
    }
    let mut members: Vec<PendulumState> = Vec::new();
    let mut index: usize = 0;
    while index < size
        invariant
            index <= size,
            members@.len() == index,
            forall|i: usize| i < size ==> #[trigger] initial_condition.requires((i,)),
            forall|i: usize|
                i < index ==> initial_condition.ensures((i,), #[trigger] members@[i as int]),
        decreases size - index,
    {
        members.push(initial_condition(index));
        index += 1;
    }
    Ok(Ensemble { members })
}

/// The current state of the member at `index`.
pub fn state_of(ensemble: &Ensemble, index: usize) -> (state: PendulumState)
    requires
        index < ensemble@.len(),
    ensures
        state == ensemble@[index as int],
{
    ensemble.members[index]
}

/// Advances every member by one tick: member `i` becomes
/// `step(member i, params, dt)`. Each member is stepped exactly once, from its
/// own prior value alone, and the member count does not change.
pub fn advance_all<F>(
    ensemble: &mut Ensemble,
    params: &SimulationParameters,
    dt: u64,
    step: &F,
) where F: Fn(PendulumState, SimulationParameters, u64) -> PendulumState + Sync
    requires
        steppable(old(ensemble)@, *step, *params, dt),
    ensures
        advanced(old(ensemble)@, final(ensemble)@, *step, *params, dt),
        old(ensemble).wf() ==> final(ensemble).wf(),
{
    advance_each_in_parallel(&mut ensemble.members, params, dt, step);
}

/// A stepping rule is deterministic when it relates each input to at most one
/// outcome.
pub open spec fn deterministic<F>(step: F) -> bool where
    F: Fn(PendulumState, SimulationParameters, u64) -> PendulumState,
{
    forall|
        state: PendulumState,
        params: SimulationParameters,
        dt: u64,
        first: PendulumState,
        second: PendulumState,
    |
        #![trigger step.ensures((state, params, dt), first), step.ensures((state, params, dt), second)]
        step.ensures((state, params, dt), first) && step.ensures((state, params, dt), second)
            ==> first == second
}

/// With a deterministic stepping rule, a tick has one outcome: whatever way
/// the work was divided or ordered, two ticks from the same ensemble end in
/// the same ensemble, bit for bit.
pub proof fn lemma_tick_is_deterministic<F>(
    step: F,
    params: SimulationParameters,
    dt: u64,
    before: Seq<PendulumState>,
    first: Seq<PendulumState>,
    second: Seq<PendulumState>,
) where F: Fn(PendulumState, SimulationParameters, u64) -> PendulumState
    requires
        deterministic(step),
        advanced(before, first, step, params, dt),
        advanced(before, second, step, params, dt),
    ensures
        first == second,
{
    assert forall|i: int| 0 <= i < first.len() implies first[i] == second[i] by {
        assert(step.ensures((before[i], params, dt), first[i]));
        assert(step.ensures((before[i], params, dt), second[i]));
    }
    assert(first =~= second);
}

/// A member that is advanced within an ensemble ends as it would have ended
/// alone: the ensemble made of that one member advances to the ensemble made
/// of its successor.
pub proof fn lemma_member_advances_alone<F>(
    step: F,
    params: SimulationParameters,
    dt: u64,
    before: Seq<PendulumState>,
    after: Seq<PendulumState>,
    i: int,
) where F: Fn(PendulumState, SimulationParameters, u64) -> PendulumState
    requires
        advanced(before, after, step, params, dt),
        0 <= i < before.len(),
    ensures
        step.ensures((before[i], params, dt), after[i]),
        advanced(seq![before[i]], seq![after[i]], step, params, dt),
{
    let alone_before = seq![before[i]];
    let alone_after = seq![after[i]];
    assert forall|j: int| 0 <= j < alone_before.len() implies step.ensures(
        (alone_before[j], params, dt),
        #[trigger] alone_after[j],
    ) by {
        assert(alone_before[j] == before[i]);
        assert(alone_after[j] == after[i]);
    }
}

/// With a deterministic stepping rule, the value that a tick gives a member
/// is exactly the value that stepping that member by itself gives, however
/// many other members the ensemble has and whatever they hold.
pub proof fn lemma_members_are_isolated<F>(
    step: F,
    params: SimulationParameters,
    dt: u64,
    before: Seq<PendulumState>,
    after: Seq<PendulumState>,
    i: int,
    alone: PendulumState,
) where F: Fn(PendulumState, SimulationParameters, u64) -> PendulumState
    requires
        deterministic(step),
        advanced(before, after, step, params, dt),
        0 <= i < before.len(),
        step.ensures((before[i], params, dt), alone),
    ensures
        after[i] == alone,
{
    assert(step.ensures((before[i], params, dt), after[i]));
}

/// A tick may be carried out in parts: if two stretches of an ensemble are
/// advanced separately, the results side by side are the whole advanced.
pub proof fn lemma_advanced_in_parts<F>(
    step: F,
    params: SimulationParameters,
    dt: u64,
    left_before: Seq<PendulumState>,
    left_after: Seq<PendulumState>,
    right_before: Seq<PendulumState>,
    right_after: Seq<PendulumState>,
) where F: Fn(PendulumState, SimulationParameters, u64) -> PendulumState
    requires
        advanced(left_before, left_after, step, params, dt),
        advanced(right_before, right_after, step, params, dt),
    ensures
        advanced(left_before + right_before, left_after + right_after, step, params, dt),
{
    let before = left_before + right_before;
    let after = left_after + right_after;
    assert forall|i: int| 0 <= i < before.len() implies step.ensures(
        (before[i], params, dt),
        #[trigger] after[i],
    ) by {
        if i < left_before.len() {
            assert(before[i] == left_before[i]);
            assert(after[i] == left_after[i]);
        } else {
            assert(before[i] == right_before[i - left_before.len()]);
            assert(after[i] == right_after[i - left_before.len()]);
        }
    }
}

} // verus!
