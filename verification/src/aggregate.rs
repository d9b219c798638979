use vstd::prelude::*;

verus! {

/// An event: an immutable fact that an aggregate records and folds into its
/// state.
pub trait DomainEvent: Sized + View {
    /// The name under which an event of this value is recorded.
    spec fn kind_name(value: Self::V) -> Seq<char>;

    /// The version of the layout in which an event of this value is recorded.
    spec fn version_name(value: Self::V) -> Seq<char>;

    fn event_type(&self) -> (name: String)
        ensures
            name@ == Self::kind_name(self@),
    ;

    fn event_version(&self) -> (version: String)
        ensures
            version@ == Self::version_name(self@),
    ;

    /// A second copy of this event, equal to it.
    fn duplicate(&self) -> (copy: Self)
        ensures
            copy == *self,
    ;
}

/// An aggregate: a state that is derived only from its events. The view of
/// an aggregate is its state as a mathematical value, and only `apply`
/// changes it.
///
/// The rule that turns a command into new events, or turns it down, is the
/// aggregate's [`CommandHandler`]: it is chosen together with the kind of
/// services that the aggregate consults.
pub trait Aggregate: Sized + View {
    type Command;

    type Event: DomainEvent;

    type Error;

    /// The state before the first event.
    spec fn initial() -> Self::V;

    /// The state that follows `state` once an event of value `event` is
    /// applied. It is defined for every state and every event.
    spec fn applied(state: Self::V, event: <Self::Event as View>::V) -> Self::V;

    /// True if every number that the command handler computes for `command`
    /// in `state` fits the machine's integers.
    spec fn in_range(state: Self::V, command: Self::Command) -> bool;

    /// The name of this kind of aggregate.
    fn aggregate_type() -> String;

    /// An aggregate without history.
    fn fresh() -> (aggregate: Self)
        ensures
            aggregate@ == Self::initial(),
    ;

    /// True if the aggregate's command handler may be called with `command`.
    fn accepts(&self, command: &Self::Command) -> (ok: bool)
        ensures
            ok == Self::in_range(self@, *command),
    ;

    /// Folds `event` into the state.
    fn apply(&mut self, event: Self::Event)
        ensures
            final(self)@ == Self::applied(old(self)@, event@),
    ;
}

/// The rule by which an aggregate decides on commands, with services of the
/// kind `S` to consult. The kind of services is fixed where the aggregate is
/// put to use, so what is known of the services is known of the decisions.
/// `handle` never changes the state.
pub trait CommandHandler<S>: Aggregate {
    /// True if `outcome` is an answer that `handle` may give to `command` in
    /// `state` with the services `services`. Where no service is consulted
    /// exactly one outcome qualifies; otherwise one for each answer that the
    /// service may give to what it is asked.
    spec fn decides(
        state: Self::V,
        command: Self::Command,
        services: S,
        outcome: Result<Vec<Self::Event>, Self::Error>,
    ) -> bool;

    /// Decides on `command`: the events to record, or the reason for turning
    /// it down. The state stays as it is.
    fn handle(&self, command: Self::Command, services: &S) -> (outcome: Result<
        Vec<Self::Event>,
        Self::Error,
    >)
        requires
            Self::in_range(self@, command),
        ensures
            Self::decides(self@, command, *services, outcome),
    ;
}

/// The values of `events`, in the same order.
pub open spec fn event_values<E: DomainEvent>(events: Seq<E>) -> Seq<E::V> {
    events.map_values(|event: E| event@)
}

/// The state that `history` leads to from `state`: its events applied first
/// to last. It depends on nothing but `state` and `history`, so replaying one
/// history always gives one state.
pub open spec fn replayed_from<A: Aggregate>(
    state: A::V,
    history: Seq<<A::Event as View>::V>,
) -> A::V
    decreases history.len(),
{
    if history.len() == 0 {
        state
    } else {
        A::applied(replayed_from::<A>(state, history.drop_last()), history.last())
    }
}

/// The state of an aggregate whose whole history is `history`.
pub open spec fn replayed<A: Aggregate>(history: Seq<<A::Event as View>::V>) -> A::V {
    replayed_from::<A>(A::initial(), history)
}

/// Replaying a history in two parts gives the state that replaying it in one
/// piece gives: a state reached so far and the events since then stand for
/// the whole history.
pub proof fn lemma_replay_in_parts<A: Aggregate>(
    state: A::V,
    earlier: Seq<<A::Event as View>::V>,
    later: Seq<<A::Event as View>::V>,
)
    ensures
        replayed_from::<A>(state, earlier + later) == replayed_from::<A>(
            replayed_from::<A>(state, earlier),
            later,
        ),
    decreases later.len(),
{
    if later.len() == 0 {
        assert(earlier + later =~= earlier);
    } else {
        lemma_replay_in_parts::<A>(state, earlier, later.drop_last());
        assert((earlier + later).drop_last() =~= earlier + later.drop_last());
        assert((earlier + later).last() == later.last());
    }
}

/// Replaying the same history twice gives the same state: two histories of
/// equal events lead from equal states to equal states.
pub proof fn lemma_replay_is_deterministic<A: Aggregate>(
    first_state: A::V,
    first: Seq<<A::Event as View>::V>,
    second_state: A::V,
    second: Seq<<A::Event as View>::V>,
)
    requires
        first_state == second_state,
        first == second,
    ensures
        replayed_from::<A>(first_state, first) == replayed_from::<A>(second_state, second),
{
}

/// Replays `history` from the state without history.
pub fn replay<A: Aggregate>(history: &Vec<A::Event>) -> (aggregate: A)
    ensures
        aggregate@ == replayed::<A>(event_values(history@)),
{
    let ghost values = event_values(history@);
    let mut aggregate = A::fresh();
    let mut done: usize = 0;
    while done < history.len()
        invariant
            done <= history.len(),
            values == event_values(history@),
            aggregate@ == replayed::<A>(values.take(done as int)),
        decreases history.len() - done,
    {
        let event = history[done].duplicate();
        assert(values.take(done + 1).drop_last() =~= values.take(done as int));
        assert(values.take(done + 1).last() == history@[done as int]@);
        aggregate.apply(event);
        done += 1;
    }
    assert(values.take(done as int) =~= values);
    aggregate
}

} // verus!
