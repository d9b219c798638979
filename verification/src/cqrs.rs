use vstd::prelude::*;
use crate::aggregate::{
    event_values,
    lemma_replay_in_parts,
    replayed,
    replayed_from,
    Aggregate,
    CommandHandler,
    DomainEvent,
};
use crate::event_log::{
    after_append,
    append_accepted,
    is_event_log,
    last_sequence,
    lemma_append_then_load,
    payloads_of,
    stamped,
    stream,
    EventLog,
};
use crate::event_store::{envelope_views, metadata_view, EventStore};
use crate::query::{DispatchError, Query};

verus! {

/// Why a command was not carried out.
#[derive(Debug, PartialEq)]
pub enum AggregateError<T> {
    /// The aggregate turned the command down; nothing was committed.
    UserError(T),
    /// Another writer committed for the aggregate after its history was
    /// read; nothing was committed. The caller may read again and retry.
    AggregateConflict,
    /// The store could not take the events; nothing was committed.
    UnexpectedError(String),
}

/// An aggregate as one reading of its history left it: the state, and the
/// sequence number of the last event that went into it.
pub struct AggregateContext<A: Aggregate> {
    pub aggregate_id: String,
    pub aggregate: A,
    pub current_sequence: usize,
}

/// The state follows the log: after an accepted append for an aggregate,
/// replaying the aggregate's stream gives the state before the append with
/// the new events applied, and the state of every other aggregate is as
/// before.
pub proof fn lemma_state_after_commit<A: Aggregate>(
    log: EventLog<<A::Event as View>::V>,
    id: Seq<char>,
    expected: nat,
    payloads: Seq<<A::Event as View>::V>,
    metadata: Seq<(Seq<char>, Seq<char>)>,
    other: Seq<char>,
)
    requires
        append_accepted(log, id, expected),
    ensures
        replayed::<A>(payloads_of(stream(after_append(log, id, expected, payloads, metadata), id)))
            == replayed_from::<A>(replayed::<A>(payloads_of(stream(log, id))), payloads),
        other != id ==> replayed::<A>(
            payloads_of(stream(after_append(log, id, expected, payloads, metadata), other)),
        ) == replayed::<A>(payloads_of(stream(log, other))),
{
    let committed = stamped(id, expected, payloads, metadata);
    lemma_append_then_load(log, id, expected, payloads, metadata, other);
    assert(payloads_of(stream(log, id) + committed) =~= payloads_of(stream(log, id)) + payloads);
    lemma_replay_in_parts::<A>(A::initial(), payloads_of(stream(log, id)), payloads);
}

/// Carries out commands for aggregates of kind `A`, which consult services
/// of kind `S`: it reads the aggregate's
/// history from its event store, lets the aggregate decide, commits the
/// events it answers with, and hands the committed envelopes to the
/// subscribers `Q`. Where the subscribers fail to take a batch, the
/// framework notes the failure and goes on: the events are committed all the
/// same.
pub struct CqrsFramework<A: Aggregate, S, Q: Query<A::Event>> {
    store: EventStore<A::Event>,
    queries: Q,
    service: S,
    failures: Vec<DispatchError>,
}

impl<S, A: CommandHandler<S>, Q: Query<A::Event>> CqrsFramework<A, S, Q> {
    /// The event log of the framework's store.
    pub closed spec fn log(self) -> EventLog<<A::Event as View>::V> {
        self.store@
    }

    /// The framework's subscribers.
    pub closed spec fn subscribers(self) -> Q {
        self.queries
    }

    /// The services that the framework hands to its aggregates.
    pub closed spec fn services(self) -> S {
        self.service
    }

    /// The failures of subscribers noted so far, oldest first.
    pub closed spec fn noted_failures(self) -> Seq<DispatchError> {
        self.failures@
    }

    /// The state that the log holds for aggregate `id`: its stream,
    /// replayed.
    pub open spec fn state_of(self, id: Seq<char>) -> A::V {
        replayed::<A>(payloads_of(stream(self.log(), id)))
    }

    /// True if `after` holds the log and the subscribers of `self`: nothing
    /// was committed and no subscriber was handed anything.
    pub open spec fn untouched(self, after: Self) -> bool {
        &&& after.log() == self.log()
        &&& after.subscribers() == self.subscribers()
        &&& after.services() == self.services()
        &&& after.noted_failures() == self.noted_failures()
    }

    /// What carrying out a command comes to, for a writer that read
    /// `expected` as the last sequence number of aggregate `id` and whose
    /// aggregate answered `outcome`.
    ///
    /// A command that the aggregate turns down is answered with its error,
    /// and nothing changes. Events that the log has no room for, or that
    /// arrive after another writer's, are answered with an error, and nothing
    /// changes. Otherwise the events are committed with the sequence numbers
    /// after `expected`, the answer is success, and the subscribers are
    /// handed exactly the committed envelopes, once; if they did not take
    /// them (`taken`), the failure is noted and does not show in the answer.
    /// Where the aggregate answers with no event at all, no subscriber is
    /// called.
    pub open spec fn carried_out(
        self,
        after: Self,
        id: Seq<char>,
        expected: nat,
        outcome: Result<Vec<A::Event>, A::Error>,
        metadata: Seq<(Seq<char>, Seq<char>)>,
        taken: bool,
        answer: Result<(), AggregateError<A::Error>>,
    ) -> bool {
        match outcome {
            Err(error) => answer == Err::<(), AggregateError<A::Error>>(
                AggregateError::UserError(error),
            ) && self.untouched(after),
            Ok(events) => {
                let committed = stamped(id, expected, event_values(events@), metadata);
                if self.log().len() + events@.len() > usize::MAX {
                    &&& answer matches Err(AggregateError::UnexpectedError(_))
                    &&& self.untouched(after)
                } else if !append_accepted(self.log(), id, expected) {
                    &&& answer matches Err(AggregateError::AggregateConflict)
                    &&& self.untouched(after)
                } else {
                    &&& answer is Ok
                    &&& after.services() == self.services()
                    &&& after.log() == self.log() + committed
                    &&& if events@.len() == 0 {
                        &&& after.subscribers() == self.subscribers()
                        &&& after.noted_failures() == self.noted_failures()
                    } else {
                        &&& Q::delivered(
                            self.subscribers(),
                            after.subscribers(),
                            id,
                            committed,
                            taken,
                        )
                        &&& if taken {
                            after.noted_failures() == self.noted_failures()
                        } else {
                            exists|failure: DispatchError|
                                after.noted_failures() == self.noted_failures().push(failure)
                        }
                    }
                }
            },
        }
    }

    /// A framework over `store`, with the subscribers `queries` and the
    /// services `service` for the aggregates to consult.
    pub fn new(store: EventStore<A::Event>, queries: Q, service: S) -> (framework: Self)
        ensures
            framework.log() == store@,
            framework.subscribers() == queries,
            framework.services() == service,
            framework.noted_failures() == Seq::<DispatchError>::empty(),
    {
        CqrsFramework { store, queries, service, failures: Vec::new() }
    }

    /// The framework's subscribers, for reading.
    pub fn queries(&self) -> (queries: &Q)
        ensures
            *queries == self.subscribers(),
    {
        &self.queries
    }

    /// The failures of subscribers noted so far, oldest first.
    pub fn failures(&self) -> (failures: &Vec<DispatchError>)
        ensures
            failures@ == self.noted_failures(),
    {
        &self.failures
    }

    /// The framework's event store, for reading.
    pub fn store(&self) -> (store: &EventStore<A::Event>)
        ensures
            store@ == self.log(),
    {
        &self.store
    }

    /// Notes what the subscribers made of a batch: a failure is added to the
    /// noted failures, a success leaves no trace. Nothing else changes.
    pub fn note_dispatch(&mut self, taken: Result<(), DispatchError>)
        ensures
            final(self).log() == old(self).log(),
            final(self).subscribers() == old(self).subscribers(),
            final(self).services() == old(self).services(),
            match taken {
                Ok(()) => final(self).noted_failures() == old(self).noted_failures(),
                Err(failure) => final(self).noted_failures() == old(self).noted_failures().push(
                    failure,
                ),
            },
    {
        match taken {
            Ok(()) => {},
            Err(failure) => {
                self.failures.push(failure);
            },
        }
    }

    /// Reads the history of `aggregate_id` and replays it.
    pub fn load_aggregate(&self, aggregate_id: &str) -> (context: AggregateContext<A>)
        ensures
            context.aggregate_id@ == aggregate_id@,
            context.aggregate@ == self.state_of(aggregate_id@),
            context.current_sequence == last_sequence(self.log(), aggregate_id@),
    {
        let envelopes = self.store.load(aggregate_id);
        let ghost values = payloads_of(envelope_views(envelopes@));
        let mut aggregate = A::fresh();
        let mut done: usize = 0;
        while done < envelopes.len()
            invariant
                done <= envelopes.len(),
                values == payloads_of(envelope_views(envelopes@)),
                aggregate@ == replayed::<A>(values.take(done as int)),
            decreases envelopes.len() - done,
        {
            let event = envelopes[done].payload.duplicate();
            assert(values.take(done + 1).drop_last() =~= values.take(done as int));
            assert(values.take(done + 1).last() == envelopes@[done as int].payload@);
            aggregate.apply(event);
            done += 1;
        }
        assert(values.take(done as int) =~= values);
        AggregateContext {
            aggregate_id: aggregate_id.to_owned(),
            aggregate,
            current_sequence: envelopes.len(),
        }
    }

    /// Carries out `command` for the aggregate as `context` holds it: the
    /// aggregate decides on the state in `context`, and its events are
    /// committed only if `context` is still up to date.
    pub fn execute_in_context(
        &mut self,
        context: AggregateContext<A>,
        command: A::Command,
        metadata: Vec<(String, String)>,
    ) -> (answer: Result<(), AggregateError<A::Error>>)
        requires
            is_event_log(old(self).log()),
            A::in_range(context.aggregate@, command),
        ensures
            is_event_log(final(self).log()),
            exists|outcome: Result<Vec<A::Event>, A::Error>, taken: bool|
                {
                    &&& A::decides(context.aggregate@, command, old(self).services(), outcome)
                    &&& #[trigger] old(self).carried_out(
                        *final(self),
                        context.aggregate_id@,
                        context.current_sequence as nat,
                        outcome,
                        metadata_view(metadata@),
                        taken,
                        answer,
                    )
                },
    {
        let outcome = context.aggregate.handle(command, &self.service);
        let ghost decided = outcome;
        let ghost id = context.aggregate_id@;
        let ghost expected = context.current_sequence as nat;
        let ghost labels = metadata_view(metadata@);
        match outcome {
            Err(error) => {
                let answer = Err(AggregateError::UserError(error));
                assert(old(self).carried_out(*self, id, expected, decided, labels, true, answer));
                answer
            },
            Ok(events) => {
                if events.len() > usize::MAX - self.store.len() {
                    let answer = Err(
                        AggregateError::UnexpectedError("the event log is full".to_owned()),
                    );
                    assert(old(self).carried_out(*self, id, expected, decided, labels, true, answer));
                    return answer;
                }
                let count = events.len();
                match self.store.append(
                    context.aggregate_id.as_str(),
                    context.current_sequence,
                    events,
                    metadata,
                ) {
                    Err(_) => {
                        let answer = Err(AggregateError::AggregateConflict);
                        assert(old(self).carried_out(
                            *self,
                            id,
                            expected,
                            decided,
                            labels,
                            true,
                            answer,
                        ));
                        answer
                    },
                    Ok(committed) => {
                        let answer = Ok(());
                        if count > 0 {
                            let taken = self.queries.dispatch(
                                context.aggregate_id.as_str(),
                                &committed,
                            );
                            let ghost handed = *self;
                            assert(Q::delivered(
                                old(self).subscribers(),
                                handed.subscribers(),
                                id,
                                envelope_views(committed@),
                                taken is Ok,
                            ));
                            assert(handed.noted_failures() == old(self).noted_failures());
                            self.note_dispatch(taken);
                            assert(self.subscribers() == handed.subscribers());
                            assert(self.log() == handed.log());
                            assert(taken matches Err(failure) ==> self.noted_failures()
                                == handed.noted_failures().push(failure));
                            assert(old(self).carried_out(
                                *self,
                                id,
                                expected,
                                decided,
                                labels,
                                taken is Ok,
                                answer,
                            ));
                        } else {
                            assert(old(self).carried_out(
                                *self,
                                id,
                                expected,
                                decided,
                                labels,
                                true,
                                answer,
                            ));
                        }
                        answer
                    },
                }
            },
        }
    }

    /// Carries out `command` for `aggregate_id`: reads and replays the
    /// aggregate's history, lets the aggregate decide on that state, commits
    /// its events after the last sequence number just read, and hands the
    /// committed envelopes to the subscribers. Nothing else can commit in
    /// between, so the answer is never a conflict. The events carry
    /// `metadata`.
    pub fn execute_with_metadata(
        &mut self,
        aggregate_id: &str,
        command: A::Command,
        metadata: Vec<(String, String)>,
    ) -> (answer: Result<(), AggregateError<A::Error>>)
        requires
            is_event_log(old(self).log()),
            A::in_range(old(self).state_of(aggregate_id@), command),
        ensures
            is_event_log(final(self).log()),
            !(answer matches Err(AggregateError::AggregateConflict)),
            exists|outcome: Result<Vec<A::Event>, A::Error>, taken: bool|
                {
                    &&& A::decides(
                        old(self).state_of(aggregate_id@),
                        command,
                        old(self).services(),
                        outcome,
                    )
                    &&& #[trigger] old(self).carried_out(
                        *final(self),
                        aggregate_id@,
                        last_sequence(old(self).log(), aggregate_id@),
                        outcome,
                        metadata_view(metadata@),
                        taken,
                        answer,
                    )
                },
    {
        let context = self.load_aggregate(aggregate_id);
        self.execute_in_context(context, command, metadata)
    }

    /// Carries out `command` for `aggregate_id` as `execute_with_metadata`
    /// does, with no metadata.
    pub fn execute(&mut self, aggregate_id: &str, command: A::Command) -> (answer: Result<
        (),
        AggregateError<A::Error>,
    >)
        requires
            is_event_log(old(self).log()),
            A::in_range(old(self).state_of(aggregate_id@), command),
        ensures
            is_event_log(final(self).log()),
            !(answer matches Err(AggregateError::AggregateConflict)),
            exists|outcome: Result<Vec<A::Event>, A::Error>, taken: bool|
                {
                    &&& A::decides(
                        old(self).state_of(aggregate_id@),
                        command,
                        old(self).services(),
                        outcome,
                    )
                    &&& #[trigger] old(self).carried_out(
                        *final(self),
                        aggregate_id@,
                        last_sequence(old(self).log(), aggregate_id@),
                        outcome,
                        Seq::empty(),
                        taken,
                        answer,
                    )
                },
    {
        let metadata: Vec<(String, String)> = Vec::new();
        assert(metadata_view(metadata@) =~= Seq::empty());
        self.execute_with_metadata(aggregate_id, command, metadata)
    }
}

/// Two writers that read the same last sequence number of one aggregate:
/// once the command of the first has been carried out with at least one
/// event, the command of the second is not carried out. Where the second
/// aggregate answered with events and the log has room for them, the answer
/// is a conflict. Either way the second leaves the log, the subscribers and
/// the noted failures as the first left them.
pub proof fn lemma_stale_writer_is_refused<S, A: CommandHandler<S>, Q: Query<A::Event>>(
    before: CqrsFramework<A, S, Q>,
    between: CqrsFramework<A, S, Q>,
    after: CqrsFramework<A, S, Q>,
    id: Seq<char>,
    expected: nat,
    first_events: Vec<A::Event>,
    first_metadata: Seq<(Seq<char>, Seq<char>)>,
    first_taken: bool,
    second_outcome: Result<Vec<A::Event>, A::Error>,
    second_metadata: Seq<(Seq<char>, Seq<char>)>,
    second_taken: bool,
    second_answer: Result<(), AggregateError<A::Error>>,
)
    requires
        first_events@.len() > 0,
        before.carried_out(
            between,
            id,
            expected,
            Ok(first_events),
            first_metadata,
            first_taken,
            Ok(()),
        ),
        between.carried_out(
            after,
            id,
            expected,
            second_outcome,
            second_metadata,
            second_taken,
            second_answer,
        ),
    ensures
        second_answer is Err,
        between.untouched(after),
        second_outcome matches Ok(events) && between.log().len() + events@.len() <= usize::MAX
            ==> second_answer matches Err(AggregateError::AggregateConflict),
{
    lemma_append_then_load(
        before.log(),
        id,
        expected,
        event_values(first_events@),
        first_metadata,
        id,
    );
}

} // verus!
