use vstd::prelude::*;
use crate::aggregate::DomainEvent;
use crate::event_log::{
    after_append,
    append_accepted,
    lemma_append_then_load,
    stamped,
    stream,
    EventLog,
};
use crate::event_store::{envelope_views, EventEnvelope};
use crate::projection::{lemma_projection_in_parts, project, projected, projected_from, Projection};
use crate::view_repository::ViewRepository;

verus! {

/// A subscriber could not take a batch of events. The events are committed
/// all the same.
#[derive(Debug, PartialEq)]
pub struct DispatchError {
    pub message: String,
}

/// A subscriber to committed events. After each successful commit it is
/// handed the envelopes just committed for one aggregate, in commit order.
pub trait Query<E: DomainEvent>: Sized {
    /// True if taking `events` of aggregate `aggregate_id` may lead the
    /// subscriber from `before` to `after`, with success if `taken`.
    spec fn delivered(
        before: Self,
        after: Self,
        aggregate_id: Seq<char>,
        events: EventLog<E::V>,
        taken: bool,
    ) -> bool;

    fn dispatch(&mut self, aggregate_id: &str, events: &Vec<EventEnvelope<E>>) -> (outcome: Result<
        (),
        DispatchError,
    >)
        ensures
            Self::delivered(
                *old(self),
                *final(self),
                aggregate_id@,
                envelope_views(events@),
                outcome is Ok,
            ),
    ;
}

/// No subscriber at all: nothing is done with the events, and that always
/// succeeds.
impl<E: DomainEvent> Query<E> for () {
    open spec fn delivered(
        before: Self,
        after: Self,
        aggregate_id: Seq<char>,
        events: EventLog<E::V>,
        taken: bool,
    ) -> bool {
        taken
    }

    fn dispatch(&mut self, aggregate_id: &str, events: &Vec<EventEnvelope<E>>) -> (outcome: Result<
        (),
        DispatchError,
    >) {
        Ok(())
    }
}

/// Two subscribers in a row. Both are handed every batch, the first before
/// the second, and the second also where the first fails. The pair succeeds
/// if both do.
impl<E: DomainEvent, First: Query<E>, Second: Query<E>> Query<E> for (First, Second) {
    open spec fn delivered(
        before: Self,
        after: Self,
        aggregate_id: Seq<char>,
        events: EventLog<E::V>,
        taken: bool,
    ) -> bool {
        exists|first_taken: bool, second_taken: bool|
            {
                &&& First::delivered(before.0, after.0, aggregate_id, events, first_taken)
                &&& Second::delivered(before.1, after.1, aggregate_id, events, second_taken)
                &&& taken == (first_taken && second_taken)
            }
    }

    fn dispatch(&mut self, aggregate_id: &str, events: &Vec<EventEnvelope<E>>) -> (outcome: Result<
        (),
        DispatchError,
    >) {
        let first = self.0.dispatch(aggregate_id, events);
        let second = self.1.dispatch(aggregate_id, events);
        let outcome = match first {
            Ok(()) => second,
            Err(error) => Err(error),
        };
        assert(First::delivered(
            old(self).0,
            self.0,
            aggregate_id@,
            envelope_views(events@),
            first is Ok,
        ));
        assert(Second::delivered(
            old(self).1,
            self.1,
            aggregate_id@,
            envelope_views(events@),
            second is Ok,
        ));
        outcome
    }
}

/// The read model stored under `id`, or the empty one.
pub open spec fn model_or_empty<E: DomainEvent, V: Projection<E>>(
    models: Map<Seq<char>, V::V>,
    id: Seq<char>,
) -> V::V {
    if models.contains_key(id) {
        models[id]
    } else {
        V::empty()
    }
}

/// The read models after the projector has taken `events` of aggregate `id`:
/// the aggregate's read model, or the empty one if none is stored, with the
/// events folded in; the others as before.
pub open spec fn projected_models<E: DomainEvent, V: Projection<E>>(
    models: Map<Seq<char>, V::V>,
    id: Seq<char>,
    events: EventLog<E::V>,
) -> Map<Seq<char>, V::V> {
    models.insert(id, projected_from::<E, V>(model_or_empty::<E, V>(models, id), events))
}

/// The projector keeps up with the log: if the read model stored for an
/// aggregate is what folding the aggregate's whole stream gives, then after
/// an accepted append and the delivery of the committed envelopes it is that
/// again, for the longer stream. A read model is thus a cache of the log,
/// and can always be had again by folding the stream from the start.
pub proof fn lemma_read_model_follows_log<E: DomainEvent, V: Projection<E>>(
    log: EventLog<E::V>,
    models: Map<Seq<char>, V::V>,
    id: Seq<char>,
    expected: nat,
    payloads: Seq<E::V>,
    metadata: Seq<(Seq<char>, Seq<char>)>,
)
    requires
        append_accepted(log, id, expected),
        model_or_empty::<E, V>(models, id) == projected::<E, V>(stream(log, id)),
    ensures
        model_or_empty::<E, V>(
            projected_models::<E, V>(models, id, stamped(id, expected, payloads, metadata)),
            id,
        ) == projected::<E, V>(stream(after_append(log, id, expected, payloads, metadata), id)),
{
    let committed = stamped(id, expected, payloads, metadata);
    lemma_append_then_load(log, id, expected, payloads, metadata, id);
    lemma_projection_in_parts::<E, V>(V::empty(), stream(log, id), committed);
}

/// The view projector: a subscriber that keeps one read model per aggregate
/// in a repository. Its view is the repository's: the stored read models by
/// aggregate id.
pub struct GenericQuery<V> {
    view_repository: ViewRepository<V>,
}

impl<V: View> View for GenericQuery<V> {
    type V = Map<Seq<char>, V::V>;

    closed spec fn view(&self) -> Map<Seq<char>, V::V> {
        self.view_repository@
    }
}

impl<V: View> GenericQuery<V> {
    /// A projector over `view_repository`.
    pub fn new(view_repository: ViewRepository<V>) -> (query: Self)
        ensures
            query@ == view_repository@,
    {
        GenericQuery { view_repository }
    }

    /// The read model stored for `view_id`, if there is one. The event log
    /// is not consulted.
    pub fn load(&self, view_id: &str) -> (found: Option<&V>)
        ensures
            match found {
                Some(model) => self@.contains_key(view_id@) && self@[view_id@] == model@,
                None => !self@.contains_key(view_id@),
            },
    {
        self.view_repository.load(view_id)
    }
}

impl<E: DomainEvent, V: Projection<E>> Query<E> for GenericQuery<V> {
    /// The projector always succeeds, and stores the read model with the
    /// events folded in.
    open spec fn delivered(
        before: Self,
        after: Self,
        aggregate_id: Seq<char>,
        events: EventLog<E::V>,
        taken: bool,
    ) -> bool {
        taken && after@ == projected_models::<E, V>(before@, aggregate_id, events)
    }

    fn dispatch(&mut self, aggregate_id: &str, events: &Vec<EventEnvelope<E>>) -> (outcome: Result<
        (),
        DispatchError,
    >) {
        let mut model = match self.view_repository.load(aggregate_id) {
            Some(stored) => stored.duplicate(),
            None => V::blank(),
        };
        project(&mut model, events);
        self.view_repository.update_view(aggregate_id, model);
        Ok(())
    }
}

} // verus!
