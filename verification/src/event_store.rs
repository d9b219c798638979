use vstd::prelude::*;
use crate::aggregate::{event_values, DomainEvent};
use crate::event_log::{
    after_append,
    append_accepted,
    is_event_log,
    last_sequence,
    lemma_append_keeps_event_log,
    stamped,
    stream,
    EnvelopeView,
    EventLog,
};

verus! {

/// A committed event with its place in the log: the aggregate it belongs to,
/// its sequence number within that aggregate (the first is 1), and the
/// metadata of the request that caused it.
#[derive(Debug)]
pub struct EventEnvelope<E> {
    pub aggregate_id: String,
    pub sequence: usize,
    pub payload: E,
    pub metadata: Vec<(String, String)>,
}

/// The value of a list of metadata entries: its keys and values as texts.
pub open spec fn metadata_view(metadata: Seq<(String, String)>) -> Seq<(Seq<char>, Seq<char>)> {
    metadata.map_values(|entry: (String, String)| (entry.0@, entry.1@))
}

impl<E: DomainEvent> View for EventEnvelope<E> {
    type V = EnvelopeView<E::V>;

    open spec fn view(&self) -> EnvelopeView<E::V> {
        EnvelopeView {
            aggregate_id: self.aggregate_id@,
            sequence: self.sequence as nat,
            payload: self.payload@,
            metadata: metadata_view(self.metadata@),
        }
    }
}

/// The values of `envelopes`, in the same order.
pub open spec fn envelope_views<E: DomainEvent>(envelopes: Seq<EventEnvelope<E>>) -> EventLog<
    E::V,
> {
    envelopes.map_values(|envelope: EventEnvelope<E>| envelope@)
}

/// A second list with the same entries as `metadata`.
pub fn copy_metadata(metadata: &Vec<(String, String)>) -> (copy: Vec<(String, String)>)
    ensures
        metadata_view(copy@) == metadata_view(metadata@),
{
    let mut copy: Vec<(String, String)> = Vec::new();
    let mut done: usize = 0;
    while done < metadata.len()
        invariant
            done <= metadata.len(),
            copy@ == metadata@.take(done as int),
        decreases metadata.len() - done,
    {
        let entry = &metadata[done];
        copy.push((entry.0.clone(), entry.1.clone()));
        assert(copy@ =~= metadata@.take(done + 1));
        done += 1;
    }
    assert(metadata@.take(done as int) =~= metadata@);
    copy
}

impl<E: DomainEvent> EventEnvelope<E> {
    /// The name under which the envelope's event is recorded.
    pub fn event_type(&self) -> (name: String)
        ensures
            name@ == E::kind_name(self@.payload),
    {
        self.payload.event_type()
    }

    /// The version of the layout in which the envelope's event is recorded.
    pub fn event_version(&self) -> (version: String)
        ensures
            version@ == E::version_name(self@.payload),
    {
        self.payload.event_version()
    }

    /// A second envelope of the same value.
    pub fn duplicate(&self) -> (copy: Self)
        ensures
            copy@ == self@,
    {
        EventEnvelope {
            aggregate_id: self.aggregate_id.clone(),
            sequence: self.sequence,
            payload: self.payload.duplicate(),
            metadata: copy_metadata(&self.metadata),
        }
    }
}

/// An append was refused: the aggregate's last sequence number is `actual`,
/// not the `expected` one that the writer had read.
#[derive(Debug, PartialEq, Eq, Clone, Copy)]
pub struct ConcurrencyError {
    pub expected: usize,
    pub actual: usize,
}

/// An append-only store of the events of all aggregates, held in memory. Its
/// view is the event log: all committed envelopes in commit order.
///
/// A new store holds an event log (`is_event_log`), and `append` keeps it
/// one: within each aggregate the sequence numbers run 1, 2, 3, ... without
/// a gap.
pub struct EventStore<E: DomainEvent> {
    log: Vec<EventEnvelope<E>>,
}

impl<E: DomainEvent> View for EventStore<E> {
    type V = EventLog<E::V>;

    closed spec fn view(&self) -> EventLog<E::V> {
        envelope_views(self.log@)
    }
}

impl<E: DomainEvent> EventStore<E> {
    /// A store without events.
    pub fn new() -> (store: Self)
        ensures
            store@ == Seq::<EnvelopeView<E::V>>::empty(),
            is_event_log(store@),
    {
        let store = EventStore { log: Vec::new() };
        assert(store@ =~= Seq::<EnvelopeView<E::V>>::empty());
        store
    }

    /// The number of envelopes in the log.
    pub fn len(&self) -> (count: usize)
        ensures
            count == self@.len(),
    {
        self.log.len()
    }

    /// The sequence number of the last event committed for `aggregate_id`, 0
    /// if there is none.
    pub fn last_sequence(&self, aggregate_id: &str) -> (last: usize)
        ensures
            last == last_sequence(self@, aggregate_id@),
    {
        let id = aggregate_id.to_owned();
        let mut last: usize = 0;
        let mut seen: usize = 0;
        while seen < self.log.len()
            invariant
                seen <= self.log.len(),
                id@ == aggregate_id@,
                last == last_sequence(self@.take(seen as int), aggregate_id@),
                last <= seen,
            decreases self.log.len() - seen,
        {
            assert(self@.take(seen + 1).drop_last() =~= self@.take(seen as int));
            assert(self@.take(seen + 1).last() == self.log@[seen as int]@);
            if self.log[seen].aggregate_id == id {
                last += 1;
            }
            seen += 1;
        }
        assert(self@.take(seen as int) =~= self@);
        last
    }

    /// All committed envelopes of `aggregate_id`, in ascending sequence
    /// order; none if the aggregate has no history.
    pub fn load(&self, aggregate_id: &str) -> (envelopes: Vec<EventEnvelope<E>>)
        ensures
            envelope_views(envelopes@) == stream(self@, aggregate_id@),
    {
        let id = aggregate_id.to_owned();
        let mut envelopes: Vec<EventEnvelope<E>> = Vec::new();
        let mut seen: usize = 0;
        assert(envelope_views(envelopes@) =~= stream(self@.take(0), aggregate_id@));
        while seen < self.log.len()
            invariant
                seen <= self.log.len(),
                id@ == aggregate_id@,
                envelope_views(envelopes@) == stream(self@.take(seen as int), aggregate_id@),
            decreases self.log.len() - seen,
        {
            assert(self@.take(seen + 1).drop_last() =~= self@.take(seen as int));
            assert(self@.take(seen + 1).last() == self.log@[seen as int]@);
            if self.log[seen].aggregate_id == id {
                let ghost before = envelopes@;
                let copy = self.log[seen].duplicate();
                envelopes.push(copy);
                assert(envelope_views(envelopes@) =~= envelope_views(before).push(copy@));
            }
            seen += 1;
        }
        assert(self@.take(seen as int) =~= self@);
        envelopes
    }

    /// Commits `new_events` for `aggregate_id` on behalf of a writer that
    /// read `expected_last_sequence` as the aggregate's last sequence number.
    ///
    /// If that still is the last sequence number, the events are stamped with
    /// the following numbers and `metadata`, added to the log in the order
    /// given, and returned as committed. If another writer has committed for
    /// the aggregate since, the append is refused and the log stays as it
    /// was.
    pub fn append(
        &mut self,
        aggregate_id: &str,
        expected_last_sequence: usize,
        new_events: Vec<E>,
        metadata: Vec<(String, String)>,
    ) -> (outcome: Result<Vec<EventEnvelope<E>>, ConcurrencyError>)
        requires
            is_event_log(old(self)@),
            old(self)@.len() + new_events.len() <= usize::MAX,
        ensures
            final(self)@ == after_append(
                old(self)@,
                aggregate_id@,
                expected_last_sequence as nat,
                event_values(new_events@),
                metadata_view(metadata@),
            ),
            is_event_log(final(self)@),
            match outcome {
                Ok(committed) => {
                    &&& append_accepted(old(self)@, aggregate_id@, expected_last_sequence as nat)
                    &&& envelope_views(committed@) == stamped(
                        aggregate_id@,
                        expected_last_sequence as nat,
                        event_values(new_events@),
                        metadata_view(metadata@),
                    )
                },
                Err(conflict) => {
                    &&& !append_accepted(old(self)@, aggregate_id@, expected_last_sequence as nat)
                    &&& conflict.expected == expected_last_sequence
                    &&& conflict.actual == last_sequence(old(self)@, aggregate_id@)
                },
            },
    {
        let actual = self.last_sequence(aggregate_id);
        if actual != expected_last_sequence {
            return Err(ConcurrencyError { expected: expected_last_sequence, actual });
        }
        let ghost before = self@;
        let ghost id = aggregate_id@;
        let ghost payloads = event_values(new_events@);
        let ghost labels = metadata_view(metadata@);
        proof {
            assert(stream(before, id).len() <= before.len()) by {
                lemma_stream_is_no_longer(before, id);
            }
        }
        let mut committed: Vec<EventEnvelope<E>> = Vec::new();
        let mut done: usize = 0;
        assert(self@ =~= before + stamped(id, actual as nat, payloads.take(0), labels));
        assert(envelope_views(committed@) =~= stamped(id, actual as nat, payloads.take(0), labels));
        while done < new_events.len()
            invariant
                done <= new_events.len(),
                id == aggregate_id@,
                payloads == event_values(new_events@),
                labels == metadata_view(metadata@),
                is_event_log(before),
                actual == last_sequence(before, id),
                actual <= before.len(),
                before.len() + new_events.len() <= usize::MAX,
                self@ == before + stamped(id, actual as nat, payloads.take(done as int), labels),
                envelope_views(committed@) == stamped(
                    id,
                    actual as nat,
                    payloads.take(done as int),
                    labels,
                ),
            decreases new_events.len() - done,
        {
            let ghost log_so_far = self.log@;
            let ghost committed_so_far = committed@;
            let envelope = EventEnvelope {
                aggregate_id: aggregate_id.to_owned(),
                sequence: actual + done + 1,
                payload: new_events[done].duplicate(),
                metadata: copy_metadata(&metadata),
            };
            let returned = envelope.duplicate();
            proof {
                let next = stamped(id, actual as nat, payloads.take(done + 1), labels);
                assert(next =~= stamped(id, actual as nat, payloads.take(done as int), labels).push(
                    envelope@,
                ));
                assert(envelope_views(log_so_far.push(envelope)) =~= envelope_views(
                    log_so_far,
                ).push(envelope@));
                assert(before + next =~= (before + stamped(
                    id,
                    actual as nat,
                    payloads.take(done as int),
                    labels,
                )).push(envelope@));
                assert(envelope_views(committed_so_far.push(returned)) =~= envelope_views(
                    committed_so_far,
                ).push(returned@));
            }
            self.log.push(envelope);
            committed.push(returned);
            done += 1;
        }
        proof {
            assert(payloads.take(done as int) =~= payloads);
            lemma_append_keeps_event_log(before, id, actual as nat, payloads, labels);
        }
        Ok(committed)
    }
}

/// A stream holds no more envelopes than the log it is taken from.
pub proof fn lemma_stream_is_no_longer<P>(log: EventLog<P>, id: Seq<char>)
    ensures
        stream(log, id).len() <= log.len(),
    decreases log.len(),
{
    if log.len() > 0 {
        lemma_stream_is_no_longer(log.drop_last(), id);
    }
}

} // verus!
