use vstd::prelude::*;

verus! {

/// The mathematical value of an event envelope: an event of value `payload`
/// together with the aggregate it belongs to, its place in that aggregate's
/// history, and the metadata of the request that caused it.
pub struct EnvelopeView<P> {
    pub aggregate_id: Seq<char>,
    pub sequence: nat,
    pub payload: P,
    pub metadata: Seq<(Seq<char>, Seq<char>)>,
}

/// An event log: the committed envelopes of all aggregates, in the order in
/// which they were committed.
pub type EventLog<P> = Seq<EnvelopeView<P>>;

/// The envelopes of `log` that belong to the aggregate `id`, in log order.
pub open spec fn stream<P>(log: EventLog<P>, id: Seq<char>) -> EventLog<P>
    decreases log.len(),
{
    if log.len() == 0 {
        Seq::empty()
    } else if log.last().aggregate_id == id {
        stream(log.drop_last(), id).push(log.last())
    } else {
        stream(log.drop_last(), id)
    }
}

/// The events of `log` without their envelopes, in log order.
pub open spec fn payloads_of<P>(log: EventLog<P>) -> Seq<P> {
    log.map_values(|envelope: EnvelopeView<P>| envelope.payload)
}

/// The sequence number of the last envelope committed for `id`, or 0 if the
/// aggregate has no history.
pub open spec fn last_sequence<P>(log: EventLog<P>, id: Seq<char>) -> nat {
    stream(log, id).len()
}

/// True if each envelope of `log` carries as its sequence number its position
/// among the envelopes of its own aggregate, counted from 1.
pub open spec fn is_event_log<P>(log: EventLog<P>) -> bool {
    forall|i: int|
        0 <= i < log.len() ==> (#[trigger] log[i]).sequence == last_sequence(
            log.take(i + 1),
            log[i].aggregate_id,
        )
}

/// The envelopes for `payloads`, committed for `id` after sequence number
/// `last`: they are numbered `last + 1`, `last + 2`, and so on, in the order
/// of `payloads`, and each carries `metadata`.
pub open spec fn stamped<P>(
    id: Seq<char>,
    last: nat,
    payloads: Seq<P>,
    metadata: Seq<(Seq<char>, Seq<char>)>,
) -> EventLog<P> {
    Seq::new(
        payloads.len(),
        |k: int|
            EnvelopeView {
                aggregate_id: id,
                sequence: (last + k + 1) as nat,
                payload: payloads[k],
                metadata,
            },
    )
}

/// True if an append to `log` for `id` that expects `expected` as the last
/// sequence number is accepted: no other writer has committed for `id` since
/// the caller read that number.
pub open spec fn append_accepted<P>(log: EventLog<P>, id: Seq<char>, expected: nat) -> bool {
    last_sequence(log, id) == expected
}

/// The log after an append of `payloads` for `id` by a writer that expects
/// `expected`: extended by the stamped envelopes if the append is accepted,
/// unchanged if not.
pub open spec fn after_append<P>(
    log: EventLog<P>,
    id: Seq<char>,
    expected: nat,
    payloads: Seq<P>,
    metadata: Seq<(Seq<char>, Seq<char>)>,
) -> EventLog<P> {
    if append_accepted(log, id, expected) {
        log + stamped(id, expected, payloads, metadata)
    } else {
        log
    }
}

/// The stream of a log made of two parts is the stream of the first part
/// followed by the stream of the second.
pub proof fn lemma_stream_of_parts<P>(earlier: EventLog<P>, later: EventLog<P>, id: Seq<char>)
    ensures
        stream(earlier + later, id) == stream(earlier, id) + stream(later, id),
    decreases later.len(),
{
    if later.len() == 0 {
        assert(earlier + later =~= earlier);
        assert(stream(earlier, id) + stream(later, id) =~= stream(earlier, id));
    } else {
        lemma_stream_of_parts(earlier, later.drop_last(), id);
        assert((earlier + later).drop_last() =~= earlier + later.drop_last());
        assert((earlier + later).last() == later.last());
        if later.last().aggregate_id == id {
            assert(stream(earlier + later, id) =~= stream(earlier, id) + stream(later, id));
        }
    }
}

/// Stamped envelopes all belong to the aggregate they were stamped for: its
/// stream holds them all, and the stream of any other aggregate holds none.
pub proof fn lemma_stream_of_stamped<P>(
    id: Seq<char>,
    last: nat,
    payloads: Seq<P>,
    metadata: Seq<(Seq<char>, Seq<char>)>,
    other: Seq<char>,
)
    ensures
        stream(stamped(id, last, payloads, metadata), id) == stamped(id, last, payloads, metadata),
        other != id ==> stream(stamped(id, last, payloads, metadata), other) == Seq::<
            EnvelopeView<P>,
        >::empty(),
    decreases payloads.len(),
{
    let all = stamped(id, last, payloads, metadata);
    if payloads.len() > 0 {
        lemma_stream_of_stamped(id, last, payloads.drop_last(), metadata, other);
        assert(all.drop_last() =~= stamped(id, last, payloads.drop_last(), metadata));
        assert(stream(all, id) =~= all);
    } else {
        assert(stream(all, id) =~= all);
    }
}

/// A prefix of an event log is an event log.
pub proof fn lemma_prefix_is_event_log<P>(log: EventLog<P>, n: int)
    requires
        is_event_log(log),
        0 <= n <= log.len(),
    ensures
        is_event_log(log.take(n)),
{
    let prefix = log.take(n);
    assert forall|i: int| 0 <= i < prefix.len() implies (#[trigger] prefix[i]).sequence
        == last_sequence(prefix.take(i + 1), prefix[i].aggregate_id) by {
        assert(prefix.take(i + 1) =~= log.take(i + 1));
        assert(prefix[i] == log[i]);
    }
}

/// Every stream of an event log is gapless: its envelopes belong to the
/// stream's aggregate, and the one at position `k` has sequence number
/// `k + 1`.
pub proof fn lemma_streams_are_gapless<P>(log: EventLog<P>, id: Seq<char>)
    requires
        is_event_log(log),
    ensures
        forall|k: int|
            0 <= k < stream(log, id).len() ==> {
                &&& (#[trigger] stream(log, id)[k]).aggregate_id == id
                &&& stream(log, id)[k].sequence == k + 1
            },
    decreases log.len(),
{
    if log.len() > 0 {
        let n = log.len() - 1;
        let shorter = log.drop_last();
        lemma_prefix_is_event_log(log, n);
        assert(log.take(n) =~= shorter);
        lemma_streams_are_gapless(shorter, id);
        assert forall|k: int| 0 <= k < stream(log, id).len() implies {
            &&& (#[trigger] stream(log, id)[k]).aggregate_id == id
            &&& stream(log, id)[k].sequence == k + 1
        } by {
            if log.last().aggregate_id == id {
                assert(stream(log, id) == stream(shorter, id).push(log.last()));
                if k < stream(shorter, id).len() {
                    assert(stream(log, id)[k] == stream(shorter, id)[k]);
                } else {
                    assert(stream(log, id)[k] == log[n]);
                    assert(log.take(n + 1) =~= log);
                    assert(log[n].sequence == last_sequence(log.take(n + 1), log[n].aggregate_id));
                }
            } else {
                assert(stream(log, id) == stream(shorter, id));
            }
        }
    }
}

/// Appending keeps an event log an event log, whether the append is accepted
/// or refused.
pub proof fn lemma_append_keeps_event_log<P>(
    log: EventLog<P>,
    id: Seq<char>,
    expected: nat,
    payloads: Seq<P>,
    metadata: Seq<(Seq<char>, Seq<char>)>,
)
    requires
        is_event_log(log),
    ensures
        is_event_log(after_append(log, id, expected, payloads, metadata)),
{
    if append_accepted(log, id, expected) {
        let added = stamped(id, expected, payloads, metadata);
        let longer = log + added;
        assert forall|i: int| 0 <= i < longer.len() implies (#[trigger] longer[i]).sequence
            == last_sequence(longer.take(i + 1), longer[i].aggregate_id) by {
            if i < log.len() {
                assert(longer.take(i + 1) =~= log.take(i + 1));
                assert(longer[i] == log[i]);
            } else {
                let k = i - log.len();
                let part = stamped(id, expected, payloads.take(k + 1), metadata);
                assert(longer.take(i + 1) =~= log + part);
                lemma_stream_of_parts(log, part, id);
                lemma_stream_of_stamped(id, expected, payloads.take(k + 1), metadata, id);
            }
        }
    }
}

/// Round trip: after an accepted append, the stream of the aggregate is its
/// earlier stream followed by exactly the appended events, in the order
/// submitted and numbered from the expected sequence number plus one; every
/// other aggregate's stream is as before.
pub proof fn lemma_append_then_load<P>(
    log: EventLog<P>,
    id: Seq<char>,
    expected: nat,
    payloads: Seq<P>,
    metadata: Seq<(Seq<char>, Seq<char>)>,
    other: Seq<char>,
)
    requires
        append_accepted(log, id, expected),
    ensures
        stream(after_append(log, id, expected, payloads, metadata), id) == stream(log, id)
            + stamped(id, expected, payloads, metadata),
        forall|k: int|
            0 <= k < payloads.len() ==> {
                &&& (#[trigger] stamped(id, expected, payloads, metadata)[k]).payload == payloads[k]
                &&& stamped(id, expected, payloads, metadata)[k].sequence == last_sequence(log, id)
                    + k + 1
            },
        other != id ==> stream(after_append(log, id, expected, payloads, metadata), other)
            == stream(log, other),
{
    let added = stamped(id, expected, payloads, metadata);
    lemma_stream_of_parts(log, added, id);
    lemma_stream_of_parts(log, added, other);
    lemma_stream_of_stamped(id, expected, payloads, metadata, other);
    if other != id {
        assert(stream(log, other) + Seq::<EnvelopeView<P>>::empty() =~= stream(log, other));
    }
}

/// A refused append leaves the log as it was.
pub proof fn lemma_refused_append_changes_nothing<P>(
    log: EventLog<P>,
    id: Seq<char>,
    expected: nat,
    payloads: Seq<P>,
    metadata: Seq<(Seq<char>, Seq<char>)>,
)
    requires
        !append_accepted(log, id, expected),
    ensures
        after_append(log, id, expected, payloads, metadata) == log,
{
}

/// Two writers that read the same last sequence number of one aggregate: once
/// the first has committed at least one event, the second is refused, and
/// its events do not reach the log.
pub proof fn lemma_only_one_writer_wins<P>(
    log: EventLog<P>,
    id: Seq<char>,
    expected: nat,
    first: Seq<P>,
    first_metadata: Seq<(Seq<char>, Seq<char>)>,
    second: Seq<P>,
    second_metadata: Seq<(Seq<char>, Seq<char>)>,
)
    requires
        append_accepted(log, id, expected),
        first.len() > 0,
    ensures
        !append_accepted(after_append(log, id, expected, first, first_metadata), id, expected),
        after_append(
            after_append(log, id, expected, first, first_metadata),
            id,
            expected,
            second,
            second_metadata,
        ) == log + stamped(id, expected, first, first_metadata),
{
    lemma_append_then_load(log, id, expected, first, first_metadata, id);
}

/// No two envelopes of one stream of an event log carry the same sequence
/// number.
pub proof fn lemma_sequence_numbers_are_unique<P>(log: EventLog<P>, id: Seq<char>, j: int, k: int)
    requires
        is_event_log(log),
        0 <= j < stream(log, id).len(),
        0 <= k < stream(log, id).len(),
        j != k,
    ensures
        stream(log, id)[j].sequence != stream(log, id)[k].sequence,
{
    lemma_streams_are_gapless(log, id);
}

} // verus!
