use vstd::prelude::*;
use crate::aggregate::DomainEvent;
use crate::event_log::{EnvelopeView, EventLog};
use crate::event_store::{envelope_views, EventEnvelope};

verus! {

/// A read model of one aggregate: a value that is derived from the
/// aggregate's committed events alone, one envelope at a time, and never
/// from a command. The view of a projection is its mathematical value.
pub trait Projection<E: DomainEvent>: Sized + View {
    /// The read model of an aggregate without history.
    spec fn empty() -> Self::V;

    /// The read model that follows `model` once `envelope` is folded in.
    spec fn updated(model: Self::V, envelope: EnvelopeView<E::V>) -> Self::V;

    /// A read model without events.
    fn blank() -> (model: Self)
        ensures
            model@ == Self::empty(),
    ;

    /// Folds `event` into the read model.
    fn update(&mut self, event: &EventEnvelope<E>)
        ensures
            final(self)@ == Self::updated(old(self)@, event@),
    ;

    /// A second read model of the same value.
    fn duplicate(&self) -> (copy: Self)
        ensures
            copy@ == self@,
    ;
}

/// The read model that `envelopes` lead to from `model`, folded in first to
/// last.
pub open spec fn projected_from<E: DomainEvent, V: Projection<E>>(
    model: V::V,
    envelopes: EventLog<E::V>,
) -> V::V
    decreases envelopes.len(),
{
    if envelopes.len() == 0 {
        model
    } else {
        V::updated(projected_from::<E, V>(model, envelopes.drop_last()), envelopes.last())
    }
}

/// The read model of an aggregate whose whole stream is `envelopes`.
pub open spec fn projected<E: DomainEvent, V: Projection<E>>(envelopes: EventLog<E::V>) -> V::V {
    projected_from::<E, V>(V::empty(), envelopes)
}

/// Folding a stream in two parts gives the read model that folding it in one
/// piece gives: a stored read model and the envelopes committed since stand
/// for the whole stream.
pub proof fn lemma_projection_in_parts<E: DomainEvent, V: Projection<E>>(
    model: V::V,
    earlier: EventLog<E::V>,
    later: EventLog<E::V>,
)
    ensures
        projected_from::<E, V>(model, earlier + later) == projected_from::<E, V>(
            projected_from::<E, V>(model, earlier),
            later,
        ),
    decreases later.len(),
{
    if later.len() == 0 {
        assert(earlier + later =~= earlier);
    } else {
        lemma_projection_in_parts::<E, V>(model, earlier, later.drop_last());
        assert((earlier + later).drop_last() =~= earlier + later.drop_last());
        assert((earlier + later).last() == later.last());
    }
}

/// Folds `events` into `model`, first to last.
pub fn project<E: DomainEvent, V: Projection<E>>(model: &mut V, events: &Vec<EventEnvelope<E>>)
    ensures
        final(model)@ == projected_from::<E, V>(old(model)@, envelope_views(events@)),
{
    let ghost start = model@;
    let ghost all = envelope_views(events@);
    let mut done: usize = 0;
    while done < events.len()
        invariant
            done <= events.len(),
            all == envelope_views(events@),
            model@ == projected_from::<E, V>(start, all.take(done as int)),
        decreases events.len() - done,
    {
        assert(all.take(done + 1).drop_last() =~= all.take(done as int));
        assert(all.take(done + 1).last() == events@[done as int]@);
        model.update(&events[done]);
        done += 1;
    }
    assert(all.take(done as int) =~= all);
}

} // verus!
