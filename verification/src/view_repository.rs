use vstd::prelude::*;

verus! {

/// The read models that `entries` stand for, by aggregate id. Where an id
/// occurs more than once, its last entry counts.
pub open spec fn stored<M>(entries: Seq<(Seq<char>, M)>) -> Map<Seq<char>, M>
    decreases entries.len(),
{
    if entries.len() == 0 {
        Map::empty()
    } else {
        stored(entries.drop_last()).insert(entries.last().0, entries.last().1)
    }
}

/// The last entry under an id is the one that counts.
pub proof fn lemma_last_entry_counts<M>(entries: Seq<(Seq<char>, M)>, id: Seq<char>, at: int)
    requires
        0 <= at < entries.len(),
        entries[at].0 == id,
        forall|later: int| at < later < entries.len() ==> (#[trigger] entries[later]).0 != id,
    ensures
        stored(entries).contains_key(id),
        stored(entries)[id] == entries[at].1,
    decreases entries.len(),
{
    if at < entries.len() - 1 {
        assert(entries[entries.len() - 1].0 != id);
        lemma_last_entry_counts(entries.drop_last(), id, at);
    }
}

/// An id under which there is no entry has no read model.
pub proof fn lemma_no_entry_no_model<M>(entries: Seq<(Seq<char>, M)>, id: Seq<char>)
    requires
        forall|at: int| 0 <= at < entries.len() ==> (#[trigger] entries[at]).0 != id,
    ensures
        !stored(entries).contains_key(id),
    decreases entries.len(),
{
    if entries.len() > 0 {
        assert(entries[entries.len() - 1].0 != id);
        lemma_no_entry_no_model(entries.drop_last(), id);
    }
}

/// Taking out an entry under an id makes no difference once a new read model
/// is stored under that id.
pub proof fn lemma_replaced_entry<M>(entries: Seq<(Seq<char>, M)>, at: int, model: M)
    requires
        0 <= at < entries.len(),
    ensures
        stored(entries.remove(at)).insert(entries[at].0, model) == stored(entries).insert(
            entries[at].0,
            model,
        ),
    decreases entries.len(),
{
    let id = entries[at].0;
    if at == entries.len() - 1 {
        assert(entries.remove(at) =~= entries.drop_last());
        assert(stored(entries.drop_last()).insert(id, model) =~= stored(entries).insert(id, model));
    } else {
        let shorter = entries.drop_last();
        lemma_replaced_entry(shorter, at, model);
        assert(entries.remove(at).drop_last() =~= shorter.remove(at));
        assert(entries.remove(at).last() == entries.last());
        let last = entries.last();
        assert(stored(entries.remove(at)).insert(id, model) =~= stored(shorter.remove(at)).insert(
            id,
            model,
        ).insert(last.0, last.1).insert(id, model));
        assert(stored(entries).insert(id, model) =~= stored(shorter).insert(id, model).insert(
            last.0,
            last.1,
        ).insert(id, model));
    }
}

/// A key-value store of read models by aggregate id, held in memory. Its
/// view is the map from ids to the values of the stored read models. It
/// never looks at an event log.
pub struct ViewRepository<V> {
    views: Vec<(String, V)>,
}

/// The ids and values of `entries`, in the same order.
pub open spec fn entry_views<V: View>(entries: Seq<(String, V)>) -> Seq<(Seq<char>, V::V)> {
    entries.map_values(|entry: (String, V)| (entry.0@, entry.1@))
}

impl<V: View> View for ViewRepository<V> {
    type V = Map<Seq<char>, V::V>;

    closed spec fn view(&self) -> Map<Seq<char>, V::V> {
        stored(entry_views(self.views@))
    }
}

impl<V: View> ViewRepository<V> {
    /// A repository without read models.
    pub fn new() -> (repository: Self)
        ensures
            repository@ == Map::<Seq<char>, V::V>::empty(),
    {
        let repository = ViewRepository { views: Vec::new() };
        assert(entry_views(repository.views@) =~= Seq::empty());
        repository
    }

    /// The place of the entry that counts for `id`, if there is one.
    fn position(&self, id: &String) -> (found: Option<usize>)
        ensures
            match found {
                Some(at) => {
                    &&& at < self.views.len()
                    &&& self.views[at as int].0@ == id@
                    &&& self@.contains_key(id@)
                    &&& self@[id@] == self.views[at as int].1@
                },
                None => !self@.contains_key(id@),
            },
    {
        let ghost entries = entry_views(self.views@);
        let mut at: usize = self.views.len();
        while at > 0
            invariant
                at <= self.views.len(),
                entries == entry_views(self.views@),
                forall|later: int| at <= later < entries.len() ==> (#[trigger] entries[later]).0 != id@,
            decreases at,
        {
            at -= 1;
            if self.views[at].0 == *id {
                proof {
                    lemma_last_entry_counts(entries, id@, at as int);
                }
                return Some(at);
            }
        }
        proof {
            lemma_no_entry_no_model(entries, id@);
        }
        None
    }

    /// The read model stored for `view_id`, if there is one.
    pub fn load(&self, view_id: &str) -> (found: Option<&V>)
        ensures
            match found {
                Some(model) => self@.contains_key(view_id@) && self@[view_id@] == model@,
                None => !self@.contains_key(view_id@),
            },
    {
        let id = view_id.to_owned();
        match self.position(&id) {
            Some(at) => Some(&self.views[at].1),
            None => None,
        }
    }

    /// Stores `view` as the read model of `view_id`, in place of the one
    /// stored before, if any.
    pub fn update_view(&mut self, view_id: &str, view: V)
        ensures
            final(self)@ == old(self)@.insert(view_id@, view@),
    {
        let id = view_id.to_owned();
        let ghost before = entry_views(self.views@);
        match self.position(&id) {
            Some(at) => {
                self.views.remove(at);
                proof {
                    assert(entry_views(self.views@) =~= before.remove(at as int));
                    lemma_replaced_entry(before, at as int, view@);
                }
            },
            None => {},
        }
        let ghost kept = entry_views(self.views@);
        self.views.push((id, view));
        assert(entry_views(self.views@) =~= kept.push((view_id@, view@)));
        assert(entry_views(self.views@).drop_last() =~= kept);
    }
}

} // verus!
