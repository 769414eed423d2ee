//! Records kept under their identifiers.

use crate::text::same_text;
use vstd::prelude::*;

verus! {

/// A record with an identifier of its own. Its view is everything the
/// record holds.
pub trait Keyed: View + Sized {
    /// The identifier of a record whose view is `value`.
    spec fn id_of(value: Self::V) -> Seq<char>;

    /// The identifier.
    fn entity_id(&self) -> (id: &str)
        ensures
            id@ == Self::id_of(self@),
    ;
}

/// No two records of `records` share an identifier.
pub open spec fn ids_distinct<E: Keyed>(records: Seq<E::V>) -> bool {
    forall|i: int, j: int|
        0 <= i < j < records.len() ==> E::id_of(#[trigger] records[i]) != E::id_of(
            #[trigger] records[j],
        )
}

/// Some record of `records` carries the identifier `id`.
pub open spec fn has_id<E: Keyed>(records: Seq<E::V>, id: Seq<char>) -> bool {
    exists|i: int| 0 <= i < records.len() && E::id_of(#[trigger] records[i]) == id
}

/// A position in `records` of a record with the identifier `id`, if there is one.
pub open spec fn position_of<E: Keyed>(records: Seq<E::V>, id: Seq<char>) -> int {
    choose|i: int| 0 <= i < records.len() && E::id_of(#[trigger] records[i]) == id
}

/// The record that `records` keeps under `id`.
pub open spec fn lookup<E: Keyed>(records: Seq<E::V>, id: Seq<char>) -> Option<E::V> {
    if has_id::<E>(records, id) {
        Some(records[position_of::<E>(records, id)])
    } else {
        None
    }
}

/// `records` after storing `value` under its identifier: in place of the
/// record that had the identifier, or else at the end.
pub open spec fn upsert<E: Keyed>(records: Seq<E::V>, value: E::V) -> Seq<E::V> {
    if has_id::<E>(records, E::id_of(value)) {
        records.update(position_of::<E>(records, E::id_of(value)), value)
    } else {
        records.push(value)
    }
}

/// `records` without the record that had the identifier `id`, if there was
/// one.
pub open spec fn without<E: Keyed>(records: Seq<E::V>, id: Seq<char>) -> Seq<E::V> {
    if has_id::<E>(records, id) {
        records.remove(position_of::<E>(records, id))
    } else {
        records
    }
}

/// The list made of `records` taken in order, each stored under its
/// identifier: of two records with one identifier the later one stays, at
/// the place of the earlier.
pub open spec fn collected<E: Keyed>(records: Seq<E::V>) -> Seq<E::V>
    decreases records.len(),
{
    if records.len() == 0 {
        Seq::empty()
    } else {
        upsert::<E>(collected::<E>(records.drop_last()), records.last())
    }
}

/// Where identifiers are distinct, the record at position `i` is the one
/// that `lookup` finds under its identifier.
pub proof fn lemma_lookup_at<E: Keyed>(records: Seq<E::V>, i: int)
    requires
        ids_distinct::<E>(records),
        0 <= i < records.len(),
    ensures
        has_id::<E>(records, E::id_of(records[i])),
        position_of::<E>(records, E::id_of(records[i])) == i,
        lookup::<E>(records, E::id_of(records[i])) == Some(records[i]),
{
    let id = E::id_of(records[i]);
    let p = position_of::<E>(records, id);
    assert(0 <= p < records.len() && E::id_of(records[p]) == id);
    if p < i {
        assert(E::id_of(records[p]) != E::id_of(records[i]));
    } else if i < p {
        assert(E::id_of(records[i]) != E::id_of(records[p]));
    }
}

/// Records in the order in which they came, each under its own identifier.
pub struct KeyedList<E: Keyed> {
    entities: Vec<E>,
}

impl<E: Keyed> View for KeyedList<E> {
    type V = Seq<E::V>;

    closed spec fn view(&self) -> Seq<E::V> {
        self.entities@.map_values(|e: E| e@)
    }
}

impl<E: Keyed> KeyedList<E> {
    #[verifier::type_invariant]
    closed spec fn well_formed(self) -> bool {
        ids_distinct::<E>(self@)
    }

    /// A list without records.
    pub fn new() -> (list: Self)
        ensures
            list@ == Seq::<E::V>::empty(),
    {
        let list = KeyedList { entities: Vec::new() };
        assert(list@ =~= Seq::<E::V>::empty());
        list
    }

    /// The list of the records of `entities`, taken in order.
    pub fn from_entities(entities: Vec<E>) -> (list: Self)
        ensures
            list@ == collected::<E>(entities@.map_values(|e: E| e@)),
            ids_distinct::<E>(list@),
    {
        let ghost views = entities@.map_values(|e: E| e@);
        let mut list = KeyedList::new();
        assert(views.take(0) =~= Seq::empty());
        for entity in iter: entities
            invariant
                views == iter.seq().map_values(|e: E| e@),
                list@ == collected::<E>(views.take(iter.index())),
        {
            assert(views.take(iter.index() + 1).drop_last() =~= views.take(iter.index()));
            assert(views.take(iter.index() + 1).last() == entity@);
            list.store(entity);
        }
        assert(views.take(views.len() as int) =~= views);
        proof {
            use_type_invariant(&list);
        }
        list
    }

    /// The number of records, none of which shares its identifier with
    /// another.
    pub fn len(&self) -> (n: usize)
        ensures
            n == self@.len(),
            ids_distinct::<E>(self@),
    {
        proof {
            use_type_invariant(self);
        }
        self.entities.len()
    }

    /// The records, in their order.
    pub fn into_entities(self) -> (entities: Vec<E>)
        ensures
            entities@.map_values(|e: E| e@) == self@,
            ids_distinct::<E>(self@),
    {
        proof {
            use_type_invariant(&self);
        }
        let KeyedList { entities } = self;
        entities
    }

    /// Takes out the record kept under `id`, if there is one.
    pub fn remove(&mut self, id: &str) -> (removed: Option<E>)
        ensures
            final(self)@ == without::<E>(old(self)@, id@),
            ids_distinct::<E>(final(self)@),
            match removed {
                Some(e) => lookup::<E>(old(self)@, id@) == Some(e@),
                None => lookup::<E>(old(self)@, id@) is None,
            },
    {
        proof {
            use_type_invariant(&*self);
        }
        match self.find(id) {
            None => None,
            Some(i) => {
                let mut taken = KeyedList { entities: Vec::new() };
                assert(taken@ =~= Seq::<E::V>::empty());
                core::mem::swap(self, &mut taken);
                let KeyedList { entities } = taken;
                let mut entities = entities;
                let ghost before = entities@;
                let removed = entities.remove(i);
                assert(entities@.map_values(|e: E| e@) =~= before.map_values(|e: E| e@).remove(
                    i as int,
                ));
                proof {
                    lemma_remove_distinct::<E>(before.map_values(|e: E| e@), i as int);
                }
                *self = KeyedList { entities };
                Some(removed)
            },
        }
    }

    /// Takes out every record.
    pub fn clear(&mut self)
        ensures
            final(self)@ == Seq::<E::V>::empty(),
    {
        *self = KeyedList::new();
    }

    /// The record at position `i`.
    pub fn entity_at(&self, i: usize) -> (e: &E)
        requires
            i < self@.len(),
        ensures
            e@ == self@[i as int],
    {
        &self.entities[i]
    }

    /// The position of the record with the identifier `id`.
    pub fn find(&self, id: &str) -> (found: Option<usize>)
        ensures
            found is Some <==> has_id::<E>(self@, id@),
            found matches Some(i) ==> i == position_of::<E>(self@, id@),
            ids_distinct::<E>(self@),
    {
        proof {
            use_type_invariant(self);
        }
        let mut i: usize = 0;
        while i < self.entities.len()
            invariant
                i <= self.entities.len(),
                ids_distinct::<E>(self@),
                forall|k: int| 0 <= k < i ==> E::id_of(#[trigger] self@[k]) != id@,
            decreases self.entities.len() - i,
        {
            if same_text(self.entities[i].entity_id(), id) {
                proof {
                    lemma_lookup_at::<E>(self@, i as int);
                }
                return Some(i);
            }
            i += 1;
        }
        None
    }

    /// The record kept under `id`.
    pub fn get(&self, id: &str) -> (found: Option<&E>)
        ensures
            found is Some <==> has_id::<E>(self@, id@),
            found matches Some(e) ==> Some(e@) == lookup::<E>(self@, id@),
            ids_distinct::<E>(self@),
    {
        match self.find(id) {
            Some(i) => Some(&self.entities[i]),
            None => None,
        }
    }

    /// Whether a record is kept under `id`.
    pub fn contains(&self, id: &str) -> (present: bool)
        ensures
            present == has_id::<E>(self@, id@),
    {
        self.find(id).is_some()
    }

    /// Stores `entity` under its identifier, in place of the record that had
    /// it or else as a new record.
    pub fn store(&mut self, entity: E)
        ensures
            final(self)@ == upsert::<E>(old(self)@, entity@),
            ids_distinct::<E>(final(self)@),
    {
        proof {
            use_type_invariant(&*self);
            lemma_upsert_distinct::<E>(self@, entity@);
        }
        let found = self.find(entity.entity_id());
        let mut taken = KeyedList { entities: Vec::new() };
        assert(taken@ =~= Seq::<E::V>::empty());
        core::mem::swap(self, &mut taken);
        let KeyedList { entities } = taken;
        let mut entities = entities;
        let ghost before = entities@;
        match found {
            Some(i) => {
                entities[i] = entity;
                assert(entities@.map_values(|e: E| e@) =~= before.map_values(|e: E| e@).update(
                    i as int,
                    entity@,
                ));
            },
            None => {
                entities.push(entity);
                assert(entities@.map_values(|e: E| e@) =~= before.map_values(|e: E| e@).push(
                    entity@,
                ));
            },
        }
        *self = KeyedList { entities };
    }
}

/// Taking a record out keeps identifiers distinct.
pub proof fn lemma_remove_distinct<E: Keyed>(records: Seq<E::V>, at: int)
    requires
        ids_distinct::<E>(records),
        0 <= at < records.len(),
    ensures
        ids_distinct::<E>(records.remove(at)),
{
    let rest = records.remove(at);
    assert forall|i: int, j: int| 0 <= i < j < rest.len() implies E::id_of(#[trigger] rest[i])
        != E::id_of(#[trigger] rest[j]) by {
        let i0 = if i < at {
            i
        } else {
            i + 1
        };
        let j0 = if j < at {
            j
        } else {
            j + 1
        };
        assert(rest[i] == records[i0] && rest[j] == records[j0]);
    }
}

/// A list of records with distinct identifiers, taken in order, is that
/// list.
pub proof fn lemma_collected_distinct<E: Keyed>(records: Seq<E::V>)
    requires
        ids_distinct::<E>(records),
    ensures
        collected::<E>(records) == records,
    decreases records.len(),
{
    if records.len() > 0 {
        let front = records.drop_last();
        let last = records.last();
        assert forall|i: int, j: int| 0 <= i < j < front.len() implies E::id_of(
            #[trigger] front[i],
        ) != E::id_of(#[trigger] front[j]) by {
            assert(front[i] == records[i] && front[j] == records[j]);
        }
        lemma_collected_distinct::<E>(front);
        if has_id::<E>(front, E::id_of(last)) {
            let p = position_of::<E>(front, E::id_of(last));
            assert(0 <= p < front.len() && E::id_of(front[p]) == E::id_of(last));
            assert(front[p] == records[p]);
            assert(records[records.len() - 1] == last);
            assert(false);
        }
        assert(front.push(last) =~= records);
    } else {
        assert(records =~= Seq::empty());
    }
}

/// Keeping some of the records keeps identifiers distinct.
pub proof fn lemma_filter_distinct<E: Keyed>(records: Seq<E::V>, keep: spec_fn(E::V) -> bool)
    requires
        ids_distinct::<E>(records),
    ensures
        ids_distinct::<E>(records.filter(keep)),
    decreases records.len(),
{
    reveal(Seq::filter);
    if records.len() > 0 {
        let front = records.drop_last();
        let last = records.last();
        assert forall|i: int, j: int| 0 <= i < j < front.len() implies E::id_of(
            #[trigger] front[i],
        ) != E::id_of(#[trigger] front[j]) by {
            assert(front[i] == records[i] && front[j] == records[j]);
        }
        lemma_filter_distinct::<E>(front, keep);
        let kept = front.filter(keep);
        if keep(last) {
            let all = kept.push(last);
            assert forall|i: int, j: int| 0 <= i < j < all.len() implies E::id_of(
                #[trigger] all[i],
            ) != E::id_of(#[trigger] all[j]) by {
                if j == kept.len() {
                    assert(kept.contains(kept[i]));
                    front.lemma_filter_contains_rev(keep, kept[i]);
                    let k = choose|k: int| 0 <= k < front.len() && front[k] == kept[i];
                    assert(front[k] == records[k]);
                    assert(records[records.len() - 1] == last);
                }
            }
        }
    }
}

/// Storing a record keeps identifiers distinct.
pub proof fn lemma_upsert_distinct<E: Keyed>(records: Seq<E::V>, value: E::V)
    requires
        ids_distinct::<E>(records),
    ensures
        ids_distinct::<E>(upsert::<E>(records, value)),
{
    let id = E::id_of(value);
    let after = upsert::<E>(records, value);
    if has_id::<E>(records, id) {
        let p = position_of::<E>(records, id);
        assert forall|i: int, j: int| 0 <= i < j < after.len() implies E::id_of(
            #[trigger] after[i],
        ) != E::id_of(#[trigger] after[j]) by {
            assert(E::id_of(after[i]) == E::id_of(records[i]));
            assert(E::id_of(after[j]) == E::id_of(records[j]));
        }
    } else {
        assert forall|i: int, j: int| 0 <= i < j < after.len() implies E::id_of(
            #[trigger] after[i],
        ) != E::id_of(#[trigger] after[j]) by {
            if j == records.len() {
                assert(E::id_of(records[i]) != id);
            }
        }
    }
}

/// A record found under `id` carries `id`.
pub proof fn lemma_lookup_id<E: Keyed>(records: Seq<E::V>, id: Seq<char>)
    ensures
        lookup::<E>(records, id) is Some <==> has_id::<E>(records, id),
        lookup::<E>(records, id) matches Some(v) ==> E::id_of(v) == id && records.contains(v),
{
    if has_id::<E>(records, id) {
        let p = position_of::<E>(records, id);
        assert(0 <= p < records.len() && E::id_of(records[p]) == id);
    }
}

/// After storing `value`, `value` is found under its identifier and every
/// other identifier leads to what it led to before.
pub proof fn lemma_upsert_lookup<E: Keyed>(records: Seq<E::V>, value: E::V, id: Seq<char>)
    requires
        ids_distinct::<E>(records),
    ensures
        ids_distinct::<E>(upsert::<E>(records, value)),
        lookup::<E>(upsert::<E>(records, value), id) == if id == E::id_of(value) {
            Some(value)
        } else {
            lookup::<E>(records, id)
        },
{
    lemma_upsert_distinct::<E>(records, value);
    let stored = upsert::<E>(records, value);
    let at = if has_id::<E>(records, E::id_of(value)) {
        position_of::<E>(records, E::id_of(value))
    } else {
        records.len() as int
    };
    assert(0 <= at < stored.len() && stored[at] == value);
    if id == E::id_of(value) {
        lemma_lookup_at::<E>(stored, at);
    } else if has_id::<E>(records, id) {
        let q = position_of::<E>(records, id);
        assert(0 <= q < records.len() && E::id_of(records[q]) == id);
        assert(stored[q] == records[q]);
        lemma_lookup_at::<E>(stored, q);
        lemma_lookup_at::<E>(records, q);
    } else {
        if has_id::<E>(stored, id) {
            let k = position_of::<E>(stored, id);
            assert(0 <= k < stored.len() && E::id_of(stored[k]) == id);
            assert(k != at);
            assert(stored[k] == records[k]);
            assert(false);
        }
    }
}

} // verus!
