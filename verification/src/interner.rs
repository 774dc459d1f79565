//! Interning of concrete traits: one small handle for each distinct value.
//!
//! The model of an interner is its table, the sequence of the values that it
//! has seen, each once, in the order in which they first came. A handle is an
//! index into the table. Values are only ever appended, so a handle means the
//! same value for as long as the interner lives.

use vstd::prelude::*;
use crate::trt::{ConcreteTraitLongId, ConcreteTraitLongIdView};

verus! {

/// The table after `value` has been interned: unchanged if the table holds
/// the value, else longer by the value.
pub open spec fn interned(
    table: Seq<ConcreteTraitLongIdView>,
    value: ConcreteTraitLongIdView,
) -> Seq<ConcreteTraitLongIdView> {
    if table.contains(value) {
        table
    } else {
        table.push(value)
    }
}

/// The handle that interning `value` into `table` gives: the place of the
/// value in the table after interning.
pub open spec fn handle(
    table: Seq<ConcreteTraitLongIdView>,
    value: ConcreteTraitLongIdView,
) -> int {
    interned(table, value).index_of(value)
}

/// A concrete trait in its short form: the handle that an interner gave to a
/// long form. Handles of one interner are equal exactly when they stand for
/// the same value.
///
/// Its view is the handle's index into the interner's table.
#[derive(Clone, Copy, Debug, PartialEq, Eq, Hash, Structural)]
pub struct ConcreteTraitId {
    index: usize,
}

impl View for ConcreteTraitId {
    type V = int;

    closed spec fn view(&self) -> int {
        self.index as int
    }
}

impl ConcreteTraitId {
    /// Handles are equal exactly when their indices are.
    pub proof fn lemma_equal_by_index(self, other: Self)
        ensures
            (self == other) <==> (self@ == other@),
    {
    }
}

/// Gives out handles for concrete traits and takes them back.
///
/// Its view is the table: the value of each long form interned so far, at
/// the index of its handle.
pub struct ConcreteTraitInterner {
    values: Vec<ConcreteTraitLongId>,
}

impl View for ConcreteTraitInterner {
    type V = Seq<ConcreteTraitLongIdView>;

    closed spec fn view(&self) -> Seq<ConcreteTraitLongIdView> {
        self.values@.map_values(|value: ConcreteTraitLongId| value@)
    }
}

impl ConcreteTraitInterner {
    #[verifier::type_invariant]
    spec fn each_value_once(self) -> bool {
        self@.no_duplicates()
    }

    /// An interner that has seen nothing.
    pub fn new() -> (interner: Self)
        ensures
            interner@ == Seq::<ConcreteTraitLongIdView>::empty(),
    {
        let interner = ConcreteTraitInterner { values: Vec::new() };
        assert(interner@ =~= Seq::<ConcreteTraitLongIdView>::empty());
        interner
    }

    /// The number of handles given out.
    pub fn len(&self) -> (n: usize)
        ensures
            n == self@.len(),
    {
        self.values.len()
    }

    /// Whether `id` is a handle that this interner gave out.
    pub fn contains_id(&self, id: ConcreteTraitId) -> (known: bool)
        ensures
            known == (0 <= id@ < self@.len()),
    {
        id.index < self.values.len()
    }

    /// The handle of `long_id`, if it has one. The table holds no value twice,
    /// so a value has at most one handle.
    pub fn get(&self, long_id: &ConcreteTraitLongId) -> (id: Option<ConcreteTraitId>)
        ensures
            self@.no_duplicates(),
            match id {
                Some(id) => 0 <= id@ < self@.len() && self@[id@] == long_id@,
                None => !self@.contains(long_id@),
            },
    {
        proof {
            use_type_invariant(self);
        }
        let mut i: usize = 0;
        while i < self.values.len()
            invariant
                i <= self.values.len(),
                self@.no_duplicates(),
                forall|j: int| 0 <= j < i ==> self@[j] != long_id@,
            decreases self.values.len() - i,
        {
            if self.values[i].same_as(long_id) {
                return Some(ConcreteTraitId { index: i });
            }
            i += 1;
        }
        None
    }

    /// Interns `long_id`: the handle that the value already has, or a new one
    /// where it is seen for the first time. Nothing else changes: the table
    /// grows by at most this value, and every handle given out before still
    /// stands for the value it stood for.
    pub fn intern_concrete_trait(&mut self, long_id: ConcreteTraitLongId) -> (id: ConcreteTraitId)
        ensures
            final(self)@ == interned(old(self)@, long_id@),
            id@ == handle(old(self)@, long_id@),
            0 <= id@ < final(self)@.len(),
            final(self)@[id@] == long_id@,
            final(self)@.no_duplicates(),
    {
        proof {
            use_type_invariant(&*self);
        }
        match self.get(&long_id) {
            Some(id) => {
                proof {
                    lemma_lookup_of_interned(self@, long_id@);
                }
                id
            },
            None => {
                let index: usize = self.values.len();
                let mut values: Vec<ConcreteTraitLongId> = Vec::new();
                std::mem::swap(&mut values, &mut self.values);
                values.push(long_id);
                proof {
                    let table = values@.map_values(|value: ConcreteTraitLongId| value@);
                    assert(table =~= old(self)@.push(long_id@));
                    lemma_interned_no_duplicates(old(self)@, long_id@);
                    lemma_lookup_of_interned(old(self)@, long_id@);
                }
                self.values = values;
                ConcreteTraitId { index }
            },
        }
    }

    /// The long form that `id` stands for.
    ///
    /// `id` has to be a handle that this interner gave out; whether it is can
    /// be asked of [`ConcreteTraitInterner::contains_id`].
    pub fn lookup_intern_concrete_trait(
        &self,
        id: ConcreteTraitId,
    ) -> (long_id: ConcreteTraitLongId)
        requires
            0 <= id@ < self@.len(),
        ensures
            long_id@ == self@[id@],
    {
        let stored = &self.values[id.index];
        ConcreteTraitLongId { trait_id: stored.trait_id, generic_args: stored.generic_args.clone() }
    }
}

/// The table after each value of `values` has been interned, in order.
pub open spec fn interned_all(
    table: Seq<ConcreteTraitLongIdView>,
    values: Seq<ConcreteTraitLongIdView>,
) -> Seq<ConcreteTraitLongIdView>
    decreases values.len(),
{
    if values.len() == 0 {
        table
    } else {
        interned(interned_all(table, values.drop_last()), values.last())
    }
}

/// Interning keeps the table free of repetitions.
pub proof fn lemma_interned_no_duplicates(
    table: Seq<ConcreteTraitLongIdView>,
    value: ConcreteTraitLongIdView,
)
    requires
        table.no_duplicates(),
    ensures
        interned(table, value).no_duplicates(),
{
}

/// Looking up the handle that interning gave returns the value that was
/// interned.
pub proof fn lemma_lookup_of_interned(
    table: Seq<ConcreteTraitLongIdView>,
    value: ConcreteTraitLongIdView,
)
    ensures
        0 <= handle(table, value) < interned(table, value).len(),
        interned(table, value)[handle(table, value)] == value,
{
    let after = interned(table, value);
    if !table.contains(value) {
        assert(after[table.len() as int] == value);
    }
    assert(after.contains(value));
}

/// Interning never takes anything back: however many values are interned,
/// the table stays free of repetitions and every entry that was there stays
/// where it was.
pub proof fn lemma_interning_only_appends(
    table: Seq<ConcreteTraitLongIdView>,
    values: Seq<ConcreteTraitLongIdView>,
)
    requires
        table.no_duplicates(),
    ensures
        interned_all(table, values).no_duplicates(),
        table.is_prefix_of(interned_all(table, values)),
    decreases values.len(),
{
    if values.len() > 0 {
        lemma_interning_only_appends(table, values.drop_last());
        lemma_interned_no_duplicates(interned_all(table, values.drop_last()), values.last());
    }
}

/// A handle outlives later interning: whatever is interned afterwards, the
/// handle still stands for its value, and interning the value again gives
/// the same handle.
pub proof fn lemma_handle_stable(
    table: Seq<ConcreteTraitLongIdView>,
    value: ConcreteTraitLongIdView,
    later: Seq<ConcreteTraitLongIdView>,
)
    requires
        table.no_duplicates(),
    ensures
        interned_all(interned(table, value), later)[handle(table, value)] == value,
        handle(interned_all(interned(table, value), later), value) == handle(table, value),
{
    let middle = interned(table, value);
    let after = interned_all(middle, later);
    lemma_lookup_of_interned(table, value);
    lemma_interned_no_duplicates(table, value);
    lemma_interning_only_appends(middle, later);
    assert(after[handle(table, value)] == value);
    assert(after.contains(value));
    lemma_lookup_of_interned(after, value);
}

/// Within one interner two values get the same handle exactly when they are
/// equal, whatever is interned between the two.
pub proof fn lemma_interning_sound(
    table: Seq<ConcreteTraitLongIdView>,
    first: ConcreteTraitLongIdView,
    between: Seq<ConcreteTraitLongIdView>,
    second: ConcreteTraitLongIdView,
)
    requires
        table.no_duplicates(),
    ensures
        (first == second) <==> handle(table, first) == handle(
            interned_all(interned(table, first), between),
            second,
        ),
{
    let middle = interned_all(interned(table, first), between);
    let after = interned(middle, second);
    lemma_handle_stable(table, first, between);
    lemma_interned_no_duplicates(table, first);
    lemma_interning_only_appends(interned(table, first), between);
    lemma_lookup_of_interned(table, first);
    lemma_lookup_of_interned(middle, second);
    lemma_interned_no_duplicates(middle, second);
    assert(after[handle(table, first)] == first);
}

} // verus!
