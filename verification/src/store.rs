//! The in-memory record store of one entity type.

use crate::entity::Entity;
use crate::text::str_eq;
use vstd::prelude::*;

verus! {

/// No two records of `records` have the same key.
pub open spec fn distinct_keys<T: Entity>(records: Seq<T>) -> bool {
    forall|i: int, j: int|
        #![trigger records[i], records[j]]
        0 <= i < j < records.len() ==> records[i].key() != records[j].key()
}

/// Some record of `records` has the key `key`.
pub open spec fn holds_key<T: Entity>(records: Seq<T>, key: Seq<char>) -> bool {
    exists|i: int| 0 <= i < records.len() && (#[trigger] records[i]).key() == key
}

/// The record of `records` whose key is `key`, if there is one.
pub open spec fn lookup<T: Entity>(records: Seq<T>, key: Seq<char>) -> Option<T> {
    if holds_key(records, key) {
        Some(records[choose|i: int| 0 <= i < records.len() && (#[trigger] records[i]).key() == key])
    } else {
        None
    }
}

/// The record at `index` has the key of a record before it.
pub open spec fn repeats_earlier_key<T: Entity>(records: Seq<T>, index: int) -> bool {
    exists|i: int| 0 <= i < index && (#[trigger] records[i]).key() == records[index].key()
}

/// `found` borrows the very value that `expected` holds, or both are empty.
pub open spec fn borrows<T>(found: Option<&T>, expected: Option<T>) -> bool {
    match found {
        Some(record) => expected == Some(*record),
        None => expected is None,
    }
}

/// Why a list of records cannot become a store: the record at `index` is the
/// first one whose key an earlier record already has.
#[derive(Clone, Copy, Debug, PartialEq, Eq)]
pub struct DuplicateKey {
    pub index: usize,
}

/// The records of one entity type, in the order in which they were given,
/// each with a key of its own. A store is filled once and only read after.
pub struct RecordStore<T: Entity> {
    records: Vec<T>,
}

impl<T: Entity> View for RecordStore<T> {
    type V = Seq<T>;

    closed spec fn view(&self) -> Seq<T> {
        self.records@
    }
}

impl<T: Entity> RecordStore<T> {
    #[verifier::type_invariant]
    spec fn keys_are_distinct(self) -> bool {
        distinct_keys(self.records@)
    }

    /// A store of `records`, in their order. It is refused where two records
    /// share a key, with the position of the first record that repeats one.
    pub fn new(records: Vec<T>) -> (made: Result<RecordStore<T>, DuplicateKey>)
        ensures
            match made {
                Ok(store) => store@ == records@ && distinct_keys(records@),
                Err(duplicate) => {
                    &&& duplicate.index < records@.len()
                    &&& repeats_earlier_key(records@, duplicate.index as int)
                    &&& forall|j: int|
                        0 <= j < duplicate.index ==> !repeats_earlier_key(records@, j)
                },
            },
    {
        let mut j: usize = 0;
        while j < records.len()
            invariant
                j <= records@.len(),
                forall|b: int| 0 <= b < j ==> !repeats_earlier_key(records@, b),
            decreases records@.len() - j,
        {
            let mut i: usize = 0;
            while i < j
                invariant
                    i <= j < records@.len(),
                    forall|b: int| 0 <= b < j ==> !repeats_earlier_key(records@, b),
                    forall|a: int|
                        0 <= a < i ==> (#[trigger] records@[a]).key() != records@[j as int].key(),
                decreases j - i,
            {
                if str_eq(records[i].id(), records[j].id()) {
                    assert(records@[i as int].key() == records@[j as int].key());
                    return Err(DuplicateKey { index: j });
                }
                i += 1;
            }
            j += 1;
        }
        proof {
            assert forall|a: int, b: int|
                #![trigger records@[a], records@[b]]
                0 <= a < b < records@.len() implies records@[a].key() != records@[b].key() by {
                assert(!repeats_earlier_key(records@, b));
            }
        }
        Ok(RecordStore { records })
    }

    /// The number of records.
    pub fn len(&self) -> (n: usize)
        ensures
            n == self@.len(),
    {
        self.records.len()
    }

    /// Every record, in the order in which the store was filled.
    pub fn list(&self) -> (all: &[T])
        ensures
            all@ == self@,
            distinct_keys(all@),
    {
        proof {
            use_type_invariant(self);
        }
        self.records.as_slice()
    }

    /// The record whose key is `id`, or `None` where the store has no such
    /// record.
    pub fn find_by_id(&self, id: &str) -> (found: Option<&T>)
        ensures
            borrows(found, lookup(self@, id@)),
    {
        proof {
            use_type_invariant(self);
        }
        let mut i: usize = 0;
        while i < self.records.len()
            invariant
                i <= self.records@.len(),
                distinct_keys(self.records@),
                forall|a: int| 0 <= a < i ==> (#[trigger] self.records@[a]).key() != id@,
            decreases self.records@.len() - i,
        {
            if str_eq(self.records[i].id(), id) {
                proof {
                    law_lookup_finds_each_record(self.records@, i as int);
                }
                return Some(&self.records[i]);
            }
            i += 1;
        }
        None
    }
}

/// Looking up the key of a stored record gives back that very record.
pub proof fn law_lookup_finds_each_record<T: Entity>(records: Seq<T>, i: int)
    requires
        distinct_keys(records),
        0 <= i < records.len(),
    ensures
        lookup(records, records[i].key()) == Some(records[i]),
{
    let key = records[i].key();
    assert(holds_key(records, key));
    let j = choose|j: int| 0 <= j < records.len() && (#[trigger] records[j]).key() == key;
    if j < i {
        assert(records[j].key() != records[i].key());
    } else if i < j {
        assert(records[i].key() != records[j].key());
    }
}

/// Looking up a key finds nothing exactly where no stored record has it.
pub proof fn law_lookup_of_absent_key<T: Entity>(records: Seq<T>, key: Seq<char>)
    ensures
        lookup(records, key) is None <==> forall|i: int|
            0 <= i < records.len() ==> (#[trigger] records[i]).key() != key,
{
}

/// What a lookup finds is a stored record, and it has the key that was asked
/// for.
pub proof fn law_lookup_result_is_stored<T: Entity>(records: Seq<T>, key: Seq<char>)
    ensures
        lookup(records, key) matches Some(record) ==> record.key() == key && records.contains(
            record,
        ),
{
}

/// Two answers to the lookup of one key in one store are the same answer,
/// whoever asked and in whatever order: a store is only read once it is made.
pub proof fn law_lookups_agree<T: Entity>(
    records: Seq<T>,
    key: Seq<char>,
    first: Option<&T>,
    second: Option<&T>,
)
    requires
        borrows(first, lookup(records, key)),
        borrows(second, lookup(records, key)),
    ensures
        first == second,
{
}

/// A listing shows each record at its own position and nowhere else.
pub proof fn law_listing_shows_each_record_once<T: Entity>(records: Seq<T>, i: int, j: int)
    requires
        distinct_keys(records),
        0 <= i < records.len(),
        0 <= j < records.len(),
        records[i] == records[j],
    ensures
        i == j,
{
    if i < j {
        assert(records[i].key() != records[j].key());
    } else if j < i {
        assert(records[j].key() != records[i].key());
    }
}

} // verus!
