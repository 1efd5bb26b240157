//! Entity resolution: what a store answers to the representations that a
//! gateway sends, one by one and in batches.

use crate::entity::Entity;
use crate::representation::{Representation, RepresentationView};
use crate::store::{borrows, distinct_keys, holds_key, lookup, RecordStore};
use vstd::prelude::*;

verus! {

/// What the owner of `T`, holding `records`, answers to `reference`: the
/// record with the id that the reference carries, where the reference names
/// `T` and carries the id of a record; nothing otherwise.
pub open spec fn resolve<T: Entity>(records: Seq<T>, reference: RepresentationView) -> Option<T> {
    if reference.typename == T::kind().typename() {
        match reference.id() {
            Some(id) => lookup(records, id),
            None => None,
        }
    } else {
        None
    }
}

/// What the owner of `T`, holding `records`, answers to a batch: for each
/// reference its own answer, at the reference's position.
pub open spec fn resolve_all<T: Entity>(
    records: Seq<T>,
    references: Seq<RepresentationView>,
) -> Seq<Option<T>> {
    references.map_values(|reference: RepresentationView| resolve(records, reference))
}

/// What each of `references` says, in order.
pub open spec fn views(references: Seq<Representation>) -> Seq<RepresentationView> {
    references.map_values(|reference: Representation| reference@)
}

impl<T: Entity> RecordStore<T> {
    /// The record that `reference` asks for. A reference that names another
    /// type, or carries no id, or the id of no record, is answered with
    /// `None`.
    pub fn resolve_reference(&self, reference: &Representation) -> (found: Option<&T>)
        ensures
            borrows(found, resolve(self@, reference@)),
    {
        if !crate::text::str_eq(reference.typename.as_str(), T::entity_kind().name()) {
            return None;
        }
        match reference.id() {
            Some(id) => self.find_by_id(id),
            None => None,
        }
    }

    /// The answers to a batch of references: as many as there are references,
    /// the answer to each at the position of that reference. A reference that
    /// cannot be resolved leaves `None` at its position and the other answers
    /// as they are.
    pub fn resolve_entities(&self, references: &[Representation]) -> (found: Vec<Option<&T>>)
        ensures
            found@.len() == references@.len(),
            forall|i: int|
                0 <= i < found@.len() ==> borrows(
                    #[trigger] found@[i],
                    resolve_all(self@, views(references@))[i],
                ),
    {
        let mut found: Vec<Option<&T>> = Vec::new();
        let mut i: usize = 0;
        while i < references.len()
            invariant
                i <= references@.len(),
                found@.len() == i,
                forall|k: int|
                    0 <= k < i ==> borrows(#[trigger] found@[k], resolve(self@, references@[k]@)),
            decreases references@.len() - i,
        {
            let answer = self.resolve_reference(&references[i]);
            found.push(answer);
            i += 1;
        }
        found
    }
}

/// A batch has one answer for each reference, and the answer at a position
/// is the answer to the reference at that position alone.
pub proof fn law_batch_is_positional<T: Entity>(
    records: Seq<T>,
    references: Seq<RepresentationView>,
    i: int,
)
    requires
        0 <= i < references.len(),
    ensures
        resolve_all(records, references).len() == references.len(),
        resolve_all(records, references)[i] == resolve(records, references[i]),
{
}

/// Replacing one reference of a batch changes no answer but its own: a
/// reference that cannot be resolved does not take the others with it.
pub proof fn law_answers_are_independent<T: Entity>(
    records: Seq<T>,
    references: Seq<RepresentationView>,
    i: int,
    j: int,
    other: RepresentationView,
)
    requires
        0 <= i < references.len(),
        0 <= j < references.len(),
        i != j,
    ensures
        resolve_all(records, references.update(j, other))[i] == resolve_all(
            records,
            references,
        )[i],
{
}

/// A reference is resolved exactly where it names the owned type and carries
/// the id of a stored record; the answer is then that record.
pub proof fn law_resolved_iff_owned_and_present<T: Entity>(
    records: Seq<T>,
    reference: RepresentationView,
)
    ensures
        resolve(records, reference) is Some <==> {
            &&& reference.typename == T::kind().typename()
            &&& reference.id() matches Some(id) && holds_key(records, id)
        },
        resolve(records, reference) matches Some(record) ==> reference.id() == Some(
            record.key(),
        ) && records.contains(record),
{
}

/// A reference that names a type other than the owned one is never resolved,
/// whatever id it carries.
pub proof fn law_foreign_type_is_not_resolved<T: Entity>(
    records: Seq<T>,
    reference: RepresentationView,
)
    requires
        reference.typename != T::kind().typename(),
    ensures
        resolve(records, reference) is None,
{
}

/// The reference by which another subgraph points to a stored record is
/// resolved by the owner to that very record.
pub proof fn law_reference_resolves_to_its_record<T: Entity>(records: Seq<T>, i: int)
    requires
        distinct_keys(records),
        0 <= i < records.len(),
    ensures
        resolve(records, RepresentationView::by_id(T::kind().typename(), records[i].key()))
            == Some(records[i]),
{
    crate::store::law_lookup_finds_each_record(records, i);
}

/// A key-only value of one subgraph is a reference that the owner of its
/// type can resolve: the owner answers with its record of that key, where it
/// has one.
pub proof fn law_stub_is_a_reference<T: Entity, S: Entity>(records: Seq<T>, stub: S)
    requires
        S::kind() == T::kind(),
    ensures
        resolve(records, RepresentationView::by_id(S::kind().typename(), stub.key())) == lookup(
            records,
            stub.key(),
        ),
{
}

} // verus!
