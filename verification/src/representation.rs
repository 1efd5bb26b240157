//! Representations: the key-only payloads by which a gateway asks a
//! subgraph for an entity.

use crate::entity::Entity;
use crate::text::str_eq;
use vstd::prelude::*;

verus! {

/// The name of the key field that every entity type of this graph has.
pub open spec fn id_field() -> Seq<char> {
    "id"@
}

/// The value of the first field of `fields` that is named `name`.
pub open spec fn field_value(fields: Seq<(Seq<char>, Seq<char>)>, name: Seq<char>) -> Option<
    Seq<char>,
>
    decreases fields.len(),
{
    if fields.len() == 0 {
        None
    } else if fields[0].0 == name {
        Some(fields[0].1)
    } else {
        field_value(fields.drop_first(), name)
    }
}

/// One key field of a representation: its name and its value.
#[derive(Clone, Debug, PartialEq, Eq)]
pub struct KeyField {
    pub name: String,
    pub value: String,
}

impl View for KeyField {
    type V = (Seq<char>, Seq<char>);

    open spec fn view(&self) -> (Seq<char>, Seq<char>) {
        (self.name@, self.value@)
    }
}

/// A reference to an entity as it travels between subgraphs: the name of the
/// entity's type and a bag of key fields.
#[derive(Clone, Debug, PartialEq, Eq)]
pub struct Representation {
    pub typename: String,
    pub fields: Vec<KeyField>,
}

/// What a representation says: the type it names and its fields, in order,
/// each as a name and a value.
pub struct RepresentationView {
    pub typename: Seq<char>,
    pub fields: Seq<(Seq<char>, Seq<char>)>,
}

impl RepresentationView {
    /// The value of the key field `name`, where the bag has such a field.
    pub open spec fn key(self, name: Seq<char>) -> Option<Seq<char>> {
        field_value(self.fields, name)
    }

    /// The id that the representation carries, where it carries one.
    pub open spec fn id(self) -> Option<Seq<char>> {
        self.key(id_field())
    }

    /// The representation that names `typename` and carries the id `id` and
    /// nothing else.
    pub open spec fn by_id(typename: Seq<char>, id: Seq<char>) -> RepresentationView {
        RepresentationView { typename, fields: seq![(id_field(), id)] }
    }
}

impl View for Representation {
    type V = RepresentationView;

    open spec fn view(&self) -> RepresentationView {
        RepresentationView {
            typename: self.typename@,
            fields: self.fields@.map_values(|field: KeyField| field@),
        }
    }
}

impl Representation {
    /// The representation that names `typename` and carries the id `id` and
    /// nothing else.
    pub fn by_id(typename: &str, id: &str) -> (made: Representation)
        ensures
            made@ == RepresentationView::by_id(typename@, id@),
    {
        let mut fields: Vec<KeyField> = Vec::new();
        fields.push(KeyField { name: "id".to_owned(), value: id.to_owned() });
        let made = Representation { typename: typename.to_owned(), fields };
        assert(made@.fields =~= seq![(id_field(), id@)]);
        made
    }

    /// The value of the key field `name`: that of the first field with that
    /// name, or `None` where the bag has no such field.
    pub fn key(&self, name: &str) -> (value: Option<&str>)
        ensures
            match value {
                Some(text) => self@.key(name@) == Some(text@),
                None => self@.key(name@) is None,
            },
    {
        let ghost fields = self@.fields;
        let mut i: usize = 0;
        assert(fields.skip(0) =~= fields);
        while i < self.fields.len()
            invariant
                i <= self.fields@.len(),
                fields == self@.fields,
                field_value(fields, name@) == field_value(fields.skip(i as int), name@),
            decreases self.fields@.len() - i,
        {
            let field = &self.fields[i];
            proof {
                let rest = fields.skip(i as int);
                assert(rest[0] == field@);
                assert(rest.drop_first() =~= fields.skip(i + 1));
            }
            if str_eq(field.name.as_str(), name) {
                return Some(field.value.as_str());
            }
            i += 1;
        }
        assert(fields.skip(i as int).len() == 0);
        None
    }

    /// The id that this representation carries, or `None` where it carries
    /// none.
    pub fn id(&self) -> (value: Option<&str>)
        ensures
            match value {
                Some(text) => self@.id() == Some(text@),
                None => self@.id() is None,
            },
    {
        self.key("id")
    }
}

/// The representation of `entity`: the name of its type and its id, with no
/// other attribute. It is what another subgraph embeds to refer to `entity`.
pub fn reference_to<T: Entity>(entity: &T) -> (made: Representation)
    ensures
        made@ == RepresentationView::by_id(T::kind().typename(), entity.key()),
{
    Representation::by_id(T::entity_kind().name(), entity.id())
}

/// A representation made by id names its type and carries that id.
pub proof fn law_reference_carries_its_id(typename: Seq<char>, id: Seq<char>)
    ensures
        RepresentationView::by_id(typename, id).typename == typename,
        RepresentationView::by_id(typename, id).id() == Some(id),
{
}

} // verus!
