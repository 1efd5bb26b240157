//! The entity types of the federated graph and the keys that identify them.

use crate::text::str_eq;
use vstd::prelude::*;

verus! {

/// The entity types that exist in the federated graph. Each is owned by the
/// subgraph that holds its records; other subgraphs refer to it by key only.
#[derive(Clone, Copy, Debug, PartialEq, Eq, Structural)]
pub enum EntityKind {
    Album,
    Musician,
    Instrument,
}

impl EntityKind {
    /// The type discriminator under which a gateway names this type.
    pub open spec fn typename(self) -> Seq<char> {
        match self {
            EntityKind::Album => "Album"@,
            EntityKind::Musician => "Musician"@,
            EntityKind::Instrument => "Instrument"@,
        }
    }

    /// The type discriminator of this kind.
    pub fn name(self) -> (name: &'static str)
        ensures
            name@ == self.typename(),
    {
        match self {
            EntityKind::Album => "Album",
            EntityKind::Musician => "Musician",
            EntityKind::Instrument => "Instrument",
        }
    }

    /// The kind that `typename` names, if it names one.
    pub fn from_typename(typename: &str) -> (kind: Option<EntityKind>)
        ensures
            match kind {
                Some(k) => k.typename() == typename@,
                None => forall|k: EntityKind| k.typename() != typename@,
            },
    {
        if str_eq(typename, "Album") {
            Some(EntityKind::Album)
        } else if str_eq(typename, "Musician") {
            Some(EntityKind::Musician)
        } else if str_eq(typename, "Instrument") {
            Some(EntityKind::Instrument)
        } else {
            None
        }
    }

    /// No two kinds share a type discriminator.
    pub proof fn lemma_typenames_distinct(a: EntityKind, b: EntityKind)
        ensures
            a.typename() == b.typename() <==> a == b,
    {
        reveal_strlit("Album");
        reveal_strlit("Musician");
        reveal_strlit("Instrument");
        if a != b {
            assert(a.typename().len() != b.typename().len());
        }
    }
}

/// A value that a gateway can address by its type and its key.
pub trait Entity {
    /// The kind under which values of this type are addressed.
    spec fn kind() -> EntityKind;

    /// The key of this value: the characters of its id.
    spec fn key(&self) -> Seq<char>;

    /// The kind under which values of this type are addressed.
    fn entity_kind() -> (kind: EntityKind)
        ensures
            kind == Self::kind(),
    ;

    /// The id of this value.
    fn id(&self) -> (id: &str)
        ensures
            id@ == self.key(),
    ;
}

/// A reference to an album by key only, as a subgraph that does not own
/// albums embeds it.
#[derive(Clone, Debug, PartialEq, Eq)]
pub struct AlbumRef {
    pub id: String,
}

/// A reference to a musician by key only.
#[derive(Clone, Debug, PartialEq, Eq)]
pub struct MusicianRef {
    pub id: String,
}

/// A reference to an instrument by key only.
#[derive(Clone, Debug, PartialEq, Eq)]
pub struct InstrumentRef {
    pub id: String,
}

/// An album as the subgraph that owns albums holds it.
#[derive(Clone, Debug, PartialEq, Eq)]
pub struct Album {
    pub id: String,
    pub title: String,
    pub year: Option<i32>,
    pub musicians: Option<Vec<MusicianRef>>,
}

/// A musician as the subgraph that owns musicians holds it.
#[derive(Clone, Debug, PartialEq, Eq)]
pub struct Musician {
    pub id: String,
    pub name: String,
    pub age: i32,
    pub instruments: Option<Vec<InstrumentRef>>,
    pub albums: Option<Vec<AlbumRef>>,
}

/// An instrument as the subgraph that owns instruments holds it.
#[derive(Clone, Debug, PartialEq, Eq)]
pub struct Instrument {
    pub id: String,
    pub name: String,
}

impl Musician {
    /// The instrument that the musician plays first of all: the first of the
    /// instrument list, where the musician has a list and it is not empty.
    pub open spec fn primary(self) -> Option<InstrumentRef> {
        match self.instruments {
            Some(list) => if list@.len() > 0 {
                Some(list@[0])
            } else {
                None
            },
            None => None,
        }
    }

    /// The musician's primary instrument, or `None` where the musician has
    /// no instrument list or an empty one.
    pub fn primary_instrument(&self) -> (first: Option<&InstrumentRef>)
        ensures
            match first {
                Some(instrument) => self.primary() == Some(*instrument),
                None => self.primary() is None,
            },
    {
        match &self.instruments {
            Some(list) => if list.len() > 0 {
                Some(&list[0])
            } else {
                None
            },
            None => None,
        }
    }
}

impl Entity for AlbumRef {
    open spec fn kind() -> EntityKind {
        EntityKind::Album
    }

    open spec fn key(&self) -> Seq<char> {
        self.id@
    }

    fn entity_kind() -> EntityKind {
        EntityKind::Album
    }

    fn id(&self) -> &str {
        self.id.as_str()
    }
}

impl Entity for MusicianRef {
    open spec fn kind() -> EntityKind {
        EntityKind::Musician
    }

    open spec fn key(&self) -> Seq<char> {
        self.id@
    }

    fn entity_kind() -> EntityKind {
        EntityKind::Musician
    }

    fn id(&self) -> &str {
        self.id.as_str()
    }
}

impl Entity for InstrumentRef {
    open spec fn kind() -> EntityKind {
        EntityKind::Instrument
    }

    open spec fn key(&self) -> Seq<char> {
        self.id@
    }

    fn entity_kind() -> EntityKind {
        EntityKind::Instrument
    }

    fn id(&self) -> &str {
        self.id.as_str()
    }
}

impl Entity for Album {
    open spec fn kind() -> EntityKind {
        EntityKind::Album
    }

    open spec fn key(&self) -> Seq<char> {
        self.id@
    }

    fn entity_kind() -> EntityKind {
        EntityKind::Album
    }

    fn id(&self) -> &str {
        self.id.as_str()
    }
}

impl Entity for Musician {
    open spec fn kind() -> EntityKind {
        EntityKind::Musician
    }

    open spec fn key(&self) -> Seq<char> {
        self.id@
    }

    fn entity_kind() -> EntityKind {
        EntityKind::Musician
    }

    fn id(&self) -> &str {
        self.id.as_str()
    }
}

impl Entity for Instrument {
    open spec fn kind() -> EntityKind {
        EntityKind::Instrument
    }

    open spec fn key(&self) -> Seq<char> {
        self.id@
    }

    fn entity_kind() -> EntityKind {
        EntityKind::Instrument
    }

    fn id(&self) -> &str {
        self.id.as_str()
    }
}

} // verus!
