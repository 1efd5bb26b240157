//! The three subgraph services: what each answers to root queries and to
//! the entity queries of a gateway.

use crate::entity::{Album, AlbumRef, Entity, EntityKind, Instrument, Musician};
use crate::representation::{Representation, RepresentationView};
use crate::resolver::{resolve, resolve_all, views};
use crate::store::{borrows, distinct_keys, lookup, RecordStore};
use vstd::prelude::*;

verus! {

/// The subgraph that owns albums.
pub struct AlbumSubgraph {
    albums: RecordStore<Album>,
}

impl View for AlbumSubgraph {
    type V = Seq<Album>;

    closed spec fn view(&self) -> Seq<Album> {
        self.albums@
    }
}

impl AlbumSubgraph {
    /// The subgraph that serves the albums of `albums`.
    pub fn new(albums: RecordStore<Album>) -> (graph: AlbumSubgraph)
        ensures
            graph@ == albums@,
    {
        AlbumSubgraph { albums }
    }

    /// Every album, in the order of the store.
    pub fn albums(&self) -> (all: &[Album])
        ensures
            all@ == self@,
            distinct_keys(all@),
    {
        self.albums.list()
    }

    /// The album with the id `id`, or `None` where there is none.
    pub fn find_album(&self, id: &str) -> (found: Option<&Album>)
        ensures
            borrows(found, lookup(self@, id@)),
    {
        self.albums.find_by_id(id)
    }

    /// The album that a reference with the id `id` stands for, or `None`
    /// where there is none.
    pub fn find_album_entity_by_id(&self, id: &str) -> (found: Option<&Album>)
        ensures
            borrows(found, lookup(self@, id@)),
    {
        self.albums.find_by_id(id)
    }

    /// The answers to an entity query: for each reference, at its position,
    /// the album it asks for, or `None` where it asks for no album of this
    /// subgraph.
    pub fn resolve_entities(&self, references: &[Representation]) -> (found: Vec<Option<&Album>>)
        ensures
            found@.len() == references@.len(),
            forall|i: int|
                0 <= i < found@.len() ==> borrows(
                    #[trigger] found@[i],
                    resolve_all(self@, views(references@))[i],
                ),
    {
        self.albums.resolve_entities(references)
    }
}

/// The subgraph that owns instruments.
pub struct InstrumentSubgraph {
    instruments: RecordStore<Instrument>,
}

impl View for InstrumentSubgraph {
    type V = Seq<Instrument>;

    closed spec fn view(&self) -> Seq<Instrument> {
        self.instruments@
    }
}

impl InstrumentSubgraph {
    /// The subgraph that serves the instruments of `instruments`.
    pub fn new(instruments: RecordStore<Instrument>) -> (graph: InstrumentSubgraph)
        ensures
            graph@ == instruments@,
    {
        InstrumentSubgraph { instruments }
    }

    /// Every instrument, in the order of the store.
    pub fn instruments(&self) -> (all: &[Instrument])
        ensures
            all@ == self@,
            distinct_keys(all@),
    {
        self.instruments.list()
    }

    /// The instrument with the id `id`, or `None` where there is none. This
    /// is also what a reference with that id stands for.
    pub fn find_instrument(&self, id: &str) -> (found: Option<&Instrument>)
        ensures
            borrows(found, lookup(self@, id@)),
    {
        self.instruments.find_by_id(id)
    }

    /// The answers to an entity query: for each reference, at its position,
    /// the instrument it asks for, or `None` where it asks for no instrument
    /// of this subgraph.
    pub fn resolve_entities(&self, references: &[Representation]) -> (found: Vec<
        Option<&Instrument>,
    >)
        ensures
            found@.len() == references@.len(),
            forall|i: int|
                0 <= i < found@.len() ==> borrows(
                    #[trigger] found@[i],
                    resolve_all(self@, views(references@))[i],
                ),
    {
        self.instruments.resolve_entities(references)
    }
}

/// What the musician subgraph holds: its musicians, and the albums that it
/// knows by key.
pub struct MusicianSubgraphView {
    pub musicians: Seq<Musician>,
    pub albums: Seq<AlbumRef>,
}

/// An entity of the musician subgraph: a musician, or an album known by key.
#[derive(Clone, Copy, Debug, PartialEq, Eq)]
pub enum MusicianGraphEntity<'a> {
    Musician(&'a Musician),
    Album(&'a AlbumRef),
}

/// `found` is what the musician subgraph answers to `reference`: the
/// musician that the reference asks for, or the album, or nothing where it
/// asks for neither.
pub open spec fn musician_graph_answers(
    graph: MusicianSubgraphView,
    reference: RepresentationView,
    found: Option<MusicianGraphEntity>,
) -> bool {
    match found {
        Some(MusicianGraphEntity::Musician(musician)) => resolve(graph.musicians, reference)
            == Some(*musician),
        Some(MusicianGraphEntity::Album(album)) => resolve(graph.albums, reference) == Some(
            *album,
        ),
        None => resolve(graph.musicians, reference) is None && resolve(graph.albums, reference)
            is None,
    }
}

/// The subgraph that owns musicians. It also answers for albums, of which it
/// knows the keys only.
pub struct MusicianSubgraph {
    musicians: RecordStore<Musician>,
    albums: RecordStore<AlbumRef>,
}

impl View for MusicianSubgraph {
    type V = MusicianSubgraphView;

    closed spec fn view(&self) -> MusicianSubgraphView {
        MusicianSubgraphView { musicians: self.musicians@, albums: self.albums@ }
    }
}

impl MusicianSubgraph {
    /// The subgraph that serves the musicians of `musicians` and the album
    /// references of `albums`.
    pub fn new(musicians: RecordStore<Musician>, albums: RecordStore<AlbumRef>) -> (graph:
        MusicianSubgraph)
        ensures
            graph@.musicians == musicians@,
            graph@.albums == albums@,
    {
        MusicianSubgraph { musicians, albums }
    }

    /// Every musician, in the order of the store.
    pub fn musicians(&self) -> (all: &[Musician])
        ensures
            all@ == self@.musicians,
            distinct_keys(all@),
    {
        self.musicians.list()
    }

    /// The musician with the id `id`, or `None` where there is none.
    pub fn find_musician(&self, id: &str) -> (found: Option<&Musician>)
        ensures
            borrows(found, lookup(self@.musicians, id@)),
    {
        self.musicians.find_by_id(id)
    }

    /// The musician that a reference with the id `id` stands for, or `None`
    /// where there is none.
    pub fn find_musician_entity_by_id(&self, id: &str) -> (found: Option<&Musician>)
        ensures
            borrows(found, lookup(self@.musicians, id@)),
    {
        self.musicians.find_by_id(id)
    }

    /// The album reference that a reference with the id `id` stands for, or
    /// `None` where this subgraph knows no album of that id.
    pub fn find_album_entity_by_id(&self, id: &str) -> (found: Option<&AlbumRef>)
        ensures
            borrows(found, lookup(self@.albums, id@)),
    {
        self.albums.find_by_id(id)
    }

    /// The entity that `reference` asks for. The type that the reference
    /// names decides which store is searched; a reference that names neither
    /// musicians nor albums is answered with `None`.
    pub fn resolve_reference(&self, reference: &Representation) -> (found: Option<
        MusicianGraphEntity<'_>,
    >)
        ensures
            musician_graph_answers(self@, reference@, found),
    {
        proof {
            EntityKind::lemma_typenames_distinct(EntityKind::Musician, EntityKind::Album);
            EntityKind::lemma_typenames_distinct(EntityKind::Instrument, EntityKind::Album);
            EntityKind::lemma_typenames_distinct(EntityKind::Instrument, EntityKind::Musician);
        }
        match EntityKind::from_typename(reference.typename.as_str()) {
            Some(EntityKind::Musician) => match self.musicians.resolve_reference(reference) {
                Some(musician) => Some(MusicianGraphEntity::Musician(musician)),
                None => None,
            },
            Some(EntityKind::Album) => match self.albums.resolve_reference(reference) {
                Some(album) => Some(MusicianGraphEntity::Album(album)),
                None => None,
            },
            _ => None,
        }
    }

    /// The answers to an entity query: for each reference, at its position,
    /// the entity it asks for, or `None` where it asks for none of this
    /// subgraph.
    pub fn resolve_entities(&self, references: &[Representation]) -> (found: Vec<
        Option<MusicianGraphEntity<'_>>,
    >)
        ensures
            found@.len() == references@.len(),
            forall|i: int|
                0 <= i < found@.len() ==> musician_graph_answers(
                    self@,
                    views(references@)[i],
                    #[trigger] found@[i],
                ),
    {
        let mut found: Vec<Option<MusicianGraphEntity<'_>>> = Vec::new();
        let mut i: usize = 0;
        while i < references.len()
            invariant
                i <= references@.len(),
                found@.len() == i,
                forall|k: int|
                    0 <= k < i ==> musician_graph_answers(
                        self@,
                        references@[k]@,
                        #[trigger] found@[k],
                    ),
            decreases references@.len() - i,
        {
            let answer = self.resolve_reference(&references[i]);
            found.push(answer);
            i += 1;
        }
        found
    }
}

/// A reference has at most one owner in the musician subgraph: where it
/// asks for a musician it asks for no album, so the answer to it is one
/// entity at most, and `musician_graph_answers` holds of one answer only.
pub proof fn law_musician_graph_answer_is_unique(
    graph: MusicianSubgraphView,
    reference: RepresentationView,
    first: Option<MusicianGraphEntity>,
    second: Option<MusicianGraphEntity>,
)
    requires
        musician_graph_answers(graph, reference, first),
        musician_graph_answers(graph, reference, second),
    ensures
        !(resolve(graph.musicians, reference) is Some && resolve(graph.albums, reference)
            is Some),
        first == second,
{
    EntityKind::lemma_typenames_distinct(EntityKind::Musician, EntityKind::Album);
}

/// The musician subgraph answers no reference that names a type other than
/// musicians and albums.
pub proof fn law_musician_graph_ignores_foreign_types(
    graph: MusicianSubgraphView,
    reference: RepresentationView,
    found: Option<MusicianGraphEntity>,
)
    requires
        reference.typename != EntityKind::Musician.typename(),
        reference.typename != EntityKind::Album.typename(),
        musician_graph_answers(graph, reference, found),
    ensures
        found is None,
{
}

} // verus!
