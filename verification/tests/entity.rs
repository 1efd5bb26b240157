use music_subgraphs::entity::{
    Album, AlbumRef, Entity, EntityKind, Instrument, InstrumentRef, Musician, MusicianRef,
};

fn musician(instruments: Option<Vec<InstrumentRef>>) -> Musician {
    Musician { id: "1".to_string(), name: "John".to_string(), age: 20, instruments, albums: None }
}

#[test]
fn kind_names_are_the_type_discriminators() {
    assert_eq!(EntityKind::Album.name(), "Album");
    assert_eq!(EntityKind::Musician.name(), "Musician");
    assert_eq!(EntityKind::Instrument.name(), "Instrument");
}

#[test]
fn from_typename_reads_each_name_back() {
    assert_eq!(EntityKind::from_typename("Album"), Some(EntityKind::Album));
    assert_eq!(EntityKind::from_typename("Musician"), Some(EntityKind::Musician));
    assert_eq!(EntityKind::from_typename("Instrument"), Some(EntityKind::Instrument));
    for kind in [EntityKind::Album, EntityKind::Musician, EntityKind::Instrument] {
        assert_eq!(EntityKind::from_typename(kind.name()), Some(kind));
    }
}

#[test]
fn from_typename_knows_no_other_name() {
    assert_eq!(EntityKind::from_typename(""), None);
    assert_eq!(EntityKind::from_typename("album"), None);
    assert_eq!(EntityKind::from_typename("Albums"), None);
    assert_eq!(EntityKind::from_typename(" Album"), None);
    assert_eq!(EntityKind::from_typename("Query"), None);
}

#[test]
fn each_entity_type_has_its_kind_and_its_id_as_key() {
    let album = Album {
        id: "7".to_string(),
        title: "seven".to_string(),
        year: None,
        musicians: Some(vec![MusicianRef { id: "1".to_string() }]),
    };
    assert_eq!(<Album as Entity>::entity_kind(), EntityKind::Album);
    assert_eq!(Entity::id(&album), "7");
    assert_eq!(<AlbumRef as Entity>::entity_kind(), EntityKind::Album);
    assert_eq!(Entity::id(&AlbumRef { id: "7".to_string() }), "7");
    assert_eq!(<Musician as Entity>::entity_kind(), EntityKind::Musician);
    assert_eq!(Entity::id(&musician(None)), "1");
    assert_eq!(<MusicianRef as Entity>::entity_kind(), EntityKind::Musician);
    assert_eq!(Entity::id(&MusicianRef { id: "m".to_string() }), "m");
    assert_eq!(<Instrument as Entity>::entity_kind(), EntityKind::Instrument);
    assert_eq!(
        Entity::id(&Instrument { id: "3".to_string(), name: "Drums".to_string() }),
        "3"
    );
    assert_eq!(<InstrumentRef as Entity>::entity_kind(), EntityKind::Instrument);
    assert_eq!(Entity::id(&InstrumentRef { id: "i".to_string() }), "i");
}

#[test]
fn primary_instrument_is_the_first_of_the_list() {
    let player = musician(Some(vec![
        InstrumentRef { id: "2".to_string() },
        InstrumentRef { id: "1".to_string() },
        InstrumentRef { id: "3".to_string() },
    ]));
    assert_eq!(player.primary_instrument(), Some(&InstrumentRef { id: "2".to_string() }));
}

#[test]
fn primary_instrument_of_an_empty_list_is_none() {
    assert_eq!(musician(Some(Vec::new())).primary_instrument(), None);
}

#[test]
fn primary_instrument_without_a_list_is_none() {
    assert_eq!(musician(None).primary_instrument(), None);
}
