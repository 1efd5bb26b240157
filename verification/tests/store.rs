use music_subgraphs::entity::{Album, Instrument};
use music_subgraphs::store::{DuplicateKey, RecordStore};
use music_subgraphs::text::str_eq;

fn album(id: &str, title: &str, year: i32) -> Album {
    Album { id: id.to_string(), title: title.to_string(), year: Some(year), musicians: None }
}

fn instrument(id: &str, name: &str) -> Instrument {
    Instrument { id: id.to_string(), name: name.to_string() }
}

fn two_albums() -> RecordStore<Album> {
    RecordStore::new(vec![album("1", "album1", 2020), album("2", "album2", 2021)])
        .expect("the ids differ")
}

fn shared_by_threads<T: Send + Sync>(_value: &T) {}

#[test]
fn find_by_id_returns_the_record_with_that_id() {
    let store = two_albums();
    assert_eq!(store.find_by_id("1"), Some(&album("1", "album1", 2020)));
    assert_eq!(store.find_by_id("2"), Some(&album("2", "album2", 2021)));
}

#[test]
fn find_by_id_finds_every_stored_record_by_its_own_id() {
    let store = RecordStore::new(vec![
        instrument("1", "Guitar"),
        instrument("2", "Bass"),
        instrument("3", "Drums"),
    ])
    .expect("the ids differ");
    for record in store.list() {
        assert_eq!(store.find_by_id(&record.id), Some(record));
    }
}

#[test]
fn find_by_id_of_an_absent_id_is_none() {
    let store = two_albums();
    assert_eq!(store.find_by_id("9"), None);
    assert_eq!(store.find_by_id(""), None);
    assert_eq!(store.find_by_id("11"), None);
    assert_eq!(store.find_by_id("1 "), None);
}

#[test]
fn find_by_id_in_an_empty_store_is_none() {
    let store: RecordStore<Album> = RecordStore::new(Vec::new()).expect("nothing repeats");
    assert_eq!(store.len(), 0);
    assert_eq!(store.find_by_id("1"), None);
    assert!(store.list().is_empty());
}

#[test]
fn find_by_id_tells_ids_apart_by_every_character() {
    let store = RecordStore::new(vec![
        instrument("a", "first"),
        instrument("A", "second"),
        instrument("é", "third"),
        instrument("e\u{301}", "fourth"),
        instrument("", "fifth"),
    ])
    .expect("the ids differ");
    assert_eq!(store.find_by_id("a").map(|found| found.name.as_str()), Some("first"));
    assert_eq!(store.find_by_id("A").map(|found| found.name.as_str()), Some("second"));
    assert_eq!(store.find_by_id("é").map(|found| found.name.as_str()), Some("third"));
    assert_eq!(store.find_by_id("e\u{301}").map(|found| found.name.as_str()), Some("fourth"));
    assert_eq!(store.find_by_id("").map(|found| found.name.as_str()), Some("fifth"));
    assert_eq!(store.find_by_id("e"), None);
}

#[test]
fn list_returns_every_record_once_in_the_order_given() {
    let store = two_albums();
    let expected = vec![album("1", "album1", 2020), album("2", "album2", 2021)];
    assert_eq!(store.list(), expected.as_slice());
    assert_eq!(store.len(), 2);
}

#[test]
fn list_is_the_same_at_every_call() {
    let store = two_albums();
    let first: Vec<Album> = store.list().to_vec();
    let _ = store.find_by_id("2");
    let _ = store.find_by_id("9");
    let second: Vec<Album> = store.list().to_vec();
    assert_eq!(first, second);
    assert_eq!(store.list(), store.list());
}

#[test]
fn list_keeps_an_order_that_is_not_sorted() {
    let store = RecordStore::new(vec![
        instrument("3", "Drums"),
        instrument("1", "Guitar"),
        instrument("2", "Bass"),
    ])
    .expect("the ids differ");
    let ids: Vec<&str> = store.list().iter().map(|record| record.id.as_str()).collect();
    assert_eq!(ids, vec!["3", "1", "2"]);
}

#[test]
fn new_refuses_records_that_share_a_key() {
    let made = RecordStore::new(vec![album("1", "first", 2020), album("1", "second", 2021)]);
    assert_eq!(made.err(), Some(DuplicateKey { index: 1 }));
}

#[test]
fn new_names_the_first_record_that_repeats_a_key() {
    let made = RecordStore::new(vec![
        instrument("1", "a"),
        instrument("2", "b"),
        instrument("3", "c"),
        instrument("2", "d"),
        instrument("1", "e"),
    ]);
    assert_eq!(made.err(), Some(DuplicateKey { index: 3 }));
}

#[test]
fn new_accepts_records_that_differ_in_key_only() {
    let made = RecordStore::new(vec![instrument("1", "same"), instrument("2", "same")]);
    assert!(made.is_ok());
}

#[test]
fn lookups_by_many_callers_agree() {
    let store = two_albums();
    shared_by_threads(&store);
    let callers: Vec<&RecordStore<Album>> = vec![&store; 8];
    let expected_one = album("1", "album1", 2020);
    let expected_two = album("2", "album2", 2021);
    for round in 0..100 {
        for caller in &callers {
            assert_eq!(caller.find_by_id("1"), Some(&expected_one), "round {}", round);
            assert_eq!(caller.find_by_id("9"), None, "round {}", round);
            assert_eq!(caller.find_by_id("2"), Some(&expected_two), "round {}", round);
        }
    }
}

#[test]
fn str_eq_compares_character_by_character() {
    assert!(str_eq("", ""));
    assert!(str_eq("Album", "Album"));
    assert!(!str_eq("Album", "album"));
    assert!(!str_eq("Album", "Albums"));
    assert!(!str_eq("Albums", "Album"));
    assert!(!str_eq("", "a"));
    assert!(str_eq("日本語", "日本語"));
    assert!(!str_eq("日本語", "日本誤"));
    assert!(!str_eq("é", "e\u{301}"));
}
