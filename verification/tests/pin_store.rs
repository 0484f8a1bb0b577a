use spotify_cli::storage::pins::pin::Pin;
use spotify_cli::storage::pins::resource_type::ResourceType;
use spotify_cli::storage::pins::store::{PinError, PinStore};
use spotify_cli::storage::scoring::{name_match, pin_match};

fn make_pin(alias: &str, id: &str, resource_type: ResourceType, tags: Vec<&str>) -> Pin {
    Pin::new(resource_type, id.to_string(), alias.to_string(), tags.into_iter().map(String::from).collect())
}

#[test]
fn pin_store_add_and_list() {
    let mut store = PinStore::default();

    let pin = make_pin("favorite", "track123", ResourceType::Track, vec![]);
    store.add(pin).unwrap();

    let pins = store.list(None);
    assert_eq!(pins.len(), 1);
    assert_eq!(pins[0].alias, "favorite");
}

#[test]
fn pin_store_add_duplicate_fails() {
    let mut store = PinStore::default();

    let pin1 = make_pin("favorite", "track123", ResourceType::Track, vec![]);
    let pin2 = make_pin("FAVORITE", "track456", ResourceType::Track, vec![]);

    store.add(pin1).unwrap();
    let result = store.add(pin2);

    assert!(matches!(result, Err(PinError::AlreadyExists(_))));
}

#[test]
fn pin_store_remove_by_alias() {
    let mut store = PinStore::default();

    store.add(make_pin("favorite", "track123", ResourceType::Track, vec![])).unwrap();
    store.add(make_pin("chill", "track456", ResourceType::Track, vec![])).unwrap();

    let removed = store.remove("favorite").unwrap();
    assert_eq!(removed.alias, "favorite");
    assert_eq!(store.list(None).len(), 1);
}

#[test]
fn pin_store_remove_by_id() {
    let mut store = PinStore::default();

    store.add(make_pin("favorite", "track123", ResourceType::Track, vec![])).unwrap();

    let removed = store.remove("track123").unwrap();
    assert_eq!(removed.id, "track123");
}

#[test]
fn pin_store_remove_not_found() {
    let mut store = PinStore::default();

    let result = store.remove("nonexistent");
    assert!(matches!(result, Err(PinError::NotFound(_))));
}

#[test]
fn pin_store_list_with_filter() {
    let mut store = PinStore::default();

    store.add(make_pin("track1", "t1", ResourceType::Track, vec![])).unwrap();
    store.add(make_pin("playlist1", "p1", ResourceType::Playlist, vec![])).unwrap();
    store.add(make_pin("track2", "t2", ResourceType::Track, vec![])).unwrap();

    let tracks = store.list(Some(ResourceType::Track));
    assert_eq!(tracks.len(), 2);

    let playlists = store.list(Some(ResourceType::Playlist));
    assert_eq!(playlists.len(), 1);
}

#[test]
fn pin_store_find_by_alias() {
    let mut store = PinStore::default();

    store.add(make_pin("MyFavorite", "track123", ResourceType::Track, vec![])).unwrap();

    let found = store.find_by_alias("myfavorite");
    assert!(found.is_some());
    assert_eq!(found.unwrap().id, "track123");
}

#[test]
fn pin_store_find_by_alias_not_found() {
    let store = PinStore::default();

    let found = store.find_by_alias("nonexistent");
    assert!(found.is_none());
}

#[test]
fn pin_store_all() {
    let mut store = PinStore::default();

    store.add(make_pin("pin1", "id1", ResourceType::Track, vec![])).unwrap();
    store.add(make_pin("pin2", "id2", ResourceType::Album, vec![])).unwrap();

    assert_eq!(store.all().len(), 2);
}

#[test]
fn pin_store_fuzzy_search() {
    let mut store = PinStore::default();

    store.add(make_pin("favorite song", "t1", ResourceType::Track, vec!["rock"])).unwrap();
    store.add(make_pin("chill vibes", "t2", ResourceType::Track, vec!["chill"])).unwrap();
    store.add(make_pin("workout mix", "p1", ResourceType::Playlist, vec!["gym"])).unwrap();

    let facts = store.fuzzy_facts("favorite");
    assert_eq!(facts.len(), 3);
    // The first pin matches by prefix; the others share nothing with the query.
    assert!(facts[0].alias.starts_with && facts[0].alias.contains);
    assert_eq!(facts[0].alias.word_hits, 1);
    assert!(!facts[1].alias.contains && facts[1].alias.word_hits == 0);
    assert!(!facts[2].alias.contains && facts[2].alias.word_hits == 0);
}

#[test]
fn pin_store_fuzzy_search_by_tag() {
    let mut store = PinStore::default();

    store.add(make_pin("some track", "t1", ResourceType::Track, vec!["rock", "metal"])).unwrap();

    let facts = store.fuzzy_facts("rock");
    assert_eq!(facts.len(), 1);
    assert_eq!(facts[0].tag_hits, vec![(1, 0)]);
}

#[test]
fn fuzzy_facts_lowercase_the_query() {
    let mut store = PinStore::default();
    store.add(make_pin("Favorite Rock Song", "t1", ResourceType::Track, vec!["Rock"])).unwrap();
    let facts = store.fuzzy_facts("FAVORITE ROCK");
    assert!(facts[0].alias.starts_with);
    assert!(!facts[0].alias.exact);
    assert_eq!(facts[0].alias.word_hits, 2);
    assert_eq!(facts[0].tag_hits, vec![(0, 0), (1, 0)]);
}

#[test]
fn name_match_exact_ignoring_case() {
    let m = name_match("TOOL", "tool");
    assert!(m.exact && m.starts_with && m.contains);
    assert_eq!(m.word_hits, 1);
    assert_eq!(m.distance, Some(0));
    assert_eq!(m.max_len, 4);
}

#[test]
fn name_match_prefix_and_distance() {
    let m = name_match("TOOL - Lateralus", "tool");
    assert!(!m.exact && m.starts_with && m.contains);
    assert_eq!(m.distance, Some(12));
    assert_eq!(m.max_len, 16);

    let w = name_match("rock and roll", "rock roll");
    assert!(!w.starts_with && !w.contains);
    assert_eq!(w.word_hits, 2);

    let n = name_match("Weezer", "tool");
    assert!(!n.exact && !n.starts_with && !n.contains);
    assert_eq!(n.word_hits, 0);
    assert_eq!(n.distance, Some(6));
    assert_eq!(n.max_len, 6);
}

#[test]
fn pin_match_counts_exact_and_partial_tags_per_word() {
    let tags = vec!["Alternative Rock".to_string(), "rock".to_string(), "chill".to_string()];
    let m = pin_match("My Track", &tags, "rock chill");
    assert_eq!(m.tag_hits, vec![(1, 1), (1, 0)]);
    assert!(!m.alias.contains);
    assert_eq!(m.alias.word_hits, 0);
}

#[test]
fn pin_match_empty_query_has_no_words() {
    let m = pin_match("anything", &vec!["x".to_string()], "");
    assert!(m.tag_hits.is_empty());
    assert!(m.alias.starts_with && m.alias.contains && !m.alias.exact);
    assert_eq!(m.alias.distance, Some(8));
}
