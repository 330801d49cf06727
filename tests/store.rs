use mousai::{DateTime, SearchHit, Song, SongId, SongStore, StoreError, StoreWrite};

fn song(id: &str, title: &str, artist: &str) -> Song {
    Song::builder(&SongId::new(id), title, artist, "Album").build()
}

fn insert(store: &mut SongStore, s: Song) -> Result<(), StoreError> {
    let w = store.plan_insert(s)?;
    store.commit(w, Ok(()))
}

fn touch(store: &mut SongStore, id: &str, t: i64, newly: bool) -> Result<bool, StoreError> {
    match store.plan_touch(&SongId::new(id), DateTime::from_unix_micros(t), newly)? {
        Some(w) => store.commit(w, Ok(())).map(|_| true),
        None => Ok(false),
    }
}

#[test]
fn same_content_different_ids_are_two_entries() {
    let mut store = SongStore::new();
    insert(&mut store, song("a", "Imagine", "John Lennon")).unwrap();
    insert(&mut store, song("b", "Imagine", "John Lennon")).unwrap();
    assert_eq!(store.len(), 2);
    assert_eq!(store.get(0).id().as_str(), "a");
    assert_eq!(store.get(1).id().as_str(), "b");
}

#[test]
fn duplicate_id_is_refused() {
    let mut store = SongStore::new();
    insert(&mut store, song("a", "One", "X")).unwrap();
    assert_eq!(insert(&mut store, song("a", "Two", "Y")), Err(StoreError::DuplicateId));
    assert_eq!(store.len(), 1);
    assert_eq!(store.get(0).title(), "One");
}

#[test]
fn touch_twice_is_idempotent() {
    let mut store = SongStore::new();
    insert(&mut store, song("a", "One", "X")).unwrap();
    assert_eq!(touch(&mut store, "a", 100, true), Ok(true));
    assert_eq!(touch(&mut store, "a", 100, true), Ok(false));
    let s = store.get(0);
    assert_eq!(s.last_heard(), Some(DateTime::from_unix_micros(100)));
    assert!(s.is_newly_heard());
    assert_eq!(store.len(), 1);
}

#[test]
fn touch_and_remove_unknown_id_fail() {
    let mut store = SongStore::new();
    assert_eq!(touch(&mut store, "nope", 1, true), Err(StoreError::NotFound));
    assert!(matches!(store.plan_remove(&SongId::new("nope")), Err(StoreError::NotFound)));
    assert!(matches!(
        store.plan_set_newly_heard(&SongId::new("nope"), false),
        Err(StoreError::NotFound)
    ));
}

#[test]
fn failed_persist_leaves_store_unchanged() {
    let mut store = SongStore::new();
    let w = store.plan_insert(song("a", "One", "X")).unwrap();
    assert_eq!(
        store.commit(w, Err("disk full".to_string())),
        Err(StoreError::Persist("disk full".to_string()))
    );
    assert_eq!(store.len(), 0);

    insert(&mut store, song("a", "One", "X")).unwrap();
    let w = store.plan_touch(&SongId::new("a"), DateTime::from_unix_micros(9), true).unwrap().unwrap();
    assert!(store.commit(w, Err("locked".to_string())).is_err());
    assert_eq!(store.get(0).last_heard(), None);
}

#[test]
fn stale_write_is_refused_on_commit() {
    let mut store = SongStore::new();
    let w = store.plan_insert(song("a", "One", "X")).unwrap();
    insert(&mut store, song("a", "Other", "Y")).unwrap();
    assert_eq!(store.commit(w, Ok(())), Err(StoreError::DuplicateId));
    let w = StoreWrite::Remove(SongId::new("zzz"));
    assert_eq!(store.commit(w, Ok(())), Err(StoreError::NotFound));
}

#[test]
fn remove_and_acknowledge() {
    let mut store = SongStore::new();
    insert(&mut store, song("a", "One", "X")).unwrap();
    insert(&mut store, song("b", "Two", "Y")).unwrap();
    touch(&mut store, "b", 5, true).unwrap();
    let w = store.plan_set_newly_heard(&SongId::new("b"), false).unwrap().unwrap();
    store.commit(w, Ok(())).unwrap();
    assert!(!store.get(1).is_newly_heard());
    assert!(store.plan_set_newly_heard(&SongId::new("b"), false).unwrap().is_none());
    let w = store.plan_remove(&SongId::new("a")).unwrap();
    store.commit(w, Ok(())).unwrap();
    assert_eq!(store.len(), 1);
    assert_eq!(store.get(0).id().as_str(), "b");
    assert!(store.find(&SongId::new("a")).is_none());
    assert_eq!(store.position(&SongId::new("b")), Some(0));
}

#[test]
fn search_ranks_queen_songs_by_recency() {
    let mut store = SongStore::new();
    insert(&mut store, song("1", "Bohemian Rhapsody", "Queen")).unwrap();
    insert(&mut store, song("2", "Radio Ga Ga", "Queen")).unwrap();
    insert(&mut store, song("3", "Imagine", "John Lennon")).unwrap();
    touch(&mut store, "1", 100, false).unwrap();
    touch(&mut store, "2", 200, false).unwrap();
    touch(&mut store, "3", 300, false).unwrap();

    let hits = store.search("quee");
    assert_eq!(hits.len(), 2);
    assert_eq!(hits[0].index, 1);
    assert_eq!(hits[1].index, 0);
    assert_eq!(hits[0].score, hits[1].score);
    assert_eq!(store.all().len(), 3);
    assert_eq!(store.all()[2].title(), "Imagine");
}

#[test]
fn rank_orders_by_score_then_recency_then_position() {
    let mut store = SongStore::new();
    insert(&mut store, song("1", "A", "A")).unwrap();
    insert(&mut store, song("2", "B", "B")).unwrap();
    insert(&mut store, song("3", "C", "C")).unwrap();
    insert(&mut store, song("4", "D", "D")).unwrap();
    touch(&mut store, "3", 50, false).unwrap();
    let hits = store.rank(&vec![Some(10), None, Some(10), Some(20)]);
    assert_eq!(
        hits,
        vec![
            SearchHit { index: 3, score: 20 },
            SearchHit { index: 2, score: 10 },
            SearchHit { index: 0, score: 10 },
        ]
    );
    assert_eq!(store.rank(&vec![None, None, None, None]), vec![]);
}

#[test]
fn empty_pattern_matches_everything() {
    let mut store = SongStore::new();
    insert(&mut store, song("1", "A", "A")).unwrap();
    insert(&mut store, song("2", "B", "B")).unwrap();
    let hits = store.search("");
    assert_eq!(hits, vec![SearchHit { index: 0, score: 0 }, SearchHit { index: 1, score: 0 }]);
    assert!(SongStore::new().search("x").is_empty());
}
