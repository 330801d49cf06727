use mousai::{
    handle_bus_message, BusMessage, BusReaction, Recorder, find_same, plan_recognized, song_key, DateTime, ExternalLinks, RecognizeSession, SongId,
    SongMetadata, SongStore, StateKind, StoreError, StoreWrite, Verdict, SessionState,
};

fn metadata(title: &str, artist: &str, album: &str) -> SongMetadata {
    SongMetadata {
        title: title.to_string(),
        artist: artist.to_string(),
        album: album.to_string(),
        release_date: Some("1975".to_string()),
        external_links: ExternalLinks::new(),
        album_art_link: None,
        playback_link: None,
        lyrics: None,
    }
}

fn record(store: &mut SongStore, m: &SongMetadata, t: i64, id: &str) -> Option<bool> {
    let w = plan_recognized(store, m, DateTime::from_unix_micros(t), &SongId::new(id)).unwrap();
    let inserted = matches!(w, Some(StoreWrite::Insert(_)));
    let w = w?;
    store.commit(w, Ok(())).unwrap();
    Some(inserted)
}

#[test]
fn end_to_end_recognition_then_repeat() {
    let mut session = RecognizeSession::new();
    let mut store = SongStore::new();
    let mut recorder = Recorder::new();
    let mut peaks: Vec<f64> = Vec::new();

    session.listen(DateTime::from_unix_micros(0)).unwrap();
    recorder.start(None).unwrap();
    for (message, db) in [
        (BusMessage::Level, -20.0_f64),
        (BusMessage::StateChanged, 0.0),
        (BusMessage::Level, -10.0),
        (BusMessage::Level, -6.0),
    ] {
        if handle_bus_message(message) == BusReaction::ReportPeak {
            peaks.push(10_f64.powf(db / 20.0));
        }
    }
    assert_eq!(peaks.len(), 3);
    recorder.write(&[0x4f, 0x67, 0x67, 0x53]).unwrap();
    let clip = recorder.stop().unwrap();
    let token = session.stop(clip).unwrap();
    assert_eq!(session.state_kind(), StateKind::Recognizing);
    session.on_response(token, Ok(Verdict::Match(metadata("Song X", "Artist Y", "Album Z"))));
    let m = match session.state() {
        SessionState::Succeeded { song } => song,
        other => panic!("unexpected state {:?}", other),
    };
    assert_eq!(record(&mut store, m, 100, "id-1"), Some(true));
    assert_eq!(store.len(), 1);
    assert!(store.get(0).is_newly_heard());
    assert_eq!(store.get(0).last_heard(), Some(DateTime::from_unix_micros(100)));
    assert_eq!(store.get(0).release_date().as_deref(), Some("1975"));

    // acknowledge, then a second identical recognition
    let w = store.plan_set_newly_heard(&SongId::new("id-1"), false).unwrap().unwrap();
    store.commit(w, Ok(())).unwrap();
    session.listen(DateTime::from_unix_micros(200)).unwrap();
    let token = session.stop(vec![1]).unwrap();
    session.on_response(token, Ok(Verdict::Match(metadata("Song X", "Artist Y", "Album Z"))));
    let m = match session.state() {
        SessionState::Succeeded { song } => song,
        other => panic!("unexpected state {:?}", other),
    };
    assert_eq!(record(&mut store, m, 300, "id-2"), Some(false));
    assert_eq!(store.len(), 1);
    assert_eq!(store.get(0).id().as_str(), "id-1");
    assert_eq!(store.get(0).last_heard(), Some(DateTime::from_unix_micros(300)));
    assert!(store.get(0).is_newly_heard());
}

#[test]
fn lookup_ignores_case() {
    let mut store = SongStore::new();
    record(&mut store, &metadata("Song X", "Artist Y", "Album Z"), 1, "a");
    assert_eq!(find_same(&store, &metadata("SONG x", "artist y", "ALBUM Z")), Some(0));
    assert_eq!(find_same(&store, &metadata("Song X", "Artist Y", "Other")), None);
    assert_eq!(record(&mut store, &metadata("song x", "ARTIST Y", "album z"), 2, "b"), Some(false));
    assert_eq!(store.len(), 1);
}

#[test]
fn same_time_repeat_needs_no_write() {
    let mut store = SongStore::new();
    record(&mut store, &metadata("S", "A", "B"), 7, "a");
    assert_eq!(record(&mut store, &metadata("S", "A", "B"), 7, "b"), None);
}

#[test]
fn new_id_already_taken() {
    let mut store = SongStore::new();
    record(&mut store, &metadata("S", "A", "B"), 7, "a");
    let r = plan_recognized(&store, &metadata("T", "A", "B"), DateTime::from_unix_micros(8), &SongId::new("a"));
    assert!(matches!(r, Err(StoreError::DuplicateId)));
}

#[test]
fn song_key_lowercases_each_field() {
    let k = song_key("ÀBC", "Déf", "GHI");
    assert_eq!(k.title, "àbc");
    assert_eq!(k.artist, "déf");
    assert_eq!(k.album, "ghi");
}
