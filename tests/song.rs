use mousai::{DateTime, ExternalLinkKey, ExternalLinks, Song, SongBuilder, SongId, SongRecord};

fn assert_song_eq(v1: &Song, v2: &Song) {
    assert_eq!(v1.id_ref(), v2.id_ref());
    assert_eq!(v1.title(), v2.title());
    assert_eq!(v1.artist(), v2.artist());
    assert_eq!(v1.album(), v2.album());
    assert_eq!(v1.release_date(), v2.release_date());
    let l1 = v1.external_links();
    let l2 = v2.external_links();
    assert_eq!(l1.len(), l2.len());
    for key in [
        ExternalLinkKey::AppleMusic,
        ExternalLinkKey::AudD,
        ExternalLinkKey::Spotify,
        ExternalLinkKey::YouTube,
    ] {
        assert_eq!(l1.get(key), l2.get(key));
    }
    assert_eq!(v1.album_art_link(), v2.album_art_link());
    assert_eq!(v1.playback_link(), v2.playback_link());
    assert_eq!(v1.lyrics(), v2.lyrics());
    assert_eq!(v1.last_heard(), v2.last_heard());
    assert_eq!(v1.is_newly_heard(), v2.is_newly_heard());
}

fn round_trip(song: &Song) -> Song {
    Song::from_record(&song.to_record(), &SongId::new("unused"))
}

#[test]
fn id_ref() {
    let song = Song::builder(
        &SongId::new("UniqueSongId"),
        "Some song",
        "Someone",
        "SomeAlbum",
    )
    .build();
    assert_eq!(&song.id(), song.id_ref());
}

#[test]
fn song_properties() {
    let song = Song::builder(
        &SongId::new("UniqueSongId"),
        "Some song",
        "Someone",
        "SomeAlbum",
    )
    .release_date("00-00-0000")
    .album_art_link("https://album.png")
    .playback_link("https://test.mp3")
    .lyrics("Some song lyrics")
    .newly_heard(true)
    .build();

    assert_eq!(song.title(), "Some song");
    assert_eq!(song.artist(), "Someone");
    assert_eq!(song.album(), "SomeAlbum");
    assert_eq!(song.release_date().as_deref(), Some("00-00-0000"));
    assert_eq!(song.album_art_link().as_deref(), Some("https://album.png"));
    assert_eq!(song.playback_link().as_deref(), Some("https://test.mp3"));
    assert_eq!(song.lyrics().as_deref(), Some("Some song lyrics"));
    assert!(song.is_newly_heard());
}

#[test]
fn serde_bincode() {
    let val = SongBuilder::new(&SongId::new("a"), "A Title", "A Artist", "A Album").build();
    assert_song_eq(&val, &round_trip(&val));

    let val = SongBuilder::new(&SongId::new("b"), "B Title", "B Artist", "B Album")
        .newly_heard(true)
        .build();
    assert_song_eq(&val, &round_trip(&val));

    let val = SongBuilder::new(&SongId::new("c"), "C Title", "C Artist", "C Album")
        .release_date("some value")
        .album_art_link("some value")
        .playback_link("some value")
        .lyrics("some value")
        .build();
    assert_song_eq(&val, &round_trip(&val));

    let mut val = SongBuilder::new(&SongId::new("d"), "D Title", "D Artist", "D Album").build();
    val.set_last_heard(DateTime::from_unix_micros(1_652_494_537_798_479));
    assert_song_eq(&val, &round_trip(&val));
}

#[test]
fn deserialize_without_song_id() {
    let record = SongRecord::empty();
    let song_1 = Song::from_record(&record, &SongId::new("fresh-1"));
    let song_2 = Song::from_record(&record, &SongId::new("fresh-2"));
    let song_3 = Song::from_record(&record, &SongId::new("fresh-3"));

    assert_ne!(song_1.id(), song_2.id());
    assert_ne!(song_2.id(), song_3.id());
}

/// 2022-05-14T10:15:37.798479+08
fn heard_in_utc_plus_8() -> DateTime {
    DateTime::new(1_652_494_537_798_479, 8 * 3600)
}

fn stored_record(is_newly_heard: bool) -> SongRecord {
    SongRecord {
        id: Some("UniqueSongId".to_string()),
        title: "Some song".to_string(),
        artist: "Someone".to_string(),
        album: "SomeAlbum".to_string(),
        release_date: Some("00-00-0000".to_string()),
        external_links: ExternalLinks::new(),
        album_art_link: Some("https://album.png".to_string()),
        playback_link: Some("https://test.mp3".to_string()),
        lyrics: Some("Some song lyrics".to_string()),
        last_heard: Some(heard_in_utc_plus_8()),
        is_newly_heard,
    }
}

#[test]
fn song_deserialize() {
    let song = Song::from_record(&stored_record(true), &SongId::new("unused"));

    assert_eq!(song.id_ref(), &SongId::new("UniqueSongId"));
    assert_eq!(song.title(), "Some song");
    assert_eq!(song.artist(), "Someone");
    assert_eq!(song.album(), "SomeAlbum");
    assert_eq!(song.release_date().as_deref(), Some("00-00-0000"));
    assert_eq!(song.external_links().len(), 0);
    assert_eq!(song.album_art_link().as_deref(), Some("https://album.png"));
    assert_eq!(song.playback_link().as_deref(), Some("https://test.mp3"));
    assert_eq!(song.lyrics().as_deref(), Some("Some song lyrics"));
    assert_eq!(song.last_heard(), Some(heard_in_utc_plus_8()));
    assert_eq!(song.last_heard().unwrap().offset_seconds, 28_800);
    assert!(song.is_newly_heard());
}

#[test]
fn song_deserialize_without_newly_heard() {
    let song = Song::from_record(&stored_record(false), &SongId::new("unused"));
    assert_eq!(song.id(), SongId::new("UniqueSongId"));
    assert_eq!(song.last_heard(), Some(heard_in_utc_plus_8()));
    assert_eq!(song.title(), "Some song");
    assert_eq!(song.external_links().len(), 0);
    assert!(!song.is_newly_heard());
}

#[test]
fn last_heard_keeps_its_offset() {
    let mut song = Song::builder(&SongId::new("x"), "T", "A", "B").build();
    song.set_last_heard(heard_in_utc_plus_8());
    assert!(song.set_last_heard(DateTime::new(1_652_494_537_798_479, 0)));
    assert_eq!(song.last_heard().unwrap().offset_seconds, 0);
    let back = round_trip(&song);
    assert_eq!(back.last_heard(), Some(DateTime::new(1_652_494_537_798_479, 0)));
}

#[test]
fn record_round_trip_with_every_field() {
    let mut links = ExternalLinks::new();
    links.insert(ExternalLinkKey::Spotify, "https://spotify/x".to_string());
    let mut song = Song::builder(&SongId::new("full"), "T", "A", "B")
        .release_date("2020")
        .album_art_link("https://art")
        .playback_link("https://play")
        .lyrics("la la")
        .external_link(ExternalLinkKey::YouTube, "https://yt/x".to_string())
        .external_link(ExternalLinkKey::AudD, "https://audd/x".to_string())
        .newly_heard(true)
        .build();
    song.set_last_heard(DateTime::new(42, -5 * 3600));
    let back = round_trip(&song);
    assert_song_eq(&song, &back);
    assert_eq!(back.external_links().len(), 2);
    assert_eq!(back.id().as_str(), "full");
}

#[test]
fn record_with_every_field_absent_defaults() {
    let song = Song::from_record(&SongRecord::empty(), &SongId::new("fresh"));
    assert_eq!(song.id().as_str(), "fresh");
    assert_eq!(song.title(), "");
    assert_eq!(song.artist(), "");
    assert_eq!(song.album(), "");
    assert_eq!(song.release_date(), None);
    assert_eq!(song.external_links().len(), 0);
    assert_eq!(song.album_art_link(), None);
    assert_eq!(song.playback_link(), None);
    assert_eq!(song.lyrics(), None);
    assert_eq!(song.last_heard(), None);
    assert!(!song.is_newly_heard());
    let back = round_trip(&song);
    assert_song_eq(&song, &back);
}

#[test]
fn copy_and_search_terms() {
    let song = Song::builder(&SongId::new("x"), "Imagine", "John Lennon", "Imagine").build();
    assert_eq!(song.copy_term(), "John Lennon - Imagine");
    assert_eq!(song.search_term(), "John Lennon Imagine");
    assert_eq!(song.search_choice(), "John Lennon Imagine");
}

#[test]
fn fuzzy_match_scores_artist_and_title() {
    let song = Song::builder(&SongId::new("x"), "Imagine", "John Lennon", "Imagine").build();
    assert_eq!(song.fuzzy_match(""), Some(0));
    assert!(song.fuzzy_match("lennon").unwrap() > 0);
    assert_eq!(song.fuzzy_match("queen"), None);
}

#[test]
fn setters_report_changes() {
    let mut song = Song::builder(&SongId::new("x"), "T", "A", "B").build();
    assert!(song.set_last_heard(DateTime::from_unix_micros(5)));
    assert!(!song.set_last_heard(DateTime::from_unix_micros(5)));
    assert!(song.set_is_newly_heard(true));
    assert!(!song.set_is_newly_heard(true));
    assert_eq!(song.last_heard(), Some(DateTime::from_unix_micros(5)));
}

#[test]
fn external_links_keep_one_link_per_provider() {
    let mut links = ExternalLinks::new();
    assert_eq!(links.len(), 0);
    links.insert(ExternalLinkKey::Spotify, "one".to_string());
    links.insert(ExternalLinkKey::Spotify, "two".to_string());
    links.insert(ExternalLinkKey::AppleMusic, "three".to_string());
    assert_eq!(links.len(), 2);
    assert_eq!(links.get(ExternalLinkKey::Spotify).map(|s| s.as_str()), Some("two"));
    assert_eq!(links.get(ExternalLinkKey::YouTube), None);
}

#[test]
fn date_time_order() {
    let a = DateTime::from_unix_micros(10);
    let b = DateTime::from_unix_micros(20);
    assert!(b.is_after(&a));
    assert!(!a.is_after(&b));
    assert!(!a.is_after(&a));
}
