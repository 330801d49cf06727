use vstd::prelude::*;

use crate::song::{DateTime, ExternalLinkKey, ExternalLinks, Song, SongId, SongView};

verus! {

/// The durable form of a song, field by field. A record read from storage
/// may lack its id.
#[derive(Debug)]
pub struct SongRecord {
    pub id: Option<String>,
    pub title: String,
    pub artist: String,
    pub album: String,
    pub release_date: Option<String>,
    pub external_links: ExternalLinks,
    pub album_art_link: Option<String>,
    pub playback_link: Option<String>,
    pub lyrics: Option<String>,
    pub last_heard: Option<DateTime>,
    pub is_newly_heard: bool,
}

pub struct SongRecordView {
    pub id: Option<Seq<char>>,
    pub title: Seq<char>,
    pub artist: Seq<char>,
    pub album: Seq<char>,
    pub release_date: Option<Seq<char>>,
    pub external_links: Map<ExternalLinkKey, Seq<char>>,
    pub album_art_link: Option<Seq<char>>,
    pub playback_link: Option<Seq<char>>,
    pub lyrics: Option<Seq<char>>,
    pub last_heard: Option<DateTime>,
    pub is_newly_heard: bool,
}

impl View for SongRecord {
    type V = SongRecordView;

    open spec fn view(&self) -> SongRecordView {
        SongRecordView {
            id: self.id.deep_view(),
            title: self.title@,
            artist: self.artist@,
            album: self.album@,
            release_date: self.release_date.deep_view(),
            external_links: self.external_links@,
            album_art_link: self.album_art_link.deep_view(),
            playback_link: self.playback_link.deep_view(),
            lyrics: self.lyrics.deep_view(),
            last_heard: self.last_heard,
            is_newly_heard: self.is_newly_heard,
        }
    }
}

/// The record that stores `s`.
pub open spec fn record_of(s: SongView) -> SongRecordView {
    SongRecordView {
        id: Some(s.id),
        title: s.title,
        artist: s.artist,
        album: s.album,
        release_date: s.release_date,
        external_links: s.external_links,
        album_art_link: s.album_art_link,
        playback_link: s.playback_link,
        lyrics: s.lyrics,
        last_heard: s.last_heard,
        is_newly_heard: s.is_newly_heard,
    }
}

/// The song that record `r` holds; `fresh_id` stands in for a missing id.
pub open spec fn song_of(r: SongRecordView, fresh_id: Seq<char>) -> SongView {
    SongView {
        id: match r.id {
            Some(i) => i,
            None => fresh_id,
        },
        title: r.title,
        artist: r.artist,
        album: r.album,
        release_date: r.release_date,
        external_links: r.external_links,
        album_art_link: r.album_art_link,
        playback_link: r.playback_link,
        lyrics: r.lyrics,
        last_heard: r.last_heard,
        is_newly_heard: r.is_newly_heard,
    }
}

/// A record with every field absent or empty.
pub open spec fn empty_record() -> SongRecordView {
    SongRecordView {
        id: None,
        title: Seq::empty(),
        artist: Seq::empty(),
        album: Seq::empty(),
        release_date: None,
        external_links: Map::empty(),
        album_art_link: None,
        playback_link: None,
        lyrics: None,
        last_heard: None,
        is_newly_heard: false,
    }
}

impl SongRecord {
    /// A record with every field absent or empty.
    pub fn empty() -> (r: SongRecord)
        ensures
            r@ == empty_record(),
    {
        SongRecord {
            id: None,
            title: String::new(),
            artist: String::new(),
            album: String::new(),
            release_date: None,
            external_links: ExternalLinks::new(),
            album_art_link: None,
            playback_link: None,
            lyrics: None,
            last_heard: None,
            is_newly_heard: false,
        }
    }
}

impl Song {
    /// The durable record of this song.
    pub fn to_record(&self) -> (r: SongRecord)
        ensures
            r@ == record_of(self@),
    {
        SongRecord {
            id: Some(self.id().as_str().to_owned()),
            title: self.title(),
            artist: self.artist(),
            album: self.album(),
            release_date: self.release_date(),
            external_links: self.external_links(),
            album_art_link: self.album_art_link(),
            playback_link: self.playback_link(),
            lyrics: self.lyrics(),
            last_heard: self.last_heard(),
            is_newly_heard: self.is_newly_heard(),
        }
    }

    /// The song that `record` holds; a record without an id gets `fresh_id`.
    pub fn from_record(record: &SongRecord, fresh_id: &SongId) -> (r: Song)
        ensures
            r@ == song_of(record@, fresh_id@),
    {
        let id = match &record.id {
            Some(i) => SongId::new(i.as_str()),
            None => fresh_id.duplicate(),
        };
        let mut b = Song::builder(&id, record.title.as_str(), record.artist.as_str(), record.album.as_str());
        b.newly_heard(record.is_newly_heard);
        if let Some(v) = &record.release_date {
            b.release_date(v.as_str());
        }
        if let Some(v) = &record.album_art_link {
            b.album_art_link(v.as_str());
        }
        if let Some(v) = &record.playback_link {
            b.playback_link(v.as_str());
        }
        if let Some(v) = &record.lyrics {
            b.lyrics(v.as_str());
        }
        b.external_links(record.external_links.duplicate());
        let mut song = b.build();
        if let Some(t) = record.last_heard {
            song.set_last_heard(t);
        }
        song
    }
}

/// Storing a song and reading it back gives the same song, whichever id
/// would stand in for a missing one.
pub proof fn lemma_record_round_trip(s: SongView, fresh_id: Seq<char>)
    ensures
        song_of(record_of(s), fresh_id) == s,
{
}

/// A record with every field absent reads back as a song with every optional
/// field absent, no links, never heard, not newly heard, and the stand-in id.
pub proof fn lemma_empty_record_defaults(fresh_id: Seq<char>)
    ensures
        song_of(empty_record(), fresh_id) == (SongView {
            id: fresh_id,
            title: Seq::empty(),
            artist: Seq::empty(),
            album: Seq::empty(),
            release_date: None,
            external_links: Map::empty(),
            album_art_link: None,
            playback_link: None,
            lyrics: None,
            last_heard: None,
            is_newly_heard: false,
        }),
{
}

} // verus!
