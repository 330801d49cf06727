use vstd::prelude::*;
use vstd::string::*;

use crate::fuzzy::{skim_fuzzy_match, skim_score};

verus! {

/// Opaque unique identifier of a song.
#[derive(Debug)]
pub struct SongId {
    id: String,
}

impl View for SongId {
    type V = Seq<char>;

    closed spec fn view(&self) -> Seq<char> {
        self.id@
    }
}

impl SongId {
    pub fn new(id: &str) -> (r: SongId)
        ensures
            r@ == id@,
    {
        SongId { id: id.to_owned() }
    }

    pub fn as_str(&self) -> (r: &str)
        ensures
            r@ == self@,
    {
        self.id.as_str()
    }

    /// Whether both identifiers are the same.
    pub fn is_same(&self, other: &SongId) -> (r: bool)
        ensures
            r == (self@ == other@),
    {
        self.id == other.id
    }

    pub fn duplicate(&self) -> (r: SongId)
        ensures
            r@ == self@,
    {
        SongId { id: self.id.clone() }
    }
}

impl PartialEq for SongId {
    fn eq(&self, other: &SongId) -> (r: bool) {
        self.id == other.id
    }
}

impl vstd::std_specs::cmp::PartialEqSpecImpl for SongId {
    open spec fn obeys_eq_spec() -> bool {
        true
    }

    open spec fn eq_spec(&self, other: &SongId) -> bool {
        self@ == other@
    }
}

/// A point in time: microseconds since the Unix epoch (UTC), and the offset
/// from UTC, in seconds, of the local time it was recorded in.
#[derive(Clone, Copy, Debug, PartialEq, Eq, Structural)]
pub struct DateTime {
    pub unix_micros: i64,
    pub offset_seconds: i32,
}

impl DateTime {
    pub fn new(unix_micros: i64, offset_seconds: i32) -> (r: DateTime)
        ensures
            r.unix_micros == unix_micros,
            r.offset_seconds == offset_seconds,
    {
        DateTime { unix_micros, offset_seconds }
    }

    /// A point in time recorded in UTC.
    pub fn from_unix_micros(unix_micros: i64) -> (r: DateTime)
        ensures
            r.unix_micros == unix_micros,
            r.offset_seconds == 0,
    {
        DateTime { unix_micros, offset_seconds: 0 }
    }

/// Whether `self` is strictly later than `other`.
    pub fn is_after(&self, other: &DateTime) -> (r: bool)
        ensures
            r == (self.unix_micros > other.unix_micros),
    {
        self.unix_micros > other.unix_micros
    }
}


/// Providers that a song can link to.
#[derive(Clone, Copy, Debug, PartialEq, Eq, Structural)]
pub enum ExternalLinkKey {
    AppleMusic,
    AudD,
    Spotify,
    YouTube,
}

/// Provider-keyed links of a song: at most one link per provider.
#[derive(Debug)]
pub struct ExternalLinks {
    apple_music: Option<String>,
    audd: Option<String>,
    spotify: Option<String>,
    youtube: Option<String>,
}

impl ExternalLinks {
    pub closed spec fn slot(&self, key: ExternalLinkKey) -> Option<Seq<char>> {
        match key {
            ExternalLinkKey::AppleMusic => self.apple_music.deep_view(),
            ExternalLinkKey::AudD => self.audd.deep_view(),
            ExternalLinkKey::Spotify => self.spotify.deep_view(),
            ExternalLinkKey::YouTube => self.youtube.deep_view(),
        }
    }
}

impl View for ExternalLinks {
    type V = Map<ExternalLinkKey, Seq<char>>;

    closed spec fn view(&self) -> Map<ExternalLinkKey, Seq<char>> {
        Map::new(|k: ExternalLinkKey| self.slot(k) is Some, |k: ExternalLinkKey| self.slot(k)->0)
    }
}

pub(crate) fn copy_opt(o: &Option<String>) -> (r: Option<String>)
    ensures
        r.deep_view() == o.deep_view(),
{
    match o {
        Some(s) => Some(s.clone()),
        None => None,
    }
}

impl ExternalLinks {
    pub fn new() -> (r: ExternalLinks)
        ensures
            r@ == Map::<ExternalLinkKey, Seq<char>>::empty(),
    {
        let r = ExternalLinks { apple_music: None, audd: None, spotify: None, youtube: None };
        assert(r@ =~= Map::<ExternalLinkKey, Seq<char>>::empty());
        r
    }

    /// Sets the link of `key`, replacing any earlier one.
    pub fn insert(&mut self, key: ExternalLinkKey, value: String)
        ensures
            final(self)@ == old(self)@.insert(key, value@),
    {
        match key {
            ExternalLinkKey::AppleMusic => self.apple_music = Some(value),
            ExternalLinkKey::AudD => self.audd = Some(value),
            ExternalLinkKey::Spotify => self.spotify = Some(value),
            ExternalLinkKey::YouTube => self.youtube = Some(value),
        }
        assert(self@ =~= old(self)@.insert(key, value@));
    }

    pub fn get(&self, key: ExternalLinkKey) -> (r: Option<&String>)
        ensures
            r is Some <==> self@.contains_key(key),
            r is Some ==> r->0@ == self@[key],
    {
        match key {
            ExternalLinkKey::AppleMusic => self.apple_music.as_ref(),
            ExternalLinkKey::AudD => self.audd.as_ref(),
            ExternalLinkKey::Spotify => self.spotify.as_ref(),
            ExternalLinkKey::YouTube => self.youtube.as_ref(),
        }
    }

    /// Number of providers with a link.
    pub fn len(&self) -> (r: usize)
        ensures
            r == self@.dom().len(),
    {
        let mut n: usize = 0;
        if self.apple_music.is_some() {
            n = n + 1;
        }
        if self.audd.is_some() {
            n = n + 1;
        }
        if self.spotify.is_some() {
            n = n + 1;
        }
        if self.youtube.is_some() {
            n = n + 1;
        }
        proof {
            lemma_links_len(self);
        }
        n
    }

    pub fn duplicate(&self) -> (r: ExternalLinks)
        ensures
            r@ == self@,
    {
        let r = ExternalLinks {
            apple_music: copy_opt(&self.apple_music),
            audd: copy_opt(&self.audd),
            spotify: copy_opt(&self.spotify),
            youtube: copy_opt(&self.youtube),
        };
        assert(r@ =~= self@);
        r
    }
}

spec fn present(o: Option<String>) -> nat {
    if o is Some { 1 } else { 0 }
}

proof fn lemma_links_len(l: &ExternalLinks)
    ensures
        l@.dom().len() == present(l.apple_music) + present(l.audd) + present(l.spotify)
            + present(l.youtube),
{
    let s1: Set<ExternalLinkKey> = if l.apple_music is Some { set![ExternalLinkKey::AppleMusic] } else { Set::empty() };
    let s2: Set<ExternalLinkKey> = if l.audd is Some { s1.insert(ExternalLinkKey::AudD) } else { s1 };
    let s3: Set<ExternalLinkKey> = if l.spotify is Some { s2.insert(ExternalLinkKey::Spotify) } else { s2 };
    let s4: Set<ExternalLinkKey> = if l.youtube is Some { s3.insert(ExternalLinkKey::YouTube) } else { s3 };
    assert(l@.dom() =~= s4);
}


/// The mathematical content of a song.
pub struct SongView {
    pub id: Seq<char>,
    pub title: Seq<char>,
    pub artist: Seq<char>,
    pub album: Seq<char>,
    pub release_date: Option<Seq<char>>,
    pub external_links: Map<ExternalLinkKey, Seq<char>>,
    pub album_art_link: Option<Seq<char>>,
    pub playback_link: Option<Seq<char>>,
    pub lyrics: Option<Seq<char>>,
    pub last_heard: Option<DateTime>,
    pub is_newly_heard: bool,
}

/// A recognized song. Its id is its identity; only the last-heard time and
/// the newly-heard flag change after construction.
#[derive(Debug)]
pub struct Song {
    id: SongId,
    title: String,
    artist: String,
    album: String,
    release_date: Option<String>,
    external_links: ExternalLinks,
    album_art_link: Option<String>,
    playback_link: Option<String>,
    lyrics: Option<String>,
    last_heard: Option<DateTime>,
    is_newly_heard: bool,
}

impl View for Song {
    type V = SongView;

    closed spec fn view(&self) -> SongView {
        SongView {
            id: self.id@,
            title: self.title@,
            artist: self.artist@,
            album: self.album@,
            release_date: self.release_date.deep_view(),
            external_links: self.external_links@,
            album_art_link: self.album_art_link.deep_view(),
            playback_link: self.playback_link.deep_view(),
            lyrics: self.lyrics.deep_view(),
            last_heard: self.last_heard,
            is_newly_heard: self.is_newly_heard,
        }
    }
}

/// The text that a search pattern is matched against: artist, a space, title.
pub open spec fn search_choice(s: SongView) -> Seq<char> {
    s.artist + seq![' '] + s.title
}

/// The view of a song with only its last-heard time replaced.
pub open spec fn with_last_heard(s: SongView, t: DateTime) -> SongView {
    SongView { last_heard: Some(t), ..s }
}

/// The view of a song with only its newly-heard flag replaced.
pub open spec fn with_newly_heard(s: SongView, b: bool) -> SongView {
    SongView { is_newly_heard: b, ..s }
}

impl Song {
    /// Starts building a song. The id must be unique to each song: a store
    /// tells songs apart by it alone.
    pub fn builder(id: &SongId, title: &str, artist: &str, album: &str) -> (r: SongBuilder)
        ensures
            r@ == (SongView {
                id: id@,
                title: title@,
                artist: artist@,
                album: album@,
                release_date: None,
                external_links: Map::empty(),
                album_art_link: None,
                playback_link: None,
                lyrics: None,
                last_heard: None,
                is_newly_heard: false,
            }),
    {
        SongBuilder::new(id, title, artist, album)
    }

    pub fn id(&self) -> (r: SongId)
        ensures
            r@ == self@.id,
    {
        self.id.duplicate()
    }

    pub fn id_ref(&self) -> (r: &SongId)
        ensures
            r@ == self@.id,
    {
        &self.id
    }

    pub fn title(&self) -> (r: String)
        ensures
            r@ == self@.title,
    {
        self.title.clone()
    }

    pub fn artist(&self) -> (r: String)
        ensures
            r@ == self@.artist,
    {
        self.artist.clone()
    }

    pub fn album(&self) -> (r: String)
        ensures
            r@ == self@.album,
    {
        self.album.clone()
    }

    pub fn release_date(&self) -> (r: Option<String>)
        ensures
            r.deep_view() == self@.release_date,
    {
        copy_opt(&self.release_date)
    }

    pub fn external_links(&self) -> (r: ExternalLinks)
        ensures
            r@ == self@.external_links,
    {
        self.external_links.duplicate()
    }

    pub fn album_art_link(&self) -> (r: Option<String>)
        ensures
            r.deep_view() == self@.album_art_link,
    {
        copy_opt(&self.album_art_link)
    }

    pub fn playback_link(&self) -> (r: Option<String>)
        ensures
            r.deep_view() == self@.playback_link,
    {
        copy_opt(&self.playback_link)
    }

    pub fn lyrics(&self) -> (r: Option<String>)
        ensures
            r.deep_view() == self@.lyrics,
    {
        copy_opt(&self.lyrics)
    }

    pub fn last_heard(&self) -> (r: Option<DateTime>)
        ensures
            r == self@.last_heard,
    {
        self.last_heard
    }

    pub fn is_newly_heard(&self) -> (r: bool)
        ensures
            r == self@.is_newly_heard,
    {
        self.is_newly_heard
    }

    /// Sets the last-heard time; returns whether it changed.
    pub fn set_last_heard(&mut self, value: DateTime) -> (changed: bool)
        ensures
            final(self)@ == with_last_heard(old(self)@, value),
            changed == (old(self)@.last_heard != Some(value)),
    {
        let changed = match self.last_heard {
            Some(t) => t != value,
            None => true,
        };
        self.last_heard = Some(value);
        changed
    }

    /// Sets the newly-heard flag; returns whether it changed.
    pub fn set_is_newly_heard(&mut self, value: bool) -> (changed: bool)
        ensures
            final(self)@ == with_newly_heard(old(self)@, value),
            changed == (old(self)@.is_newly_heard != value),
    {
        let changed = self.is_newly_heard != value;
        self.is_newly_heard = value;
        changed
    }

    /// Text to match against when searching: "{artist} {title}".
    pub fn search_term(&self) -> (r: String)
        ensures
            r@ == search_choice(self@),
    {
        self.search_choice()
    }

    /// Text copied to the clipboard for this song: "{artist} - {title}".
    pub fn copy_term(&self) -> (r: String)
        ensures
            r@ == self@.artist + seq![' ', '-', ' '] + self@.title,
    {
        proof {
            reveal_strlit(" - ");
        }
        self.artist.clone().concat(" - ").concat(self.title.as_str())
    }

    /// The text that a search pattern is matched against.
    pub fn search_choice(&self) -> (r: String)
        ensures
            r@ == search_choice(self@),
    {
        proof {
            reveal_strlit(" ");
        }
        self.artist.clone().concat(" ").concat(self.title.as_str())
    }

    /// Score of this song against a search pattern; `None` where it does not match.
    pub fn fuzzy_match(&self, pattern: &str) -> (r: Option<i64>)
        ensures
            r == skim_score(search_choice(self@), pattern@),
    {
        let choice = self.search_choice();
        skim_fuzzy_match(choice.as_str(), pattern)
    }

    /// A copy with the same content.
    pub fn duplicate(&self) -> (r: Song)
        ensures
            r@ == self@,
    {
        Song {
            id: self.id.duplicate(),
            title: self.title.clone(),
            artist: self.artist.clone(),
            album: self.album.clone(),
            release_date: copy_opt(&self.release_date),
            external_links: self.external_links.duplicate(),
            album_art_link: copy_opt(&self.album_art_link),
            playback_link: copy_opt(&self.playback_link),
            lyrics: copy_opt(&self.lyrics),
            last_heard: self.last_heard,
            is_newly_heard: self.is_newly_heard,
        }
    }
}

/// Collects the fields of a song before it is built.
#[derive(Debug)]
pub struct SongBuilder {
    song: Song,
}

impl View for SongBuilder {
    type V = SongView;

    closed spec fn view(&self) -> SongView {
        self.song@
    }
}

impl SongBuilder {
    pub fn new(id: &SongId, title: &str, artist: &str, album: &str) -> (r: SongBuilder)
        ensures
            r@ == (SongView {
                id: id@,
                title: title@,
                artist: artist@,
                album: album@,
                release_date: None,
                external_links: Map::empty(),
                album_art_link: None,
                playback_link: None,
                lyrics: None,
                last_heard: None,
                is_newly_heard: false,
            }),
    {
        SongBuilder {
            song: Song {
                id: id.duplicate(),
                title: title.to_owned(),
                artist: artist.to_owned(),
                album: album.to_owned(),
                release_date: None,
                external_links: ExternalLinks::new(),
                album_art_link: None,
                playback_link: None,
                lyrics: None,
                last_heard: None,
                is_newly_heard: false,
            },
        }
    }

    pub fn newly_heard(&mut self, value: bool) -> (r: &mut SongBuilder)
        ensures
            r@ == (SongView { is_newly_heard: value, ..old(self)@ }),
            *final(self) == *final(r),
    {
        self.song.is_newly_heard = value;
        self
    }

    pub fn release_date(&mut self, value: &str) -> (r: &mut SongBuilder)
        ensures
            r@ == (SongView { release_date: Some(value@), ..old(self)@ }),
            *final(self) == *final(r),
    {
        self.song.release_date = Some(value.to_owned());
        self
    }

    pub fn album_art_link(&mut self, value: &str) -> (r: &mut SongBuilder)
        ensures
            r@ == (SongView { album_art_link: Some(value@), ..old(self)@ }),
            *final(self) == *final(r),
    {
        self.song.album_art_link = Some(value.to_owned());
        self
    }

    pub fn playback_link(&mut self, value: &str) -> (r: &mut SongBuilder)
        ensures
            r@ == (SongView { playback_link: Some(value@), ..old(self)@ }),
            *final(self) == *final(r),
    {
        self.song.playback_link = Some(value.to_owned());
        self
    }

    pub fn lyrics(&mut self, value: &str) -> (r: &mut SongBuilder)
        ensures
            r@ == (SongView { lyrics: Some(value@), ..old(self)@ }),
            *final(self) == *final(r),
    {
        self.song.lyrics = Some(value.to_owned());
        self
    }

    /// Sets the link of a provider, replacing an earlier one.
    pub fn external_link(&mut self, key: ExternalLinkKey, value: String) -> (r: &mut SongBuilder)
        ensures
            r@ == (SongView {
                external_links: old(self)@.external_links.insert(key, value@),
                ..old(self)@
            }),
            *final(self) == *final(r),
    {
        self.song.external_links.insert(key, value);
        self
    }

    /// Replaces all links.
    pub fn external_links(&mut self, links: ExternalLinks) -> (r: &mut SongBuilder)
        ensures
            r@ == (SongView { external_links: links@, ..old(self)@ }),
            *final(self) == *final(r),
    {
        self.song.external_links = links;
        self
    }

    pub fn build(&mut self) -> (r: Song)
        ensures
            r@ == old(self)@,
            final(self)@ == old(self)@,
    {
        self.song.duplicate()
    }
}

} // verus!
