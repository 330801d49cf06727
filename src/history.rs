use vstd::prelude::*;

use crate::session::SongMetadata;
use crate::song::{DateTime, ExternalLinks, Song, SongId, SongView};
use crate::store::{
    contains_id, ids_unique, lemma_position_of_unique, touch_needed, touched, SongStore, StoreError,
    StoreWrite,
};

verus! {

/// The lowercase form that `str::to_lowercase` gives of `s`.
pub uninterp spec fn lower_of(s: Seq<char>) -> Seq<char>;

/// Relies on `str::to_lowercase`: the result depends on the characters alone,
/// and the empty string stays empty.
#[verifier::external_body]
fn lowercase(s: &str) -> (r: String)
    ensures
        r@ == lower_of(s@),
        s@.len() == 0 ==> r@.len() == 0,
{
    s.to_lowercase()
}

/// Title, artist and album, each lowercased: two songs with equal keys are
/// the same song.
#[derive(Debug)]
pub struct SongKey {
    pub title: String,
    pub artist: String,
    pub album: String,
}

impl View for SongKey {
    type V = (Seq<char>, Seq<char>, Seq<char>);

    open spec fn view(&self) -> (Seq<char>, Seq<char>, Seq<char>) {
        (self.title@, self.artist@, self.album@)
    }
}

pub open spec fn key_of(title: Seq<char>, artist: Seq<char>, album: Seq<char>) -> (Seq<char>, Seq<char>, Seq<char>) {
    (lower_of(title), lower_of(artist), lower_of(album))
}

/// A stored song and recognized metadata name the same song, ignoring case.
pub open spec fn same_song(s: SongView, m: SongMetadata) -> bool {
    key_of(s.title, s.artist, s.album) == key_of(m.title@, m.artist@, m.album@)
}

/// The first of `songs` that is the same song as `m`, if any.
pub open spec fn is_first_same(songs: Seq<SongView>, m: SongMetadata, r: Option<usize>) -> bool {
    match r {
        Some(i) => i < songs.len() && same_song(songs[i as int], m) && forall|k: int|
            0 <= k < i ==> !same_song(#[trigger] songs[k], m),
        None => forall|k: int| 0 <= k < songs.len() ==> !same_song(#[trigger] songs[k], m),
    }
}

/// The song that a match with `m`, heard at `now`, is stored as.
pub open spec fn song_from_metadata(m: SongMetadata, id: Seq<char>, now: DateTime) -> SongView {
    SongView {
        id: id,
        title: m.title@,
        artist: m.artist@,
        album: m.album@,
        release_date: m.release_date.deep_view(),
        external_links: m.external_links@,
        album_art_link: m.album_art_link.deep_view(),
        playback_link: m.playback_link.deep_view(),
        lyrics: m.lyrics.deep_view(),
        last_heard: Some(now),
        is_newly_heard: true,
    }
}

/// The key of a song: each field lowercased.
pub fn song_key(title: &str, artist: &str, album: &str) -> (r: SongKey)
    ensures
        r@ == key_of(title@, artist@, album@),
{
    SongKey { title: lowercase(title), artist: lowercase(artist), album: lowercase(album) }
}

/// Position of the first of `keys` equal to `key`.
pub fn first_with_key(keys: &Vec<SongKey>, key: &SongKey) -> (r: Option<usize>)
    ensures
        r is Some ==> r->0 < keys@.len() && keys@[r->0 as int]@ == key@ && forall|k: int|
            0 <= k < r->0 ==> (#[trigger] keys@[k])@ != key@,
        r is None ==> forall|k: int| 0 <= k < keys@.len() ==> (#[trigger] keys@[k])@ != key@,
{
    let mut i: usize = 0;
    while i < keys.len()
        invariant
            i <= keys@.len(),
            forall|k: int| 0 <= k < i ==> (#[trigger] keys@[k])@ != key@,
        decreases keys@.len() - i,
    {
        let k = &keys[i];
        if k.title == key.title && k.artist == key.artist && k.album == key.album {
            return Some(i);
        }
        i = i + 1;
    }
    None
}

/// Position of the first stored song that is the same song as `m`.
pub fn find_same(store: &SongStore, m: &SongMetadata) -> (r: Option<usize>)
    ensures
        is_first_same(store@, *m, r),
{
    let n = store.len();
    let mut keys: Vec<SongKey> = Vec::new();
    let mut i: usize = 0;
    while i < n
        invariant
            n == store@.len(),
            i <= n,
            keys@.len() == i,
            forall|k: int|
                0 <= k < i ==> (#[trigger] keys@[k])@ == key_of(store@[k].title, store@[k].artist, store@[k].album),
        decreases n - i,
    {
        let s = store.get(i);
        let t = s.title();
        let a = s.artist();
        let b = s.album();
        keys.push(song_key(t.as_str(), a.as_str(), b.as_str()));
        i = i + 1;
    }
    let key = song_key(m.title.as_str(), m.artist.as_str(), m.album.as_str());
    let r = first_with_key(&keys, &key);
    proof {
        if r is None {
            assert forall|k: int| 0 <= k < store@.len() implies !same_song(#[trigger] store@[k], *m) by {
                assert(keys@[k]@ != key@);
            }
        } else {
            assert forall|k: int| 0 <= k < r->0 implies !same_song(#[trigger] store@[k], *m) by {
                assert(keys@[k]@ != key@);
            }
        }
    }
    r
}

/// Builds the song that a match with `m`, heard at `now`, is stored as.
pub fn new_song(m: &SongMetadata, id: &SongId, now: DateTime) -> (r: Song)
    ensures
        r@ == song_from_metadata(*m, id@, now),
{
    let mut b = Song::builder(id, m.title.as_str(), m.artist.as_str(), m.album.as_str());
    b.newly_heard(true);
    if let Some(v) = &m.release_date {
        b.release_date(v.as_str());
    }
    if let Some(v) = &m.album_art_link {
        b.album_art_link(v.as_str());
    }
    if let Some(v) = &m.playback_link {
        b.playback_link(v.as_str());
    }
    if let Some(v) = &m.lyrics {
        b.lyrics(v.as_str());
    }
    b.external_links(m.external_links.duplicate());
    let mut song = b.build();
    song.set_last_heard(now);
    song
}

/// Plans what a successful recognition of `m` at `now` does to the history:
/// the first stored song that is the same song (ignoring case) is touched,
/// heard at `now` and newly heard; otherwise a new song with id `new_id` is
/// inserted.
pub fn plan_recognized(store: &SongStore, m: &SongMetadata, now: DateTime, new_id: &SongId) -> (r: Result<
    Option<StoreWrite>,
    StoreError,
>)
    ensures
        match find_first_same(store@, *m) {
            Some(i) => {
                let id = store@[i as int].id;
                &&& touch_needed(store@, id, now, true) ==> (r matches Ok(
                    Some(StoreWrite::Touch { id: wid, heard_at: t, newly_heard: b }),
                ) && wid@ == id && t == now && b)
                &&& !touch_needed(store@, id, now, true) ==> r == Ok::<Option<StoreWrite>, StoreError>(
                    None,
                )
            },
            None => {
                &&& contains_id(store@, new_id@) ==> r == Err::<Option<StoreWrite>, StoreError>(
                    StoreError::DuplicateId,
                )
                &&& !contains_id(store@, new_id@) ==> (r matches Ok(Some(StoreWrite::Insert(s)))
                    && s@ == song_from_metadata(*m, new_id@, now))
            },
        },
{
    let found = find_same(store, m);
    proof {
        lemma_first_same_unique(store@, *m, found);
    }
    match found {
        Some(i) => {
            let id = store.get(i).id();
            proof {
                lemma_position_of_unique(store@, i as int);
            }
            store.plan_touch(&id, now, true)
        },
        None => {
            let song = new_song(m, new_id, now);
            match store.plan_insert(song) {
                Ok(w) => Ok(Some(w)),
                Err(e) => Err(e),
            }
        },
    }
}

/// The first stored song that is the same song as `m`.
pub open spec fn find_first_same(songs: Seq<SongView>, m: SongMetadata) -> Option<usize> {
    if exists|i: int| 0 <= i < songs.len() && same_song(#[trigger] songs[i], m) {
        Some(choose|i: usize| is_first_same(songs, m, Some(i)))
    } else {
        None
    }
}

proof fn lemma_first_same_unique(songs: Seq<SongView>, m: SongMetadata, r: Option<usize>)
    requires
        is_first_same(songs, m, r),
    ensures
        find_first_same(songs, m) == r,
{
    if let Some(i) = r {
        assert(same_song(songs[i as int], m));
        let c = choose|c: usize| is_first_same(songs, m, Some(c));
        assert(is_first_same(songs, m, Some(c)));
        if c < i {
            assert(!same_song(songs[c as int], m));
        } else if c > i {
            assert(!same_song(songs[i as int], m));
        }
    }
}

/// A song recognized again after its first recognition was stored is found
/// and touched rather than inserted anew: the store keeps its size, and the
/// song is heard at the later time and newly heard.
pub proof fn lemma_second_recognition_touches(
    songs: Seq<SongView>,
    m: SongMetadata,
    id: Seq<char>,
    first: DateTime,
    second: DateTime,
)
    requires
        ids_unique(songs),
        songs.len() < usize::MAX,
        find_first_same(songs, m) is None,
        !contains_id(songs, id),
    ensures
        ids_unique(songs.push(song_from_metadata(m, id, first))),
        find_first_same(songs.push(song_from_metadata(m, id, first)), m) == Some(songs.len() as usize),
        songs.push(song_from_metadata(m, id, first))[songs.len() as int].id == id,
        touched(songs.push(song_from_metadata(m, id, first)), id, second, true).len() == songs.len() + 1,
        touched(songs.push(song_from_metadata(m, id, first)), id, second, true)[songs.len() as int].last_heard
            == Some(second),
        touched(songs.push(song_from_metadata(m, id, first)), id, second, true)[songs.len() as int].is_newly_heard,
{
    let n = songs.len() as int;
    let s1 = songs.push(song_from_metadata(m, id, first));
    assert forall|i: int, j: int| 0 <= i < j < s1.len() implies #[trigger] s1[i].id != #[trigger] s1[j].id by {
        if j == n {
            assert(songs[i].id != id);
        } else {
            assert(songs[i].id != songs[j].id);
        }
    }
    assert forall|k: int| 0 <= k < n implies !same_song(#[trigger] s1[k], m) by {
        assert(s1[k] == songs[k]);
        if same_song(songs[k], m) {
            assert(exists|i: int| 0 <= i < songs.len() && same_song(#[trigger] songs[i], m));
        }
    }
    assert(same_song(s1[n], m));
    lemma_first_same_unique(s1, m, Some(n as usize));
    lemma_position_of_unique(s1, n);
}

} // verus!
