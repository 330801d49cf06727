use vstd::prelude::*;

use crate::fuzzy::{skim_fuzzy_match, skim_score};
use crate::song::{search_choice, with_last_heard, with_newly_heard, DateTime, Song, SongId, SongView};

verus! {

/// No two songs share an id.
pub open spec fn ids_unique(songs: Seq<SongView>) -> bool {
    forall|i: int, j: int|
        0 <= i < j < songs.len() ==> #[trigger] songs[i].id != #[trigger] songs[j].id
}

pub open spec fn contains_id(songs: Seq<SongView>, id: Seq<char>) -> bool {
    exists|i: int| 0 <= i < songs.len() && #[trigger] songs[i].id == id
}

/// Where the song with `id` stands (meaningful where `contains_id`).
pub open spec fn position_of(songs: Seq<SongView>, id: Seq<char>) -> int {
    choose|i: int| 0 <= i < songs.len() && #[trigger] songs[i].id == id
}

/// The songs after the song with `id` was heard at `t`, with the given flag.
pub open spec fn touched(songs: Seq<SongView>, id: Seq<char>, t: DateTime, newly_heard: bool) -> Seq<
    SongView,
> {
    let i = position_of(songs, id);
    songs.update(i, with_newly_heard(with_last_heard(songs[i], t), newly_heard))
}

/// Whether touching the song with `id` changes anything.
pub open spec fn touch_needed(songs: Seq<SongView>, id: Seq<char>, t: DateTime, newly_heard: bool) -> bool {
    let s = songs[position_of(songs, id)];
    s.last_heard != Some(t) || s.is_newly_heard != newly_heard
}

/// Why a store operation was refused.
#[derive(Debug, PartialEq, Eq)]
pub enum StoreError {
    /// A song with the same id is already stored.
    DuplicateId,
    /// No song has the given id.
    NotFound,
    /// The durable store failed to record the change.
    Persist(String),
}

/// One change of the store, to be recorded durably before it is committed.
#[derive(Debug)]
pub enum StoreWrite {
    Insert(Song),
    Touch { id: SongId, heard_at: DateTime, newly_heard: bool },
    SetNewlyHeard { id: SongId, value: bool },
    Remove(SongId),
}

/// Whether `w` can be applied to `songs`.
pub open spec fn write_applies(songs: Seq<SongView>, w: StoreWrite) -> bool {
    match w {
        StoreWrite::Insert(s) => !contains_id(songs, s@.id),
        StoreWrite::Touch { id, .. } => contains_id(songs, id@),
        StoreWrite::SetNewlyHeard { id, .. } => contains_id(songs, id@),
        StoreWrite::Remove(id) => contains_id(songs, id@),
    }
}

/// The songs after `w` (where it applies).
pub open spec fn apply_write(songs: Seq<SongView>, w: StoreWrite) -> Seq<SongView> {
    match w {
        StoreWrite::Insert(s) => songs.push(s@),
        StoreWrite::Touch { id, heard_at, newly_heard } => touched(songs, id@, heard_at, newly_heard),
        StoreWrite::SetNewlyHeard { id, value } => {
            let i = position_of(songs, id@);
            songs.update(i, with_newly_heard(songs[i], value))
        },
        StoreWrite::Remove(id) => songs.remove(position_of(songs, id@)),
    }
}

/// A search result: the position of a song in the store, and its score.
#[derive(Clone, Copy, Debug, PartialEq, Eq, Structural)]
pub struct SearchHit {
    pub index: usize,
    pub score: i64,
}

/// How recently a song was heard; never heard counts as oldest.
pub open spec fn recency(s: SongView) -> int {
    match s.last_heard {
        Some(t) => t.unix_micros as int,
        None => i64::MIN as int - 1,
    }
}

/// `a` ranks before `b`: higher score, then more recently heard, then earlier
/// in the store.
pub open spec fn ranks_before(songs: Seq<SongView>, a: SearchHit, b: SearchHit) -> bool {
    a.score > b.score || (a.score == b.score && (recency(songs[a.index as int]) > recency(
        songs[b.index as int],
    ) || (recency(songs[a.index as int]) == recency(songs[b.index as int]) && a.index < b.index)))
}

/// `r` holds exactly the songs with a score, each with its score, in rank order.
pub open spec fn is_ranking(songs: Seq<SongView>, scores: Seq<Option<i64>>, r: Seq<SearchHit>) -> bool {
    &&& forall|k: int|
        0 <= k < r.len() ==> #[trigger] r[k].index < songs.len() && scores[r[k].index as int]
            == Some(r[k].score)
    &&& forall|j: int|
        0 <= j < songs.len() && (#[trigger] scores[j]) is Some ==> exists|k: int|
            0 <= k < r.len() && #[trigger] r[k].index == j
    &&& forall|a: int, b: int|
        0 <= a < b < r.len() ==> ranks_before(songs, #[trigger] r[a], #[trigger] r[b])
}

/// The song collection, in storage order, with unique ids.
pub struct SongStore {
    songs: Vec<Song>,
}

impl View for SongStore {
    type V = Seq<SongView>;

    closed spec fn view(&self) -> Seq<SongView> {
        views(self.songs@)
    }
}

spec fn views(songs: Seq<Song>) -> Seq<SongView> {
    songs.map_values(|s: Song| s@)
}

impl SongStore {
    #[verifier::type_invariant]
    spec fn ids_are_unique(&self) -> bool {
        ids_unique(self@)
    }

    pub fn new() -> (r: SongStore)
        ensures
            r@ == Seq::<SongView>::empty(),
    {
        let r = SongStore { songs: Vec::new() };
        assert(r@ =~= Seq::<SongView>::empty());
        r
    }

    pub fn len(&self) -> (r: usize)
        ensures
            r == self@.len(),
            ids_unique(self@),
    {
        proof {
            use_type_invariant(self);
        }
        self.songs.len()
    }

    pub fn get(&self, index: usize) -> (r: &Song)
        requires
            index < self@.len(),
        ensures
            r@ == self@[index as int],
            ids_unique(self@),
    {
        proof {
            use_type_invariant(self);
        }
        &self.songs[index]
    }

    /// Every song, in storage order.
    pub fn all(&self) -> (r: &[Song])
        ensures
            r@.map_values(|s: Song| s@) == self@,
    {
        self.songs.as_slice()
    }

    /// Position of the song with `id`.
    pub fn position(&self, id: &SongId) -> (r: Option<usize>)
        ensures
            ids_unique(self@),
            r is Some <==> contains_id(self@, id@),
            r is Some ==> r->0 == position_of(self@, id@) && self@[r->0 as int].id == id@,
    {
        proof {
            use_type_invariant(self);
        }
        let mut i: usize = 0;
        while i < self.songs.len()
            invariant
                i <= self.songs@.len(),
                ids_unique(self@),
                self@.len() == self.songs@.len(),
                forall|k: int| 0 <= k < i ==> #[trigger] self@[k].id != id@,
            decreases self.songs@.len() - i,
        {
            if self.songs[i].id_ref().is_same(id) {
                proof {
                    let p = position_of(self@, id@);
                    assert(self@[i as int].id == id@);
                    assert(0 <= p < self@.len() && self@[p].id == id@);
                    if p < i {
                        assert(self@[p].id != self@[i as int].id);
                    } else if p > i {
                        assert(self@[i as int].id != self@[p].id);
                    }
                }
                return Some(i);
            }
            i = i + 1;
        }
        None
    }

    /// The song with `id`, if stored.
    pub fn find(&self, id: &SongId) -> (r: Option<&Song>)
        ensures
            r is Some <==> contains_id(self@, id@),
            r is Some ==> r->0@ == self@[position_of(self@, id@)],
    {
        match self.position(id) {
            Some(i) => Some(&self.songs[i]),
            None => None,
        }
    }

    /// Plans adding `song`; refused where its id is taken.
    pub fn plan_insert(&self, song: Song) -> (r: Result<StoreWrite, StoreError>)
        ensures
            contains_id(self@, song@.id) ==> r == Err::<StoreWrite, StoreError>(StoreError::DuplicateId),
            !contains_id(self@, song@.id) ==> r == Ok::<StoreWrite, StoreError>(StoreWrite::Insert(song)),
    {
        match self.position(song.id_ref()) {
            Some(_) => Err(StoreError::DuplicateId),
            None => Ok(StoreWrite::Insert(song)),
        }
    }

    /// Plans recording that the song with `id` was heard at `heard_at`, with
    /// the given newly-heard flag; `None` where nothing would change.
    pub fn plan_touch(&self, id: &SongId, heard_at: DateTime, newly_heard: bool) -> (r: Result<
        Option<StoreWrite>,
        StoreError,
    >)
        ensures
            !contains_id(self@, id@) ==> r == Err::<Option<StoreWrite>, StoreError>(StoreError::NotFound),
            contains_id(self@, id@) && !touch_needed(self@, id@, heard_at, newly_heard) ==> r == Ok::<
                Option<StoreWrite>,
                StoreError,
            >(None),
            contains_id(self@, id@) && touch_needed(self@, id@, heard_at, newly_heard) ==> (r matches Ok(
                Some(StoreWrite::Touch { id: wid, heard_at: t, newly_heard: b }),
            ) && wid@ == id@ && t == heard_at && b == newly_heard),
    {
        match self.position(id) {
            None => Err(StoreError::NotFound),
            Some(i) => {
                let s = &self.songs[i];
                let same_time = match s.last_heard() {
                    Some(t) => t == heard_at,
                    None => false,
                };
                if same_time && s.is_newly_heard() == newly_heard {
                    Ok(None)
                } else {
                    Ok(Some(StoreWrite::Touch { id: id.duplicate(), heard_at, newly_heard }))
                }
            },
        }
    }

    /// Plans setting the newly-heard flag of the song with `id`; `None` where
    /// it already has that value.
    pub fn plan_set_newly_heard(&self, id: &SongId, value: bool) -> (r: Result<
        Option<StoreWrite>,
        StoreError,
    >)
        ensures
            !contains_id(self@, id@) ==> r == Err::<Option<StoreWrite>, StoreError>(StoreError::NotFound),
            contains_id(self@, id@) && self@[position_of(self@, id@)].is_newly_heard == value ==> r
                == Ok::<Option<StoreWrite>, StoreError>(None),
            contains_id(self@, id@) && self@[position_of(self@, id@)].is_newly_heard != value ==> (r matches Ok(
                Some(StoreWrite::SetNewlyHeard { id: wid, value: b }),
            ) && wid@ == id@ && b == value),
    {
        match self.position(id) {
            None => Err(StoreError::NotFound),
            Some(i) => {
                if self.songs[i].is_newly_heard() == value {
                    Ok(None)
                } else {
                    Ok(Some(StoreWrite::SetNewlyHeard { id: id.duplicate(), value }))
                }
            },
        }
    }

    /// Plans removing the song with `id`.
    pub fn plan_remove(&self, id: &SongId) -> (r: Result<StoreWrite, StoreError>)
        ensures
            !contains_id(self@, id@) ==> r == Err::<StoreWrite, StoreError>(StoreError::NotFound),
            contains_id(self@, id@) ==> (r matches Ok(StoreWrite::Remove(wid)) && wid@ == id@),
    {
        match self.position(id) {
            None => Err(StoreError::NotFound),
            Some(_) => Ok(StoreWrite::Remove(id.duplicate())),
        }
    }

    /// Records `write` in memory once the durable store has reported
    /// `persisted`. A write that no longer applies, or that the durable store
    /// failed to record, leaves the store as it was.
    pub fn commit(&mut self, write: StoreWrite, persisted: Result<(), String>) -> (r: Result<
        (),
        StoreError,
    >)
        ensures
            !write_applies(old(self)@, write) ==> final(self)@ == old(self)@ && r == Err::<
                (),
                StoreError,
            >(write_error(write)),
            write_applies(old(self)@, write) && persisted is Err ==> final(self)@ == old(self)@ && r
                == Err::<(), StoreError>(StoreError::Persist(persisted->Err_0)),
            write_applies(old(self)@, write) && persisted is Ok ==> r is Ok && final(self)@
                == apply_write(old(self)@, write),
    {
        proof {
            use_type_invariant(&*self);
        }
        let ghost old_view = self@;
        let i = match &write {
            StoreWrite::Insert(song) => {
                if self.position(song.id_ref()).is_some() {
                    return Err(StoreError::DuplicateId);
                }
                0
            },
            StoreWrite::Touch { id, .. } | StoreWrite::SetNewlyHeard { id, .. } | StoreWrite::Remove(id) => {
                match self.position(id) {
                    None => {
                        return Err(StoreError::NotFound);
                    },
                    Some(i) => i,
                }
            },
        };
        if let Err(e) = persisted {
            return Err(StoreError::Persist(e));
        }
        let mut songs: Vec<Song> = Vec::new();
        core::mem::swap(&mut songs, &mut self.songs);
        assert(views(songs@) == old_view);
        match write {
            StoreWrite::Insert(song) => {
                songs.push(song);
                proof {
                    assert(views(songs@) =~= old_view.push(song@));
                    assert forall|a: int, b: int| 0 <= a < b < views(songs@).len() implies #[trigger] views(
                        songs@,
                    )[a].id != #[trigger] views(songs@)[b].id by {
                        if b == old_view.len() {
                            assert(old_view[a].id != song@.id);
                        } else {
                            assert(old_view[a].id != old_view[b].id);
                        }
                    }
                }
            },
            StoreWrite::Touch { id, heard_at, newly_heard } => {
                let mut s = songs.remove(i);
                s.set_last_heard(heard_at);
                s.set_is_newly_heard(newly_heard);
                songs.insert(i, s);
                proof {
                    assert(views(songs@) =~= touched(old_view, id@, heard_at, newly_heard));
                    assert forall|a: int, b: int| 0 <= a < b < views(songs@).len() implies #[trigger] views(
                        songs@,
                    )[a].id != #[trigger] views(songs@)[b].id by {
                        assert(old_view[a].id != old_view[b].id);
                    }
                }
            },
            StoreWrite::SetNewlyHeard { id, value } => {
                let mut s = songs.remove(i);
                s.set_is_newly_heard(value);
                songs.insert(i, s);
                proof {
                    assert(views(songs@) =~= old_view.update(i as int, with_newly_heard(old_view[i as int], value)));
                    assert forall|a: int, b: int| 0 <= a < b < views(songs@).len() implies #[trigger] views(
                        songs@,
                    )[a].id != #[trigger] views(songs@)[b].id by {
                        assert(old_view[a].id != old_view[b].id);
                    }
                }
            },
            StoreWrite::Remove(id) => {
                songs.remove(i);
                proof {
                    assert(views(songs@) =~= old_view.remove(i as int));
                    assert forall|a: int, b: int| 0 <= a < b < views(songs@).len() implies #[trigger] views(
                        songs@,
                    )[a].id != #[trigger] views(songs@)[b].id by {
                        if b < i {
                            assert(old_view[a].id != old_view[b].id);
                        } else if a < i {
                            assert(old_view[a].id != old_view[b + 1].id);
                        } else {
                            assert(old_view[a + 1].id != old_view[b + 1].id);
                        }
                    }
                }
            },
        }
        self.songs = songs;
        Ok(())
    }

    /// Whether hit `a` ranks before hit `b`.
    fn hit_before(&self, a: &SearchHit, b: &SearchHit) -> (r: bool)
        requires
            a.index < self@.len(),
            b.index < self@.len(),
        ensures
            r == ranks_before(self@, *a, *b),
    {
        if a.score != b.score {
            return a.score > b.score;
        }
        match (self.songs[a.index].last_heard(), self.songs[b.index].last_heard()) {
            (Some(x), Some(y)) => {
                if x.unix_micros != y.unix_micros {
                    return x.unix_micros > y.unix_micros;
                }
            },
            (Some(_), None) => {
                return true;
            },
            (None, Some(_)) => {
                return false;
            },
            (None, None) => {},
        }
        a.index < b.index
    }

    /// Orders the songs that have a score: highest score first, then the most
    /// recently heard, then the earliest stored. `scores[j]` is the score of the
    /// song at position `j`.
    pub fn rank(&self, scores: &Vec<Option<i64>>) -> (r: Vec<SearchHit>)
        requires
            scores@.len() == self@.len(),
        ensures
            is_ranking(self@, scores@, r@),
    {
        let n = self.songs.len();
        let mut r: Vec<SearchHit> = Vec::new();
        let mut j: usize = 0;
        while j < n
            invariant
                n == self@.len(),
                scores@.len() == n,
                j <= n,
                forall|k: int| 0 <= k < r@.len() ==> #[trigger] r@[k].index < j && scores@[r@[k].index as int]
                    == Some(r@[k].score),
                forall|q: int|
                    0 <= q < j && (#[trigger] scores@[q]) is Some ==> exists|k: int|
                        0 <= k < r@.len() && #[trigger] r@[k].index == q,
                forall|a: int, b: int|
                    0 <= a < b < r@.len() ==> ranks_before(self@, #[trigger] r@[a], #[trigger] r@[b]),
            decreases n - j,
        {
            if let Some(score) = scores[j] {
                let hit = SearchHit { index: j, score };
                let mut p: usize = 0;
                while p < r.len() && self.hit_before(&r[p], &hit)
                    invariant
                        n == self@.len(),
                        j < n,
                        hit.index == j,
                        p <= r@.len(),
                        forall|k: int| 0 <= k < r@.len() ==> #[trigger] r@[k].index < j,
                        forall|q: int| 0 <= q < p ==> ranks_before(self@, #[trigger] r@[q], hit),
                    decreases r@.len() - p,
                {
                    p = p + 1;
                }
                let ghost old_r = r@;
                r.insert(p, hit);
                proof {
                    assert(r@ =~= old_r.insert(p as int, hit));
                    if p < old_r.len() {
                        assert(!ranks_before(self@, old_r[p as int], hit));
                        assert(ranks_before(self@, hit, old_r[p as int]));
                    }
                    assert forall|a: int, b: int| 0 <= a < b < r@.len() implies ranks_before(
                        self@,
                        #[trigger] r@[a],
                        #[trigger] r@[b],
                    ) by {
                        if b < p {
                            assert(ranks_before(self@, old_r[a], old_r[b]));
                        } else if b == p {
                            assert(ranks_before(self@, old_r[a], hit));
                        } else if a < p {
                            assert(ranks_before(self@, old_r[a], hit));
                            assert(ranks_before(self@, old_r[a], old_r[b - 1]));
                        } else if a == p {
                            if b - 1 > p {
                                assert(ranks_before(self@, old_r[p as int], old_r[b - 1]));
                            }
                        } else {
                            assert(ranks_before(self@, old_r[a - 1], old_r[b - 1]));
                        }
                    }
                    assert forall|q: int|
                        0 <= q <= j && (#[trigger] scores@[q]) is Some implies exists|k: int|
                            0 <= k < r@.len() && #[trigger] r@[k].index == q by {
                        if q == j {
                            assert(r@[p as int].index == q);
                        } else {
                            let k = choose|k: int| 0 <= k < old_r.len() && #[trigger] old_r[k].index == q;
                            if k < p {
                                assert(r@[k].index == q);
                            } else {
                                assert(r@[k + 1].index == q);
                            }
                        }
                    }
                }
            }
            j = j + 1;
        }
        r
    }

    /// Songs that match `pattern`, best first: by fuzzy score of
    /// "{artist} {title}", then the most recently heard, then storage order.
    pub fn search(&self, pattern: &str) -> (r: Vec<SearchHit>)
        ensures
            is_ranking(
                self@,
                Seq::new(self@.len(), |j: int| skim_score(search_choice(self@[j]), pattern@)),
                r@,
            ),
    {
        let n = self.songs.len();
        let mut scores: Vec<Option<i64>> = Vec::new();
        let mut j: usize = 0;
        while j < n
            invariant
                n == self@.len(),
                j <= n,
                scores@.len() == j,
                forall|q: int| 0 <= q < j ==> #[trigger] scores@[q] == skim_score(search_choice(self@[q]), pattern@),
            decreases n - j,
        {
            scores.push(self.songs[j].fuzzy_match(pattern));
            j = j + 1;
        }
        let r = self.rank(&scores);
        assert(scores@ =~= Seq::new(self@.len(), |j: int| skim_score(search_choice(self@[j]), pattern@)));
        r
    }
}

pub(crate) proof fn lemma_position_of_unique(songs: Seq<SongView>, i: int)
    requires
        ids_unique(songs),
        0 <= i < songs.len(),
    ensures
        contains_id(songs, songs[i].id),
        position_of(songs, songs[i].id) == i,
{
    assert(songs[i].id == songs[i].id);
    let p = position_of(songs, songs[i].id);
    if p < i {
        assert(songs[p].id != songs[i].id);
    } else if p > i {
        assert(songs[i].id != songs[p].id);
    }
}

/// A store tells songs apart by id, not by content: two songs alike in all
/// but their ids, neither of them stored, are both accepted and become two
/// entries.
pub proof fn lemma_identity_is_id(songs: Seq<SongView>, a: SongView, b: SongView)
    requires
        ids_unique(songs),
        !contains_id(songs, a.id),
        !contains_id(songs, b.id),
        a.id != b.id,
        b == (SongView { id: b.id, ..a }),
    ensures
        !contains_id(songs.push(a), b.id),
        ids_unique(songs.push(a).push(b)),
        songs.push(a).push(b).len() == songs.len() + 2,
        songs.push(a).push(b)[songs.len() as int] == a,
        songs.push(a).push(b)[songs.len() + 1int] == b,
{
    let s1 = songs.push(a);
    let s2 = s1.push(b);
    if contains_id(s1, b.id) {
        let i = choose|i: int| 0 <= i < s1.len() && #[trigger] s1[i].id == b.id;
        if i < songs.len() {
            assert(songs[i].id == b.id);
        }
    }
    assert forall|i: int, j: int| 0 <= i < j < s2.len() implies #[trigger] s2[i].id != #[trigger] s2[j].id by {
        if j == songs.len() {
            assert(songs[i].id != a.id);
        } else if j == songs.len() + 1 && i < songs.len() {
            assert(songs[i].id != b.id);
        } else if j < songs.len() {
            assert(songs[i].id != songs[j].id);
        }
    }
}

/// Touching a song twice with the same time and flag is the same as touching
/// it once: the second touch needs no durable write and changes nothing.
pub proof fn lemma_touch_idempotent(songs: Seq<SongView>, id: Seq<char>, t: DateTime, newly_heard: bool)
    requires
        ids_unique(songs),
        contains_id(songs, id),
    ensures
        ids_unique(touched(songs, id, t, newly_heard)),
        contains_id(touched(songs, id, t, newly_heard), id),
        !touch_needed(touched(songs, id, t, newly_heard), id, t, newly_heard),
        touched(touched(songs, id, t, newly_heard), id, t, newly_heard) == touched(songs, id, t, newly_heard),
{
    let p = position_of(songs, id);
    let s1 = touched(songs, id, t, newly_heard);
    assert(songs[p].id == id);
    assert forall|i: int, j: int| 0 <= i < j < s1.len() implies #[trigger] s1[i].id != #[trigger] s1[j].id by {
        assert(songs[i].id != songs[j].id);
    }
    lemma_position_of_unique(s1, p);
    assert(touched(s1, id, t, newly_heard) =~= s1);
}

/// The error that a write which does not apply is refused with.
pub open spec fn write_error(w: StoreWrite) -> StoreError {
    match w {
        StoreWrite::Insert(_) => StoreError::DuplicateId,
        _ => StoreError::NotFound,
    }
}

} // verus!
