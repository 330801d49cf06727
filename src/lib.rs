//! Song history and recognition session logic for a music-recognition assistant.
//!
//! - `song`: the song model, its builder and provider links.
//! - `record`: the durable form of a song.
//! - `store`: the deduplicated, write-through song store and its ranked search.
//! - `session`: the state machine of one listen attempt.
//! - `history`: what a successful recognition does to the store.
//! - `capture`: the in-memory sink of a recording and the pipeline's bus table.
mod capture;
mod fuzzy;
mod history;
mod record;
mod session;
mod song;
mod store;
mod timer;

pub use capture::{bus_reaction, handle_bus_message, BusMessage, BusReaction, CaptureError, Recorder};
pub use fuzzy::skim_score;
pub use history::{
    find_first_same, find_same, first_with_key, is_first_same, key_of, lemma_second_recognition_touches,
    lower_of, new_song, plan_recognized, same_song, song_from_metadata, song_key, SongKey,
};
pub use record::{
    empty_record, lemma_empty_record_defaults, lemma_record_round_trip, record_of, song_of, SongRecord,
    SongRecordView,
};
pub use session::{
    after_cancel, after_listen, after_response, enter, enter_idle, is_finished, is_in_progress, kind_of,
    lemma_cancel_silences_late_response, next_generation, outcome_state, response_is_current,
    RecognizeError, RecognizeSession, RequestError, SessionError, SessionState, SessionView, SongMetadata,
    Stage, StateKind, Verdict,
};
pub use song::{
    search_choice, with_last_heard, with_newly_heard, DateTime, ExternalLinkKey, ExternalLinks, Song,
    SongBuilder, SongId, SongView,
};
pub use store::{
    apply_write, contains_id, ids_unique, is_ranking, lemma_identity_is_id, lemma_touch_idempotent,
    position_of, ranks_before, recency, touch_needed, touched, write_applies, write_error, SearchHit,
    SongStore, StoreError, StoreWrite,
};
pub use timer::Timer;
