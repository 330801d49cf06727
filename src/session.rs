use vstd::prelude::*;

use crate::song::{DateTime, ExternalLinks};

verus! {

/// Why a request to the recognition service failed.
#[derive(Clone, Copy, Debug, PartialEq, Eq, Structural)]
pub enum RequestError {
    Network,
    ServiceUnavailable,
    QuotaExceeded,
    MalformedResponse,
}

/// The step of an attempt at which an error arose.
#[derive(Clone, Copy, Debug, PartialEq, Eq, Structural)]
pub enum Stage {
    Capture,
    Encode,
    Upload,
    Parse,
    Persist,
}

impl RequestError {
    /// Whether the user may usefully try again.
    pub fn is_retryable(&self) -> (r: bool)
        ensures
            r == (*self == RequestError::Network || *self == RequestError::ServiceUnavailable),
    {
        match self {
            RequestError::Network | RequestError::ServiceUnavailable => true,
            _ => false,
        }
    }
}

/// Why an attempt ended in `Failed`.
#[derive(Clone, Copy, Debug, PartialEq, Eq, Structural)]
pub enum RecognizeError {
    /// The capture device was unavailable or could not be set up.
    Device,
    /// The recognition request failed.
    Request(RequestError),
}

impl RecognizeError {
    pub open spec fn spec_stage(self) -> Stage {
        match self {
            RecognizeError::Device => Stage::Capture,
            RecognizeError::Request(RequestError::MalformedResponse) => Stage::Parse,
            RecognizeError::Request(_) => Stage::Upload,
        }
    }

    /// The step at which the attempt failed.
    pub fn stage(&self) -> (r: Stage)
        ensures
            r == self.spec_stage(),
    {
        match self {
            RecognizeError::Device => Stage::Capture,
            RecognizeError::Request(RequestError::MalformedResponse) => Stage::Parse,
            RecognizeError::Request(_) => Stage::Upload,
        }
    }
}

/// What the recognition service knows of a song.
#[derive(Debug)]
pub struct SongMetadata {
    pub title: String,
    pub artist: String,
    pub album: String,
    pub release_date: Option<String>,
    pub external_links: ExternalLinks,
    pub album_art_link: Option<String>,
    pub playback_link: Option<String>,
    pub lyrics: Option<String>,
}

/// The answer of the recognition service.
#[derive(Debug)]
pub enum Verdict {
    Match(SongMetadata),
    NoMatch,
}

/// The state of one listen attempt.
#[derive(Debug)]
pub enum SessionState {
    Idle,
    Listening { started_at: DateTime },
    Recognizing { clip: Vec<u8> },
    Succeeded { song: SongMetadata },
    NoMatchFound,
    Failed { error: RecognizeError },
}

/// The variant of a `SessionState`, as carried by notifications.
#[derive(Clone, Copy, Debug, PartialEq, Eq, Structural)]
pub enum StateKind {
    Idle,
    Listening,
    Recognizing,
    Succeeded,
    NoMatchFound,
    Failed,
}

pub open spec fn kind_of(s: SessionState) -> StateKind {
    match s {
        SessionState::Idle => StateKind::Idle,
        SessionState::Listening { .. } => StateKind::Listening,
        SessionState::Recognizing { .. } => StateKind::Recognizing,
        SessionState::Succeeded { .. } => StateKind::Succeeded,
        SessionState::NoMatchFound => StateKind::NoMatchFound,
        SessionState::Failed { .. } => StateKind::Failed,
    }
}

/// Listening or Recognizing: an attempt is under way.
pub open spec fn is_in_progress(s: SessionState) -> bool {
    s is Listening || s is Recognizing
}

/// Succeeded, NoMatchFound or Failed: an attempt has ended.
pub open spec fn is_finished(s: SessionState) -> bool {
    s is Succeeded || s is NoMatchFound || s is Failed
}

/// Why a command was refused.
#[derive(Clone, Copy, Debug, PartialEq, Eq, Structural)]
pub enum SessionError {
    AlreadyInProgress,
    NotListening,
}

/// The mathematical state of a session: its state, the generation token of
/// the current attempt, and every notification emitted so far.
pub struct SessionView {
    pub state: SessionState,
    pub generation: u64,
    pub notifications: Seq<StateKind>,
}

pub open spec fn next_generation(g: u64) -> u64 {
    if g == u64::MAX {
        0
    } else {
        (g + 1) as u64
    }
}

/// Enters `s`, notifying observers.
pub open spec fn enter(v: SessionView, s: SessionState) -> SessionView {
    SessionView { state: s, generation: v.generation, notifications: v.notifications.push(kind_of(s)) }
}

/// Enters Idle: the generation moves on, so that late responses are stale.
pub open spec fn enter_idle(v: SessionView) -> SessionView {
    SessionView {
        state: SessionState::Idle,
        generation: next_generation(v.generation),
        notifications: v.notifications.push(StateKind::Idle),
    }
}

pub open spec fn after_listen(v: SessionView, now: DateTime) -> SessionView {
    if is_finished(v.state) {
        enter(enter_idle(v), SessionState::Listening { started_at: now })
    } else {
        enter(v, SessionState::Listening { started_at: now })
    }
}

pub open spec fn after_cancel(v: SessionView) -> SessionView {
    if v.state is Idle {
        v
    } else {
        enter_idle(v)
    }
}

/// A response tagged `token` belongs to the attempt under way.
pub open spec fn response_is_current(v: SessionView, token: u64) -> bool {
    v.state is Recognizing && token == v.generation
}

/// The state that a current response leads to.
pub open spec fn outcome_state(response: Result<Verdict, RequestError>) -> SessionState {
    match response {
        Ok(Verdict::Match(m)) => SessionState::Succeeded { song: m },
        Ok(Verdict::NoMatch) => SessionState::NoMatchFound,
        Err(e) => SessionState::Failed { error: RecognizeError::Request(e) },
    }
}

pub open spec fn after_response(v: SessionView, token: u64, response: Result<Verdict, RequestError>) -> SessionView {
    if response_is_current(v, token) {
        enter(v, outcome_state(response))
    } else {
        v
    }
}

/// Cancelling any attempt that is not Idle reaches Idle and notifies it; a
/// response to the cancelled request that arrives later changes nothing and
/// notifies nothing, even once a new attempt is being recognized.
pub proof fn lemma_cancel_silences_late_response(
    v: SessionView,
    response: Result<Verdict, RequestError>,
    now: DateTime,
    clip: Vec<u8>,
)
    requires
        !(v.state is Idle),
    ensures
        after_cancel(v).state is Idle,
        after_cancel(v).notifications == v.notifications.push(StateKind::Idle),
        after_response(after_cancel(v), v.generation, response) == after_cancel(v),
        after_response(
            enter(after_listen(after_cancel(v), now), SessionState::Recognizing { clip }),
            v.generation,
            response,
        ) == enter(after_listen(after_cancel(v), now), SessionState::Recognizing { clip }),
{
}

/// One recognizer's session: at most one attempt at a time.
pub struct RecognizeSession {
    state: SessionState,
    generation: u64,
    notifications: Vec<StateKind>,
}

impl View for RecognizeSession {
    type V = SessionView;

    closed spec fn view(&self) -> SessionView {
        SessionView { state: self.state, generation: self.generation, notifications: self.notifications@ }
    }
}

fn kind(s: &SessionState) -> (r: StateKind)
    ensures
        r == kind_of(*s),
{
    match s {
        SessionState::Idle => StateKind::Idle,
        SessionState::Listening { .. } => StateKind::Listening,
        SessionState::Recognizing { .. } => StateKind::Recognizing,
        SessionState::Succeeded { .. } => StateKind::Succeeded,
        SessionState::NoMatchFound => StateKind::NoMatchFound,
        SessionState::Failed { .. } => StateKind::Failed,
    }
}

impl RecognizeSession {
    pub fn new() -> (r: RecognizeSession)
        ensures
            r@.state is Idle,
            r@.generation == 0,
            r@.notifications == Seq::<StateKind>::empty(),
    {
        RecognizeSession { state: SessionState::Idle, generation: 0, notifications: Vec::new() }
    }

    pub fn state(&self) -> (r: &SessionState)
        ensures
            *r == self@.state,
    {
        &self.state
    }

    pub fn state_kind(&self) -> (r: StateKind)
        ensures
            r == kind_of(self@.state),
    {
        kind(&self.state)
    }

    /// The token that a response must carry to count for the current attempt.
    pub fn generation(&self) -> (r: u64)
        ensures
            r == self@.generation,
    {
        self.generation
    }

    /// The recorded clip, while it is being recognized.
    pub fn clip(&self) -> (r: Option<&Vec<u8>>)
        ensures
            r is Some <==> self@.state is Recognizing,
            r is Some ==> self@.state == (SessionState::Recognizing { clip: *r->0 }),
    {
        match &self.state {
            SessionState::Recognizing { clip } => Some(clip),
            _ => None,
        }
    }

    fn go_to(&mut self, s: SessionState)
        ensures
            final(self)@ == enter(old(self)@, s),
    {
        let k = kind(&s);
        self.state = s;
        self.notifications.push(k);
    }

    fn go_idle(&mut self)
        ensures
            final(self)@ == enter_idle(old(self)@),
    {
        self.state = SessionState::Idle;
        self.generation = if self.generation == u64::MAX {
            0
        } else {
            self.generation + 1
        };
        self.notifications.push(StateKind::Idle);
    }

    /// Starts listening. A finished attempt is acknowledged first (it goes
    /// back to Idle); an attempt under way is left alone and the call fails.
    pub fn listen(&mut self, now: DateTime) -> (r: Result<(), SessionError>)
        ensures
            is_in_progress(old(self)@.state) ==> r == Err::<(), SessionError>(SessionError::AlreadyInProgress)
                && final(self)@ == old(self)@,
            !is_in_progress(old(self)@.state) ==> r is Ok && final(self)@ == after_listen(old(self)@, now),
    {
        match &self.state {
            SessionState::Listening { .. } | SessionState::Recognizing { .. } => {
                return Err(SessionError::AlreadyInProgress);
            },
            SessionState::Idle => {},
            _ => {
                self.go_idle();
            },
        }
        self.go_to(SessionState::Listening { started_at: now });
        Ok(())
    }

    /// Stops listening with the recorded clip and starts recognizing it.
    /// Returns the token that the recognition response must carry.
    pub fn stop(&mut self, clip: Vec<u8>) -> (r: Result<u64, SessionError>)
        ensures
            !(old(self)@.state is Listening) ==> r == Err::<u64, SessionError>(SessionError::NotListening)
                && final(self)@ == old(self)@,
            old(self)@.state is Listening ==> r == Ok::<u64, SessionError>(old(self)@.generation)
                && final(self)@ == enter(old(self)@, SessionState::Recognizing { clip }),
    {
        match &self.state {
            SessionState::Listening { .. } => {},
            _ => {
                return Err(SessionError::NotListening);
            },
        }
        self.go_to(SessionState::Recognizing { clip });
        Ok(self.generation)
    }

    /// The capture failed while listening. Returns whether it counted.
    pub fn capture_failed(&mut self) -> (r: bool)
        ensures
            r == old(self)@.state is Listening,
            r ==> final(self)@ == enter(old(self)@, SessionState::Failed { error: RecognizeError::Device }),
            !r ==> final(self)@ == old(self)@,
    {
        match &self.state {
            SessionState::Listening { .. } => {
                self.go_to(SessionState::Failed { error: RecognizeError::Device });
                true
            },
            _ => false,
        }
    }

    /// A recognition response tagged `token` arrived. It is applied only if it
    /// belongs to the attempt under way; a stale one changes nothing. Returns
    /// whether it was applied.
    pub fn on_response(&mut self, token: u64, response: Result<Verdict, RequestError>) -> (r: bool)
        ensures
            r == response_is_current(old(self)@, token),
            final(self)@ == after_response(old(self)@, token, response),
    {
        let current = match &self.state {
            SessionState::Recognizing { .. } => token == self.generation,
            _ => false,
        };
        if !current {
            return false;
        }
        match response {
            Ok(Verdict::Match(m)) => self.go_to(SessionState::Succeeded { song: m }),
            Ok(Verdict::NoMatch) => self.go_to(SessionState::NoMatchFound),
            Err(e) => self.go_to(SessionState::Failed { error: RecognizeError::Request(e) }),
        }
        true
    }

    /// Cancels or acknowledges the attempt: every state but Idle goes to Idle.
    /// Returns the kind of the state that was left, if any.
    pub fn cancel(&mut self) -> (r: Option<StateKind>)
        ensures
            final(self)@ == after_cancel(old(self)@),
            old(self)@.state is Idle ==> r is None,
            !(old(self)@.state is Idle) ==> r == Some(kind_of(old(self)@.state)),
    {
        let k = kind(&self.state);
        match &self.state {
            SessionState::Idle => None,
            _ => {
                self.go_idle();
                Some(k)
            },
        }
    }

    /// Hands out the notifications emitted since the last call, in order.
    pub fn take_notifications(&mut self) -> (r: Vec<StateKind>)
        ensures
            r@ == old(self)@.notifications,
            final(self)@.notifications == Seq::<StateKind>::empty(),
            final(self)@.state == old(self)@.state,
            final(self)@.generation == old(self)@.generation,
    {
        let mut taken: Vec<StateKind> = Vec::new();
        core::mem::swap(&mut taken, &mut self.notifications);
        taken
    }
}

} // verus!
