use vstd::prelude::*;

verus! {

/// Why a capture command was refused.
#[derive(Clone, Copy, Debug, PartialEq, Eq, Structural)]
pub enum CaptureError {
    AlreadyRecording,
    NotRecording,
}

/// The kinds of message that the capture pipeline posts on its bus.
#[derive(Clone, Copy, Debug, PartialEq, Eq, Structural)]
pub enum BusMessage {
    /// A level-meter reading.
    Level,
    /// An element message of another kind.
    Element,
    EndOfStream,
    Error,
    StateChanged,
    Warning,
    Info,
    Other,
}

/// What the owner of the pipeline does with a bus message.
#[derive(Clone, Copy, Debug, PartialEq, Eq, Structural)]
pub enum BusReaction {
    /// Hand the peak level to the callback and keep watching.
    ReportPeak,
    /// Keep watching.
    Continue,
    /// The stream ended: stop watching.
    Finish,
    /// The pipeline failed: stop watching and report the failure.
    Fail,
}

pub open spec fn bus_reaction(m: BusMessage) -> BusReaction {
    match m {
        BusMessage::Level => BusReaction::ReportPeak,
        BusMessage::EndOfStream => BusReaction::Finish,
        BusMessage::Error => BusReaction::Fail,
        _ => BusReaction::Continue,
    }
}

/// The transition table of the capture pipeline's bus.
pub fn handle_bus_message(message: BusMessage) -> (r: BusReaction)
    ensures
        r == bus_reaction(message),
{
    match message {
        BusMessage::Level => BusReaction::ReportPeak,
        BusMessage::EndOfStream => BusReaction::Finish,
        BusMessage::Error => BusReaction::Fail,
        BusMessage::Element | BusMessage::StateChanged | BusMessage::Warning | BusMessage::Info
        | BusMessage::Other => BusReaction::Continue,
    }
}

impl BusReaction {
    /// Whether the bus stays watched after this reaction.
    pub fn keeps_watching(&self) -> (r: bool)
        ensures
            r == (*self == BusReaction::ReportPeak || *self == BusReaction::Continue),
    {
        match self {
            BusReaction::ReportPeak | BusReaction::Continue => true,
            BusReaction::Finish | BusReaction::Fail => false,
        }
    }
}

/// One audio capture: the in-memory sink of encoded bytes, and whether a
/// recording is under way.
#[derive(Debug)]
pub struct Recorder {
    buffer: Option<Vec<u8>>,
    device: Option<String>,
}

impl View for Recorder {
    /// The bytes written so far, while recording.
    type V = Option<Seq<u8>>;

    closed spec fn view(&self) -> Option<Seq<u8>> {
        match self.buffer {
            Some(b) => Some(b@),
            None => None,
        }
    }
}

impl Recorder {
    pub fn new() -> (r: Recorder)
        ensures
            r@ is None,
    {
        Recorder { buffer: None, device: None }
    }

    pub fn is_recording(&self) -> (r: bool)
        ensures
            r == self@ is Some,
    {
        self.buffer.is_some()
    }

    /// Starts recording from `device_name`, or the default device.
    pub fn start(&mut self, device_name: Option<&str>) -> (r: Result<(), CaptureError>)
        ensures
            old(self)@ is Some ==> r == Err::<(), CaptureError>(CaptureError::AlreadyRecording)
                && final(self)@ == old(self)@ && final(self).device_spec() == old(self).device_spec(),
            old(self)@ is None ==> r is Ok && final(self)@ == Some(Seq::<u8>::empty())
                && final(self).device_spec() == match device_name {
                Some(d) => Some(d@),
                None => None::<Seq<char>>,
            },
    {
        if self.buffer.is_some() {
            return Err(CaptureError::AlreadyRecording);
        }
        self.device = match device_name {
            Some(d) => Some(d.to_owned()),
            None => None,
        };
        self.buffer = Some(Vec::new());
        assert(self@ == Some(Seq::<u8>::empty()));
        Ok(())
    }

    /// The device being recorded from; `None` for the default one.
    pub closed spec fn device_spec(&self) -> Option<Seq<char>> {
        self.device.deep_view()
    }

    pub fn device(&self) -> (r: Option<String>)
        ensures
            r.deep_view() == self.device_spec(),
    {
        match &self.device {
            Some(d) => Some(d.clone()),
            None => None,
        }
    }

    /// What to do with a bus message given whether a recording is under way:
    /// a level reading that arrives when no recording is under way is not
    /// reported.
    pub fn react(&self, message: BusMessage) -> (r: BusReaction)
        ensures
            self@ is Some ==> r == bus_reaction(message),
            self@ is None ==> r == if bus_reaction(message) == BusReaction::ReportPeak {
                BusReaction::Continue
            } else {
                bus_reaction(message)
            },
    {
        let r = handle_bus_message(message);
        match r {
            BusReaction::ReportPeak => {
                if self.buffer.is_some() {
                    BusReaction::ReportPeak
                } else {
                    BusReaction::Continue
                }
            },
            _ => r,
        }
    }

    /// Appends encoded bytes to the recording.
    pub fn write(&mut self, chunk: &[u8]) -> (r: Result<(), CaptureError>)
        ensures
            old(self)@ is None ==> r == Err::<(), CaptureError>(CaptureError::NotRecording)
                && final(self)@ == old(self)@,
            old(self)@ is Some ==> r is Ok && final(self)@ == Some(old(self)@->0 + chunk@),
    {
        match &mut self.buffer {
            None => Err(CaptureError::NotRecording),
            Some(buf) => {
                let ghost start = buf@;
                let mut i: usize = 0;
                while i < chunk.len()
                    invariant
                        i <= chunk@.len(),
                        buf@ == start + chunk@.subrange(0, i as int),
                    decreases chunk@.len() - i,
                {
                    buf.push(chunk[i]);
                    i = i + 1;
                    assert(buf@ =~= start + chunk@.subrange(0, i as int));
                }
                assert(chunk@.subrange(0, chunk@.len() as int) =~= chunk@);
                Ok(())
            },
        }
    }

    /// Finishes the recording and hands out what was written, which may be
    /// empty.
    pub fn stop(&mut self) -> (r: Result<Vec<u8>, CaptureError>)
        ensures
            old(self)@ is None ==> r == Err::<Vec<u8>, CaptureError>(CaptureError::NotRecording)
                && final(self)@ == old(self)@,
            old(self)@ is Some ==> r is Ok && r->Ok_0@ == old(self)@->0 && final(self)@ is None,
    {
        let mut taken: Option<Vec<u8>> = None;
        core::mem::swap(&mut taken, &mut self.buffer);
        match taken {
            None => Err(CaptureError::NotRecording),
            Some(b) => Ok(b),
        }
    }
}

} // verus!
