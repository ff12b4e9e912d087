use vstd::prelude::*;
use crate::frame::Frame;
use crate::source::{ByteSource, FetchStep, ReadSignal, StreamError};

verus! {

/// How many bytes are buffered before the decoder is asked for a header or a
/// frame, unless the source ends first.
pub const PREFETCH_THRESHOLD: usize = 100000;

/// Where an interactive session stands.
#[derive(Debug, Clone, Copy, PartialEq, Eq, Structural)]
pub enum SessionState {
    Idle,
    AwaitingHeader,
    Streaming,
    Finished,
}

/// What the session reports to its host instead of a header or a frame.
#[derive(Debug, Clone, Copy, PartialEq, Eq, Structural)]
pub enum SessionError {
    /// The byte source failed permanently.
    SourceFailure,
    /// The decoder rejected the header bytes.
    MalformedHeader,
}

/// An interactive decoding session over a pushed byte stream.
///
/// Before each header or frame request the host runs the prefetch step: while
/// `prefetch` answers `Pump` it awaits the next chunk of the stream and hands it
/// to `apply_chunk` (or a fault to `apply_failure`). Then it asks the decoder,
/// which reads through `read`, and hands the decoder's answer to `get_header`,
/// `next_frame` or `next_frame_owned`.
pub struct CptvDecoderContext {
    source: ByteSource,
    state: SessionState,
    current: Option<Frame>,
}

impl CptvDecoderContext {
    pub closed spec fn source_spec(&self) -> ByteSource {
        self.source
    }

    pub closed spec fn state_spec(&self) -> SessionState {
        self.state
    }

    /// The samples of the frame that `next_frame` last lent out.
    pub closed spec fn current_samples(&self) -> Option<Seq<u16>> {
        match self.current {
            Some(f) => Some(f.samples@),
            None => None,
        }
    }

    pub closed spec fn wf(&self) -> bool {
        self.source.wf()
    }

    /// A fresh session over a stream that has delivered nothing yet.
    pub fn new_with_readable_stream() -> (r: CptvDecoderContext)
        ensures
            r.wf(),
            r.state_spec() == SessionState::Idle,
            r.source_spec().buffered() == Seq::<u8>::empty(),
            !r.source_spec().exhausted_spec(),
            !r.source_spec().failed_spec(),
            r.current_samples() is None,
    {
        CptvDecoderContext { source: ByteSource::new(), state: SessionState::Idle, current: None }
    }

    /// The prefetch decision: pump until `PREFETCH_THRESHOLD` bytes are buffered
    /// or the stream has ended; a failed stream stays failed. The first request
    /// moves an idle session to awaiting its header.
    pub fn prefetch(&mut self) -> (r: FetchStep)
        requires
            old(self).wf(),
        ensures
            final(self).wf(),
            final(self).source_spec() == old(self).source_spec(),
            final(self).current_samples() == old(self).current_samples(),
            final(self).state_spec() == (if old(self).state_spec() == SessionState::Idle {
                SessionState::AwaitingHeader
            } else {
                old(self).state_spec()
            }),
            r == (if old(self).source_spec().failed_spec() {
                FetchStep::Failed
            } else if old(self).source_spec().buffered().len() < PREFETCH_THRESHOLD
                && !old(self).source_spec().exhausted_spec() {
                FetchStep::Pump
            } else {
                FetchStep::Ready
            }),
    {
        if self.state == SessionState::Idle {
            self.state = SessionState::AwaitingHeader;
        }
        self.source.fetch_step(PREFETCH_THRESHOLD)
    }

    /// Hands one successful result of the stream to the byte source.
    pub fn apply_chunk(&mut self, done: bool, chunk: Option<Vec<u8>>) -> (r: usize)
        requires
            old(self).wf(),
        ensures
            final(self).wf(),
            final(self).state_spec() == old(self).state_spec(),
            final(self).current_samples() == old(self).current_samples(),
            final(self).source_spec().exhausted_spec() == (old(self).source_spec().exhausted_spec()
                || done),
            final(self).source_spec().failed_spec() == old(self).source_spec().failed_spec(),
            match chunk {
                Some(c) => final(self).source_spec().buffered() == old(self).source_spec().buffered()
                    + c@ && r == c@.len(),
                None => final(self).source_spec().buffered() == old(self).source_spec().buffered()
                    && r == 0,
            },
    {
        self.source.apply_chunk(done, chunk)
    }

    /// Records a fault of the stream; the session reports it from then on.
    pub fn apply_failure(&mut self) -> (r: StreamError)
        requires
            old(self).wf(),
        ensures
            final(self).wf(),
            final(self).state_spec() == old(self).state_spec(),
            final(self).current_samples() == old(self).current_samples(),
            final(self).source_spec().failed_spec(),
            final(self).source_spec().buffered() == old(self).source_spec().buffered(),
    {
        self.source.apply_failure()
    }

    /// The decoder's read: takes up to `max_len` buffered bytes, as
    /// `ByteSource::read` does.
    pub fn read(&mut self, max_len: usize) -> (r: Result<Vec<u8>, ReadSignal>)
        requires
            old(self).wf(),
        ensures
            final(self).wf(),
            final(self).state_spec() == old(self).state_spec(),
            final(self).current_samples() == old(self).current_samples(),
            final(self).source_spec().failed_spec() == old(self).source_spec().failed_spec(),
            final(self).source_spec().exhausted_spec() == old(self).source_spec().exhausted_spec(),
            match r {
                Ok(bytes) => {
                    let n = if max_len < old(self).source_spec().buffered().len() {
                        max_len as int
                    } else {
                        old(self).source_spec().buffered().len() as int
                    };
                    &&& bytes@ == old(self).source_spec().buffered().take(n)
                    &&& final(self).source_spec().buffered() == old(self).source_spec().buffered().skip(n)
                },
                Err(sig) => {
                    &&& final(self).source_spec().buffered() == old(self).source_spec().buffered()
                    &&& (sig == ReadSignal::WouldBlock) == (!old(self).source_spec().failed_spec()
                        && old(self).source_spec().buffered().len() == 0
                        && !old(self).source_spec().exhausted_spec())
                },
            },
    {
        self.source.read(max_len)
    }

    /// Reports the decoder's answer to a header request: a failed stream is
    /// reported as such whatever the decoder said; otherwise the header passes
    /// through unchanged and streaming begins, or the header is malformed.
    pub fn get_header<H>(&mut self, decoded: Result<H, ()>) -> (r: Result<H, SessionError>)
        requires
            old(self).wf(),
        ensures
            final(self).wf(),
            final(self).source_spec() == old(self).source_spec(),
            final(self).current_samples() == old(self).current_samples(),
            old(self).source_spec().failed_spec() ==> r == Err::<H, SessionError>(
                SessionError::SourceFailure,
            ) && final(self).state_spec() == old(self).state_spec(),
            !old(self).source_spec().failed_spec() ==> match decoded {
                Ok(h) => r == Ok::<H, SessionError>(h) && final(self).state_spec() == (
                if old(self).state_spec() == SessionState::Finished {
                    SessionState::Finished
                } else {
                    SessionState::Streaming
                }),
                Err(_) => r == Err::<H, SessionError>(SessionError::MalformedHeader)
                    && final(self).state_spec() == old(self).state_spec(),
            },
    {
        if self.source.is_failed() {
            return Err(SessionError::SourceFailure);
        }
        match decoded {
            Ok(h) => {
                if self.state != SessionState::Finished {
                    self.state = SessionState::Streaming;
                }
                Ok(h)
            },
            Err(_) => Err(SessionError::MalformedHeader),
        }
    }

    /// Keeps the decoder's next frame in the session, or records the end of the
    /// clip (a finished session stays finished). Shared by both frame requests.
    fn take_frame(&mut self, decoded: Option<Frame>) -> (r: Result<bool, SessionError>)
        requires
            old(self).wf(),
        ensures
            final(self).wf(),
            final(self).source_spec() == old(self).source_spec(),
            old(self).source_spec().failed_spec() ==> r == Err::<bool, SessionError>(
                SessionError::SourceFailure,
            ) && final(self).state_spec() == old(self).state_spec()
                && final(self).current_samples() == old(self).current_samples(),
            !old(self).source_spec().failed_spec() ==> match decoded {
                Some(f) => if old(self).state_spec() == SessionState::Finished {
                    r == Ok::<bool, SessionError>(false) && final(self).current_samples() is None
                        && final(self).state_spec() == SessionState::Finished
                } else {
                    r == Ok::<bool, SessionError>(true) && final(self).current_samples() == Some(
                        f.samples@,
                    ) && final(self).state_spec() == SessionState::Streaming
                },
                None => r == Ok::<bool, SessionError>(false) && final(self).current_samples() is None
                    && final(self).state_spec() == SessionState::Finished,
            },
            r == Ok::<bool, SessionError>(true) ==> (decoded is Some && final(self).current
                == decoded),
    {
        if self.source.is_failed() {
            return Err(SessionError::SourceFailure);
        }
        match decoded {
            Some(f) => {
                if self.state == SessionState::Finished {
                    self.current = None;
                    Ok(false)
                } else {
                    self.state = SessionState::Streaming;
                    self.current = Some(f);
                    Ok(true)
                }
            },
            None => {
                self.state = SessionState::Finished;
                self.current = None;
                Ok(false)
            },
        }
    }

    /// Reports the decoder's answer to a frame request (`None` once the clip has
    /// no more frames) and lends the frame out: the view lives inside the session
    /// and is only valid until the session is next changed.
    pub fn next_frame(&mut self, decoded: Option<Frame>) -> (r: Result<Option<&Frame>, SessionError>)
        requires
            old(self).wf(),
        ensures
            final(self).wf(),
            final(self).source_spec() == old(self).source_spec(),
            old(self).source_spec().failed_spec() ==> r is Err && r->Err_0
                == SessionError::SourceFailure && final(self).state_spec() == old(self).state_spec(),
            !old(self).source_spec().failed_spec() ==> r is Ok && match decoded {
                Some(f) => if old(self).state_spec() == SessionState::Finished {
                    r->Ok_0 is None && final(self).state_spec() == SessionState::Finished
                } else {
                    r->Ok_0 matches Some(v) && v.samples@ == f.samples@ && v.time_on == f.time_on
                        && v.last_ffc_time == f.last_ffc_time && v.last_ffc_temp_bits
                        == f.last_ffc_temp_bits && v.frame_temp_bits == f.frame_temp_bits
                        && v.is_background_frame == f.is_background_frame && final(self).current_samples() == Some(f.samples@) && final(self).state_spec()
                        == SessionState::Streaming
                },
                None => r->Ok_0 is None && final(self).state_spec() == SessionState::Finished,
            },
    {
        match self.take_frame(decoded) {
            Err(e) => Err(e),
            Ok(false) => Ok(None),
            Ok(true) => match &self.current {
                Some(f) => Ok(Some(f)),
                None => Ok(None),
            },
        }
    }

    /// Like `next_frame`, but hands out an independent copy of the frame that
    /// stays valid whatever happens to the session afterwards.
    pub fn next_frame_owned(&mut self, decoded: Option<Frame>) -> (r: Result<Option<Frame>, SessionError>)
        requires
            old(self).wf(),
        ensures
            final(self).wf(),
            final(self).source_spec() == old(self).source_spec(),
            old(self).source_spec().failed_spec() ==> r == Err::<Option<Frame>, SessionError>(
                SessionError::SourceFailure,
            ) && final(self).state_spec() == old(self).state_spec(),
            !old(self).source_spec().failed_spec() ==> r is Ok && match decoded {
                Some(f) => if old(self).state_spec() == SessionState::Finished {
                    r->Ok_0 is None && final(self).state_spec() == SessionState::Finished
                } else {
                    r->Ok_0 matches Some(v) && v.samples@ == f.samples@ && v.time_on == f.time_on
                        && v.last_ffc_time == f.last_ffc_time && v.last_ffc_temp_bits
                        == f.last_ffc_temp_bits && v.frame_temp_bits == f.frame_temp_bits
                        && v.is_background_frame == f.is_background_frame && final(self).current_samples() == Some(f.samples@) && final(self).state_spec()
                        == SessionState::Streaming
                },
                None => r->Ok_0 is None && final(self).state_spec() == SessionState::Finished,
            },
    {
        match self.take_frame(decoded) {
            Err(e) => Err(e),
            Ok(false) => Ok(None),
            Ok(true) => match &self.current {
                Some(f) => Ok(Some(f.copy())),
                None => Ok(None),
            },
        }
    }

    /// Where the session stands.
    pub fn state(&self) -> (r: SessionState)
        ensures
            r == self.state_spec(),
    {
        self.state
    }
}

} // verus!
