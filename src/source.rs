use vstd::prelude::*;

verus! {

/// Why a read handed back no bytes.
#[derive(Debug, Clone, Copy, PartialEq, Eq, Structural)]
pub enum ReadSignal {
    /// Nothing is buffered yet, but the source may still deliver more.
    WouldBlock,
    /// Nothing is buffered and the source has finished.
    EndOfData,
    /// The source reported a permanent fault.
    SourceFailure,
}

/// A permanent fault reported by the asynchronous source.
#[derive(Debug, Clone, Copy, PartialEq, Eq, Structural)]
pub struct StreamError;

/// What a caller that needs buffered bytes must do next.
#[derive(Debug, Clone, Copy, PartialEq, Eq, Structural)]
pub enum FetchStep {
    /// Wait for the next chunk of the source and hand it to `apply_chunk`.
    Pump,
    /// Enough bytes are buffered, or the source has finished.
    Ready,
    /// The source has failed; no further progress is possible.
    Failed,
}

/// Bytes pushed in by an asynchronous source, read out synchronously.
///
/// Alongside the buffered bytes it keeps, as ghost state, everything that was
/// ever delivered and everything that was read out: what was read, followed by
/// what is buffered, is always exactly what was delivered.
pub struct ByteSource {
    sink: Vec<u8>,
    exhausted: bool,
    failed: bool,
    delivered: Ghost<Seq<u8>>,
    consumed: Ghost<Seq<u8>>,
}

impl ByteSource {
    /// The bytes buffered and not yet read.
    pub closed spec fn buffered(&self) -> Seq<u8> {
        self.sink@
    }

    /// Whether the source has reported its end.
    pub closed spec fn exhausted_spec(&self) -> bool {
        self.exhausted
    }

    /// Whether the source has reported a fault.
    pub closed spec fn failed_spec(&self) -> bool {
        self.failed
    }

    /// Every byte the source has delivered, in order.
    pub closed spec fn delivered(&self) -> Seq<u8> {
        self.delivered@
    }

    /// Every byte handed out by `read`, in order.
    pub closed spec fn consumed(&self) -> Seq<u8> {
        self.consumed@
    }

    pub closed spec fn wf(&self) -> bool {
        self.consumed@ + self.sink@ == self.delivered@
    }

    /// An empty buffer over a source that has delivered nothing yet.
    pub fn new() -> (r: ByteSource)
        ensures
            r.wf(),
            r.buffered() == Seq::<u8>::empty(),
            r.delivered() == Seq::<u8>::empty(),
            r.consumed() == Seq::<u8>::empty(),
            !r.exhausted_spec(),
            !r.failed_spec(),
    {
        ByteSource {
            sink: Vec::new(),
            exhausted: false,
            failed: false,
            delivered: Ghost(Seq::empty()),
            consumed: Ghost(Seq::empty()),
        }
    }

    /// Records one successful result of the source: an optional chunk of bytes,
    /// and whether the source reports that it is done. Returns how many bytes
    /// were added.
    pub fn apply_chunk(&mut self, done: bool, chunk: Option<Vec<u8>>) -> (r: usize)
        requires
            old(self).wf(),
        ensures
            final(self).wf(),
            final(self).exhausted_spec() == (old(self).exhausted_spec() || done),
            final(self).failed_spec() == old(self).failed_spec(),
            final(self).consumed() == old(self).consumed(),
            match chunk {
                Some(c) => {
                    &&& final(self).buffered() == old(self).buffered() + c@
                    &&& final(self).delivered() == old(self).delivered() + c@
                    &&& r == c@.len()
                },
                None => {
                    &&& final(self).buffered() == old(self).buffered()
                    &&& final(self).delivered() == old(self).delivered()
                    &&& r == 0
                },
            },
    {
        if done {
            self.exhausted = true;
        }
        match chunk {
            Some(c) => {
                let mut c = c;
                let n = c.len();
                proof {
                    self.delivered@ = self.delivered@ + c@;
                    assert(self.consumed@ + (self.sink@ + c@) =~= self.delivered@);
                }
                self.sink.append(&mut c);
                n
            },
            None => 0,
        }
    }

    /// Records that the source reported a fault. The fault is permanent.
    pub fn apply_failure(&mut self) -> (r: StreamError)
        requires
            old(self).wf(),
        ensures
            final(self).wf(),
            final(self).failed_spec(),
            final(self).exhausted_spec() == old(self).exhausted_spec(),
            final(self).buffered() == old(self).buffered(),
            final(self).delivered() == old(self).delivered(),
            final(self).consumed() == old(self).consumed(),
    {
        self.failed = true;
        StreamError
    }

    /// Takes up to `max_len` bytes from the front of the buffer.
    ///
    /// A failed source always reports `SourceFailure`. Otherwise a non-empty
    /// buffer hands out `min(max_len, buffered)` bytes, an empty buffer of an
    /// exhausted source reports `EndOfData`, and an empty buffer of a live source
    /// reports `WouldBlock`.
    pub fn read(&mut self, max_len: usize) -> (r: Result<Vec<u8>, ReadSignal>)
        requires
            old(self).wf(),
        ensures
            final(self).wf(),
            final(self).exhausted_spec() == old(self).exhausted_spec(),
            final(self).failed_spec() == old(self).failed_spec(),
            final(self).delivered() == old(self).delivered(),
            match r {
                Ok(bytes) => {
                    let n = if max_len < old(self).buffered().len() {
                        max_len as int
                    } else {
                        old(self).buffered().len() as int
                    };
                    &&& !old(self).failed_spec()
                    &&& old(self).buffered().len() > 0
                    &&& bytes@ == old(self).buffered().take(n)
                    &&& final(self).buffered() == old(self).buffered().skip(n)
                    &&& final(self).consumed() == old(self).consumed() + bytes@
                },
                Err(sig) => {
                    &&& final(self).buffered() == old(self).buffered()
                    &&& final(self).consumed() == old(self).consumed()
                    &&& (sig == ReadSignal::SourceFailure) == old(self).failed_spec()
                    &&& (sig == ReadSignal::WouldBlock) == (!old(self).failed_spec()
                        && old(self).buffered().len() == 0 && !old(self).exhausted_spec())
                    &&& (sig == ReadSignal::EndOfData) == (!old(self).failed_spec()
                        && old(self).buffered().len() == 0 && old(self).exhausted_spec())
                },
            },
    {
        if self.failed {
            return Err(ReadSignal::SourceFailure);
        }
        if self.sink.len() == 0 {
            if self.exhausted {
                return Err(ReadSignal::EndOfData);
            } else {
                return Err(ReadSignal::WouldBlock);
            }
        }
        let n = if max_len < self.sink.len() {
            max_len
        } else {
            self.sink.len()
        };
        let mut rest = self.sink.split_off(n);
        std::mem::swap(&mut self.sink, &mut rest);
        proof {
            let old_consumed = self.consumed@;
            self.consumed@ = self.consumed@ + rest@;
            assert(rest@ + self.sink@ =~= old(self).sink@);
            assert(self.consumed@ + self.sink@ =~= old_consumed + (rest@ + self.sink@));
            assert(rest@ =~= old(self).sink@.take(n as int));
            assert(self.sink@ =~= old(self).sink@.skip(n as int));
        }
        Ok(rest)
    }

    /// Decides whether more chunks must be awaited before `threshold` bytes are
    /// buffered: pump while fewer are buffered and the source is live.
    pub fn fetch_step(&self, threshold: usize) -> (r: FetchStep)
        ensures
            r == (if self.failed_spec() {
                FetchStep::Failed
            } else if self.buffered().len() < threshold && !self.exhausted_spec() {
                FetchStep::Pump
            } else {
                FetchStep::Ready
            }),
    {
        if self.failed {
            FetchStep::Failed
        } else if self.sink.len() < threshold && !self.exhausted {
            FetchStep::Pump
        } else {
            FetchStep::Ready
        }
    }

    /// How many bytes are buffered.
    pub fn buffered_len(&self) -> (r: usize)
        ensures
            r == self.buffered().len(),
    {
        self.sink.len()
    }

    /// Whether the source has reported its end.
    pub fn is_exhausted(&self) -> (r: bool)
        ensures
            r == self.exhausted_spec(),
    {
        self.exhausted
    }

    /// Whether the source has reported a fault.
    pub fn is_failed(&self) -> (r: bool)
        ensures
            r == self.failed_spec(),
    {
        self.failed
    }
}

/// Whatever chunks were delivered and whatever sizes were read, once the source
/// is exhausted and its buffer drained, the bytes read out, in order, are exactly
/// the bytes delivered; and a read can report `WouldBlock` only while nothing is
/// buffered and the source is live.
pub proof fn lemma_reads_reconstruct_stream(s: &ByteSource)
    requires
        s.wf(),
    ensures
        s.consumed() + s.buffered() == s.delivered(),
        s.buffered().len() == 0 ==> s.consumed() == s.delivered(),
        s.consumed().len() <= s.delivered().len(),
        s.consumed() == s.delivered().take(s.consumed().len() as int),
{
    assert(s.consumed() + s.buffered() == s.delivered());
    assert(s.buffered().len() == 0 ==> s.consumed() + s.buffered() =~= s.consumed());
    assert(s.delivered().take(s.consumed().len() as int) =~= s.consumed());
}

} // verus!
