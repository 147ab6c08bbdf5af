//! The log-tail protocol.
//!
//! A log stream follows a file that a running child may still be writing.
//! The decisive rule: a zero-byte read is *not* end-of-stream while the
//! producing job is still `Running` — the stream waits and re-polls.  Only
//! when the job is `Stopped` and a further read yields nothing does the
//! stream end.  A read failure closes the stream after one terminal error.
//!
//! The file reads, the registry probe and the backoff timer happen outside
//! the library; [`LogStream::poll_step`] makes the decision for each poll
//! from the read outcome and the probed status.

use vstd::prelude::*;

verus! {

/// What one read of the log file returned: some bytes, no bytes, or an
/// I/O failure.
#[derive(Debug)]
pub enum ReadEvent {
    Data(Vec<u8>),
    Empty,
    Failed,
}

/// The stream's decision for one poll: yield a chunk, wait ~100 ms and
/// re-poll, end cleanly, or surface one terminal error.
#[derive(Debug)]
pub enum PollOutcome {
    Chunk(Vec<u8>),
    Wait,
    End,
    Fail,
}

/// The poll-relevant state of one log stream.
#[derive(Debug)]
pub struct LogStream {
    /// Set once a read has failed; every later poll ends the stream.
    pub closed: bool,
    /// How many bytes one read asks for.
    pub buffer_size: usize,
}

impl LogStream {
    /// A stream ready to be polled from the beginning of its file.
    pub fn open(buffer_size: usize) -> (r: LogStream)
        ensures
            !r.closed,
            r.buffer_size == buffer_size,
    {
        LogStream { closed: false, buffer_size }
    }

    /// Decides one poll of the stream.
    ///
    /// `event` is what reading the file just returned and
    /// `producer_stopped` whether the registry shows the producing job as
    /// `Stopped`.  A non-empty read always yields its bytes; an empty read
    /// ends the stream only when the producer is stopped, and otherwise
    /// waits (never end-of-stream while the job runs); a failed read yields
    /// one terminal error and closes the stream.
    pub fn poll_step(&mut self, event: ReadEvent, producer_stopped: bool) -> (out: PollOutcome)
        ensures
            ({
                let s0 = *old(self);
                if s0.closed {
                    out is End && *final(self) == s0
                } else {
                    match event {
                        ReadEvent::Data(d) => {
                            if d@.len() > 0 {
                                (out matches PollOutcome::Chunk(c) && c@ == d@)
                                    && *final(self) == s0
                            } else if producer_stopped {
                                out is End && *final(self) == s0
                            } else {
                                out is Wait && *final(self) == s0
                            }
                        },
                        ReadEvent::Empty => {
                            if producer_stopped {
                                out is End && *final(self) == s0
                            } else {
                                out is Wait && *final(self) == s0
                            }
                        },
                        ReadEvent::Failed => {
                            out is Fail && final(self).closed
                                && final(self).buffer_size == s0.buffer_size
                        },
                    }
                }
            }),
    {
        if self.closed {
            return PollOutcome::End;
        }
        match event {
            ReadEvent::Data(d) => {
                if d.len() > 0 {
                    PollOutcome::Chunk(d)
                } else if producer_stopped {
                    PollOutcome::End
                } else {
                    PollOutcome::Wait
                }
            },
            ReadEvent::Empty => {
                if producer_stopped {
                    PollOutcome::End
                } else {
                    PollOutcome::Wait
                }
            },
            ReadEvent::Failed => {
                self.closed = true;
                PollOutcome::Fail
            },
        }
    }
}

/// The partition of `s` into consecutive chunks of at most `b` bytes; every
/// chunk but the last has exactly `b` bytes, and no chunk is empty.
pub open spec fn chunks_spec(s: Seq<u8>, b: nat) -> Seq<Seq<u8>>
    decreases s.len(),
{
    if b == 0 || s.len() == 0 {
        Seq::<Seq<u8>>::empty()
    } else if s.len() <= b {
        seq![s]
    } else {
        seq![s.subrange(0, b as int)] + chunks_spec(s.subrange(b as int, s.len() as int), b)
    }
}

/// What a stream opened after its job stopped yields: the full file
/// contents, cut into reads of `buffer_size` bytes, and then the end of the
/// stream.  The body drives [`LogStream::poll_step`] through exactly that
/// run of polls.
pub fn finished_stream_chunks(contents: &Vec<u8>, buffer_size: usize) -> (r: Vec<Vec<u8>>)
    requires
        buffer_size > 0,
    ensures
        r.deep_view() == chunks_spec(contents@, buffer_size as nat),
{
    let mut st = LogStream::open(buffer_size);
    let mut out: Vec<Vec<u8>> = Vec::new();
    let mut pos: usize = 0;
    let n = contents.len();
    proof {
        assert(contents@.subrange(0, n as int) =~= contents@);
        assert(out.deep_view() =~~= Seq::<Seq<u8>>::empty());
        assert(Seq::<Seq<u8>>::empty() + chunks_spec(contents@, buffer_size as nat)
            =~~= chunks_spec(contents@, buffer_size as nat));
    }
    while pos < n
        invariant
            !st.closed,
            buffer_size > 0,
            n == contents@.len(),
            pos <= n,
            out.deep_view() + chunks_spec(
                contents@.subrange(pos as int, n as int),
                buffer_size as nat,
            ) == chunks_spec(contents@, buffer_size as nat),
        decreases n - pos,
    {
        let end: usize = if n - pos <= buffer_size { n } else { pos + buffer_size };
        let mut chunk: Vec<u8> = Vec::new();
        let mut t: usize = pos;
        while t < end
            invariant
                pos <= t <= end <= n,
                n == contents@.len(),
                chunk@ == contents@.subrange(pos as int, t as int),
            decreases end - t,
        {
            chunk.push(contents[t]);
            proof {
                assert(chunk@ =~= contents@.subrange(pos as int, t as int + 1));
            }
            t = t + 1;
        }
        let ghost prev_out = out.deep_view();
        let ghost chunk_view = chunk@;
        match st.poll_step(ReadEvent::Data(chunk), true) {
            PollOutcome::Chunk(c) => {
                out.push(c);
            },
            _ => {
                proof {
                    assert(false);
                }
            },
        }
        proof {
            let whole = contents@;
            let b = buffer_size as nat;
            let suffix = whole.subrange(pos as int, n as int);
            let rest = whole.subrange(end as int, n as int);
            assert(out.deep_view() =~~= prev_out + seq![chunk_view]);
            if suffix.len() <= b {
                assert(chunk_view =~= suffix);
                assert(rest.len() == 0);
                assert(chunks_spec(rest, b) == Seq::<Seq<u8>>::empty());
                assert(chunks_spec(suffix, b) =~~= seq![chunk_view] + chunks_spec(rest, b));
            } else {
                assert(chunk_view =~= suffix.subrange(0, b as int));
                assert(suffix.subrange(b as int, suffix.len() as int) =~= rest);
                assert(chunks_spec(suffix, b) =~~= seq![chunk_view] + chunks_spec(rest, b));
            }
            assert((prev_out + seq![chunk_view]) + chunks_spec(rest, b)
                =~~= prev_out + (seq![chunk_view] + chunks_spec(rest, b)));
            assert(out.deep_view() + chunks_spec(rest, b) == chunks_spec(whole, b));
        }
        pos = end;
    }
    proof {
        assert(contents@.subrange(pos as int, n as int).len() == 0);
        assert(chunks_spec(contents@.subrange(pos as int, n as int), buffer_size as nat)
            == Seq::<Seq<u8>>::empty());
        assert(out.deep_view() + Seq::<Seq<u8>>::empty() =~~= out.deep_view());
    }
    match st.poll_step(ReadEvent::Empty, true) {
        PollOutcome::End => {},
        _ => {
            proof {
                assert(false);
            }
        },
    }
    out
}

/// A log stream opened after its job stopped yields exactly the full file
/// contents: the chunks of the finished stream flatten back to the file.
pub proof fn lemma_chunks_flatten(s: Seq<u8>, b: nat)
    requires
        b > 0,
    ensures
        chunks_spec(s, b).flatten() == s,
    decreases s.len(),
{
    if s.len() == 0 {
        assert(chunks_spec(s, b) == Seq::<Seq<u8>>::empty());
        assert(Seq::<Seq<u8>>::empty().flatten() =~= s);
    } else if s.len() <= b {
        let whole = seq![s];
        assert(whole.drop_first() =~= Seq::<Seq<u8>>::empty());
        assert(whole.flatten() == s + Seq::<Seq<u8>>::empty().flatten());
        assert(s + Seq::<Seq<u8>>::empty().flatten() =~= s);
    } else {
        let head = s.subrange(0, b as int);
        let tail = s.subrange(b as int, s.len() as int);
        lemma_chunks_flatten(tail, b);
        let rest = chunks_spec(tail, b);
        let whole = seq![head] + rest;
        assert(whole.first() == head);
        assert(whole.drop_first() =~= rest);
        assert(whole.flatten() == head + rest.flatten());
        assert(head + tail =~= s);
    }
}

/// Re-opening a log stream for a finished job replays the same byte
/// sequence: what the stream yields is a function of the file contents and
/// the buffer size alone, so two runs over the same file agree chunk for
/// chunk.
pub proof fn lemma_stream_replay(s: Seq<u8>, b: nat, c1: Seq<Seq<u8>>, c2: Seq<Seq<u8>>)
    requires
        c1 == chunks_spec(s, b),
        c2 == chunks_spec(s, b),
    ensures
        c1 == c2,
{
}

} // verus!
