//! Decoding of the engine's multiplexed output framing.
//!
//! A single connection interleaves a container's standard output and standard
//! error as a sequence of frames. Each frame is an 8-byte header — byte 0 a
//! stream tag (0 standard input, 1 standard output, 2 standard error), bytes
//! 1 to 3 reserved and ignored on read, bytes 4 to 7 a big-endian payload
//! length — followed by exactly that many payload bytes.
//!
//! [`FrameDemultiplexer`] consumes the connection's bytes chunk by chunk, in
//! whatever pieces the network happens to deliver, and yields the complete
//! frames. The decoded frames depend only on the concatenation of the bytes
//! fed, never on how they were split into chunks.

use vstd::prelude::*;

use crate::errors::Error;

verus! {

/// The logical channel a frame belongs to, read from the header's tag byte.
#[derive(Clone, Copy, Debug, PartialEq, Eq, Structural)]
pub enum StreamTag {
    StdIn,
    StdOut,
    StdErr,
}

/// One complete unit of multiplexed output: a stream tag and the payload
/// bytes that followed its header. A frame is only ever produced once its
/// full header and full payload have been observed.
#[derive(Clone, Debug)]
pub struct Frame {
    pub tag: StreamTag,
    pub payload: Vec<u8>,
}

/// The decoder's position between chunks: waiting for the 8 header bytes, or
/// waiting for the `remaining` payload bytes announced by a header already
/// consumed.
#[derive(Clone, Copy, Debug)]
pub enum DemuxState {
    AwaitingHeader,
    AwaitingPayload { tag: StreamTag, remaining: usize },
}

/// The stream tag denoted by a header's first byte, if any.
pub open spec fn tag_of_byte(b: u8) -> Option<StreamTag> {
    if b == 0 {
        Some(StreamTag::StdIn)
    } else if b == 1 {
        Some(StreamTag::StdOut)
    } else if b == 2 {
        Some(StreamTag::StdErr)
    } else {
        None
    }
}

/// The payload length announced by a frame header: bytes 4 to 7, big endian.
pub open spec fn header_len(h: Seq<u8>) -> nat
    recommends
        h.len() >= 8,
{
    (h[4] as nat) * 0x100_0000 + (h[5] as nat) * 0x1_0000 + (h[6] as nat) * 0x100 + (h[7] as nat)
}

/// The frames completely contained in a byte sequence, in wire order.
/// Decoding stops at a truncated frame or at a byte that is no stream tag.
pub open spec fn decoded_frames(b: Seq<u8>) -> Seq<(StreamTag, Seq<u8>)>
    decreases b.len(),
{
    if b.len() < 8 {
        seq![]
    } else {
        match tag_of_byte(b[0]) {
            Some(t) => {
                let n = header_len(b) as int;
                if b.len() >= 8 + n {
                    seq![(t, b.subrange(8, 8 + n))] + decoded_frames(b.skip(8 + n))
                } else {
                    seq![]
                }
            },
            None => seq![],
        }
    }
}

/// Whether decoding the byte sequence runs into a header whose tag byte
/// denotes no stream, after which no further frame can be recovered.
pub open spec fn decode_stuck(b: Seq<u8>) -> bool
    decreases b.len(),
{
    if b.len() < 8 {
        false
    } else {
        match tag_of_byte(b[0]) {
            Some(t) => {
                let n = header_len(b) as int;
                if b.len() >= 8 + n {
                    decode_stuck(b.skip(8 + n))
                } else {
                    false
                }
            },
            None => true,
        }
    }
}

/// The residue left once every complete frame has been decoded: the bytes of
/// a partial header or of a frame whose payload has not fully arrived.
pub open spec fn undecoded_suffix(b: Seq<u8>) -> Seq<u8>
    decreases b.len(),
{
    if b.len() < 8 {
        b
    } else {
        match tag_of_byte(b[0]) {
            Some(t) => {
                let n = header_len(b) as int;
                if b.len() >= 8 + n {
                    undecoded_suffix(b.skip(8 + n))
                } else {
                    b
                }
            },
            None => b,
        }
    }
}

/// The abstract content of a sequence of frames.
pub open spec fn frames_view(s: Seq<Frame>) -> Seq<(StreamTag, Seq<u8>)> {
    s.map_values(|f: Frame| (f.tag, f.payload@))
}

/// Appending bytes to a stream decodes the frames already complete, then
/// whatever the old residue and the new bytes form together.
proof fn lemma_decode_extend(b: Seq<u8>, c: Seq<u8>)
    requires
        !decode_stuck(b),
    ensures
        decoded_frames(b + c) == decoded_frames(b) + decoded_frames(undecoded_suffix(b) + c),
        undecoded_suffix(b + c) == undecoded_suffix(undecoded_suffix(b) + c),
        decode_stuck(b + c) == decode_stuck(undecoded_suffix(b) + c),
    decreases b.len(),
{
    if b.len() < 8 {
        assert(undecoded_suffix(b) == b);
        assert(b + c == undecoded_suffix(b) + c);
        assert(decoded_frames(b + c) =~= decoded_frames(b) + decoded_frames(
            undecoded_suffix(b) + c,
        ));
    } else {
        match tag_of_byte(b[0]) {
            Some(t) => {
                let n = header_len(b) as int;
                if b.len() >= 8 + n {
                    let bc = b + c;
                    assert(bc[0] == b[0]);
                    assert(bc[4] == b[4] && bc[5] == b[5] && bc[6] == b[6] && bc[7] == b[7]);
                    assert(header_len(bc) == n);
                    assert(bc.len() >= 8 + n);
                    assert(bc.subrange(8, 8 + n) =~= b.subrange(8, 8 + n));
                    assert(bc.skip(8 + n) =~= b.skip(8 + n) + c);
                    lemma_decode_extend(b.skip(8 + n), c);
                    assert(decoded_frames(b + c) =~= decoded_frames(b) + decoded_frames(
                        undecoded_suffix(b) + c,
                    ));
                } else {
                    assert(undecoded_suffix(b) == b);
                    assert(decoded_frames(b + c) =~= decoded_frames(b) + decoded_frames(
                        undecoded_suffix(b) + c,
                    ));
                }
            },
            None => {
                assert(decode_stuck(b));
            },
        }
    }
}

/// Once decoding is stuck on an undecodable header, no later bytes add a
/// frame or get it unstuck.
proof fn lemma_decode_stuck_extend(b: Seq<u8>, c: Seq<u8>)
    requires
        decode_stuck(b),
    ensures
        decoded_frames(b + c) == decoded_frames(b),
        decode_stuck(b + c),
    decreases b.len(),
{
    if b.len() < 8 {
    } else {
        match tag_of_byte(b[0]) {
            Some(t) => {
                let n = header_len(b) as int;
                if b.len() >= 8 + n {
                    let bc = b + c;
                    assert(bc[0] == b[0]);
                    assert(bc[4] == b[4] && bc[5] == b[5] && bc[6] == b[6] && bc[7] == b[7]);
                    assert(header_len(bc) == n);
                    assert(bc.subrange(8, 8 + n) =~= b.subrange(8, 8 + n));
                    assert(bc.skip(8 + n) =~= b.skip(8 + n) + c);
                    lemma_decode_stuck_extend(b.skip(8 + n), c);
                    assert(decoded_frames(b + c) =~= decoded_frames(b));
                }
            },
            None => {
                let bc = b + c;
                assert(bc[0] == b[0]);
                assert(decoded_frames(b + c) =~= decoded_frames(b));
            },
        }
    }
}

/// The frames decoded from a byte stream depend only on the bytes, never on
/// how the stream was cut into delivery chunks: two chunkings of the same
/// bytes decode to the same frames.
pub proof fn lemma_chunking_independence(a: Seq<Seq<u8>>, b: Seq<Seq<u8>>)
    requires
        a.flatten() == b.flatten(),
    ensures
        decoded_frames(a.flatten()) == decoded_frames(b.flatten()),
{
}

/// Splitting a byte sequence in two at any offset and concatenating the parts
/// again decodes to exactly the frames of the unsplit sequence.
pub proof fn lemma_split_at_any_offset(b: Seq<u8>, i: int)
    requires
        0 <= i <= b.len(),
    ensures
        decoded_frames(b.take(i) + b.skip(i)) == decoded_frames(b),
{
    assert(b.take(i) + b.skip(i) =~= b);
}

/// Decodes the engine's multiplexed output framing from a stream of byte
/// chunks, emitting each frame exactly once, once complete. A residual buffer
/// holds bytes received but not yet consumed into a full header or payload,
/// so the emitted frames do not depend on the chunk boundaries.
pub struct FrameDemultiplexer {
    state: DemuxState,
    residual: Vec<u8>,
    failed: bool,
    fed: Ghost<Seq<u8>>,
}

impl FrameDemultiplexer {
    /// All bytes this decoder has been fed so far.
    pub closed spec fn bytes_fed(&self) -> Seq<u8> {
        self.fed@
    }

    /// Whether decoding has failed on a header that is no header; after that
    /// the decoder emits nothing further.
    pub closed spec fn spec_failed(&self) -> bool {
        self.failed
    }

    /// The decoder's state machine and residual buffer agree exactly with
    /// the residue of the bytes fed so far.
    pub closed spec fn wf(&self) -> bool {
        if self.failed {
            decode_stuck(self.fed@)
        } else {
            &&& !decode_stuck(self.fed@)
            &&& match self.state {
                DemuxState::AwaitingHeader => {
                    &&& self.residual@ == undecoded_suffix(self.fed@)
                    &&& self.residual@.len() < 8
                },
                DemuxState::AwaitingPayload { tag, remaining } => {
                    let u = undecoded_suffix(self.fed@);
                    &&& u.len() == 8 + self.residual@.len()
                    &&& u.skip(8) == self.residual@
                    &&& tag_of_byte(u[0]) == Some(tag)
                    &&& header_len(u) == remaining as nat
                    &&& self.residual@.len() < remaining as nat
                },
            }
        }
    }

    /// A fresh decoder that has seen no bytes.
    pub fn new() -> (d: FrameDemultiplexer)
        ensures
            d.wf(),
            d.bytes_fed() == Seq::<u8>::empty(),
            !d.spec_failed(),
    {
        FrameDemultiplexer {
            state: DemuxState::AwaitingHeader,
            residual: Vec::new(),
            failed: false,
            fed: Ghost(Seq::empty()),
        }
    }

    /// Hands the decoder the next chunk of bytes from the connection and
    /// returns every frame completed by it, in wire order. The cumulative
    /// output is exactly the frames contained in the concatenation of all
    /// bytes fed, whatever the chunk boundaries. On a header whose tag byte
    /// denotes no stream the decoder fails permanently and emits no frame
    /// from that point on.
    pub fn feed(&mut self, chunk: &[u8]) -> (out: Vec<Frame>)
        requires
            old(self).wf(),
        ensures
            final(self).wf(),
            old(self).spec_failed() ==> *final(self) == *old(self) && out@.len() == 0,
            !old(self).spec_failed() ==> {
                &&& final(self).bytes_fed() == old(self).bytes_fed() + chunk@
                &&& decoded_frames(final(self).bytes_fed()) == decoded_frames(
                    old(self).bytes_fed(),
                ) + frames_view(out@)
                &&& final(self).spec_failed() == decode_stuck(final(self).bytes_fed())
            },
    {
        let mut out: Vec<Frame> = Vec::new();
        if self.failed {
            return out;
        }
        let ghost fed0 = self.fed@;
        proof {
            lemma_decode_extend(fed0, chunk@);
        }
        self.fed = Ghost(self.fed@ + chunk@);
        let ghost mut u: Seq<u8> = undecoded_suffix(fed0) + chunk@;
        append_bytes(&mut self.residual, chunk);
        proof {
            match self.state {
                DemuxState::AwaitingHeader => {
                    assert(u =~= self.residual@);
                },
                DemuxState::AwaitingPayload { tag, remaining } => {
                    assert(u.skip(8) =~= self.residual@);
                },
            }
        }
        loop
            invariant_except_break
                !self.failed,
            invariant
                self.fed@ == fed0 + chunk@,
                !decode_stuck(fed0),
                decoded_frames(self.fed@) == decoded_frames(fed0) + frames_view(out@)
                    + decoded_frames(u),
                undecoded_suffix(self.fed@) == undecoded_suffix(u),
                decode_stuck(self.fed@) == decode_stuck(u),
                match self.state {
                    DemuxState::AwaitingHeader => u == self.residual@,
                    DemuxState::AwaitingPayload { tag, remaining } => {
                        &&& u.len() == 8 + self.residual@.len()
                        &&& u.skip(8) == self.residual@
                        &&& tag_of_byte(u[0]) == Some(tag)
                        &&& header_len(u) == remaining as nat
                    },
                },
            ensures
                self.fed@ == fed0 + chunk@,
                decoded_frames(self.fed@) == decoded_frames(fed0) + frames_view(out@),
                self.failed == decode_stuck(self.fed@),
                self.wf(),
            decreases
                    u.len() + (match self.state {
                        DemuxState::AwaitingHeader => 1int,
                        DemuxState::AwaitingPayload { .. } => 0int,
                    }),
        {
            let st = self.state;
            match st {
                DemuxState::AwaitingHeader => {
                    if self.residual.len() < 8 {
                        assert(undecoded_suffix(u) == u);
                        assert(decoded_frames(u) =~= Seq::<(StreamTag, Seq<u8>)>::empty());
                        assert(decoded_frames(self.fed@) =~= decoded_frames(fed0) + frames_view(
                            out@,
                        ));
                        break ;
                    }
                    let b0 = self.residual[0];
                    if b0 > 2 {
                        assert(tag_of_byte(u[0]) is None);
                        assert(decode_stuck(u));
                        assert(decoded_frames(u) =~= Seq::<(StreamTag, Seq<u8>)>::empty());
                        assert(decoded_frames(self.fed@) =~= decoded_frames(fed0) + frames_view(
                            out@,
                        ));
                        self.failed = true;
                        break ;
                    }
                    let tag = if b0 == 0 {
                        StreamTag::StdIn
                    } else if b0 == 1 {
                        StreamTag::StdOut
                    } else {
                        StreamTag::StdErr
                    };
                    let n: u32 = (self.residual[4] as u32) * 0x100_0000 + (self.residual[5] as u32)
                        * 0x1_0000 + (self.residual[6] as u32) * 0x100 + (self.residual[7] as u32);
                    assert(header_len(u) == n as nat);
                    let tail = self.residual.split_off(8);
                    self.residual = tail;
                    proof {
                        assert(u.skip(8) =~= self.residual@);
                    }
                    self.state = DemuxState::AwaitingPayload { tag, remaining: n as usize };
                },
                DemuxState::AwaitingPayload { tag, remaining } => {
                    if self.residual.len() < remaining {
                        assert(u.len() < 8 + remaining as int);
                        assert(undecoded_suffix(u) == u);
                        assert(decoded_frames(u) =~= Seq::<(StreamTag, Seq<u8>)>::empty());
                        assert(decoded_frames(self.fed@) =~= decoded_frames(fed0) + frames_view(
                            out@,
                        ));
                        break ;
                    }
                    let ghost u_next = u.skip(8 + remaining as int);
                    assert(u.len() >= 8 + remaining as int);
                    assert(decoded_frames(u) == seq![(tag, u.subrange(8, 8 + remaining as int))]
                        + decoded_frames(u_next));
                    assert(undecoded_suffix(u) == undecoded_suffix(u_next));
                    assert(decode_stuck(u) == decode_stuck(u_next));
                    let mut tail = self.residual.split_off(remaining);
                    core::mem::swap(&mut self.residual, &mut tail);
                    proof {
                        assert(tail@ =~= u.subrange(8, 8 + remaining as int));
                        assert(u_next =~= self.residual@);
                    }
                    let ghost out_before = out@;
                    out.push(Frame { tag, payload: tail });
                    proof {
                        assert(frames_view(out@) =~= frames_view(out_before) + seq![
                            (tag, u.subrange(8, 8 + remaining as int)),
                        ]);
                        assert(decoded_frames(self.fed@) =~= decoded_frames(fed0) + frames_view(
                            out@,
                        ) + decoded_frames(u_next));
                        u = u_next;
                    }
                    self.state = DemuxState::AwaitingHeader;
                },
            }
        }
        out
    }

    /// Whether the decoder has failed on an undecodable header. Once true,
    /// no call will emit another frame.
    pub fn is_failed(&self) -> (r: bool)
        ensures
            r == self.spec_failed(),
    {
        self.failed
    }

    /// Reports how the stream ended: cleanly — between frames, with nothing
    /// buffered — or mid-frame, in which case the incomplete frame is never
    /// surfaced and the truncation is.
    pub fn finish(&self) -> (r: Result<(), Error>)
        requires
            self.wf(),
        ensures
            r is Ok <==> !self.spec_failed() && undecoded_suffix(self.bytes_fed())
                == Seq::<u8>::empty(),
            r is Err ==> r->Err_0 is TruncatedStream,
    {
        match self.state {
            DemuxState::AwaitingHeader => {
                if !self.failed && self.residual.len() == 0 {
                    assert(undecoded_suffix(self.bytes_fed()) =~= Seq::<u8>::empty());
                    Ok(())
                } else {
                    proof {
                        if !self.failed {
                            assert(self.residual@.len() > 0);
                        }
                    }
                    Err(Error::TruncatedStream)
                }
            },
            DemuxState::AwaitingPayload { .. } => {
                proof {
                    if !self.failed {
                        assert(undecoded_suffix(self.bytes_fed()).len() >= 8);
                    }
                }
                Err(Error::TruncatedStream)
            },
        }
    }
}

/// Appends every byte of a slice to a vector.
fn append_bytes(dst: &mut Vec<u8>, src: &[u8])
    ensures
        final(dst)@ == old(dst)@ + src@,
{
    let mut i: usize = 0;
    while i < src.len()
        invariant
            i <= src.len(),
            dst@ == old(dst)@ + src@.take(i as int),
        decreases src.len() - i,
    {
        dst.push(src[i]);
        i = i + 1;
        assert(old(dst)@ + src@.take(i as int) =~= (old(dst)@ + src@.take(i - 1)).push(
            src@[i - 1],
        ));
    }
    assert(old(dst)@ + src@.take(src@.len() as int) =~= old(dst)@ + src@);
}


/// The bytes a list of delivery chunks carries, in order.
pub open spec fn chunks_bytes(chunks: Seq<Vec<u8>>) -> Seq<u8> {
    chunks.map_values(|c: Vec<u8>| c@).flatten()
}

/// Decodes a whole stream delivered as a list of chunks: the frames are
/// exactly those of the chunks' concatenated bytes — whatever the chunk
/// boundaries — and the outcome reports whether the stream ended cleanly at
/// a frame boundary.
pub fn decode_chunks(chunks: &Vec<Vec<u8>>) -> (r: (Vec<Frame>, Result<(), Error>))
    ensures
        frames_view(r.0@) == decoded_frames(chunks_bytes(chunks@)),
        r.1 is Ok <==> !decode_stuck(chunks_bytes(chunks@)) && undecoded_suffix(
            chunks_bytes(chunks@),
        ).len() == 0,
        r.1 matches Err(e) ==> e is TruncatedStream,
{
    let mut demux = FrameDemultiplexer::new();
    let mut out: Vec<Frame> = Vec::new();
    let mut i: usize = 0;
    proof {
        assert(chunks@.take(0).map_values(|c: Vec<u8>| c@) =~= Seq::<Seq<u8>>::empty());
        assert(chunks_bytes(chunks@.take(0)) =~= Seq::<u8>::empty());
        assert(frames_view(out@) =~= decoded_frames(Seq::<u8>::empty()));
    }
    while i < chunks.len()
        invariant
            i <= chunks@.len(),
            demux.wf(),
            frames_view(out@) == decoded_frames(chunks_bytes(chunks@.take(i as int))),
            demux.spec_failed() == decode_stuck(chunks_bytes(chunks@.take(i as int))),
            !demux.spec_failed() ==> demux.bytes_fed() == chunks_bytes(chunks@.take(i as int)),
            demux.spec_failed() ==> decode_stuck(demux.bytes_fed()) && decoded_frames(
                demux.bytes_fed(),
            ) == decoded_frames(chunks_bytes(chunks@.take(i as int))) && undecoded_suffix(
                chunks_bytes(chunks@.take(i as int)),
            ).len() > 0,
        decreases chunks@.len() - i,
    {
        let ghost prefix = chunks_bytes(chunks@.take(i as int));
        let ghost out_pre = out@;
        let mut frames = demux.feed(chunks[i].as_slice());
        let ghost emitted = frames@;
        out.append(&mut frames);
        proof {
            assert(chunks@.take(i + 1).map_values(|c: Vec<u8>| c@) =~= chunks@.take(
                i as int,
            ).map_values(|c: Vec<u8>| c@).push(chunks@[i as int]@));
            chunks@.take(i as int).map_values(|c: Vec<u8>| c@).lemma_flatten_push(
                chunks@[i as int]@,
            );
            assert(chunks_bytes(chunks@.take(i + 1)) == prefix + chunks@[i as int]@);
            assert(frames_view(out@) =~= frames_view(out_pre) + frames_view(emitted));
            if decode_stuck(prefix) {
                lemma_decode_stuck_extend(prefix, chunks@[i as int]@);
                assert(frames_view(emitted) =~= Seq::<(StreamTag, Seq<u8>)>::empty());
                assert(frames_view(out@) =~= decoded_frames(chunks_bytes(chunks@.take(i + 1))));
                lemma_stuck_suffix(demux.bytes_fed());
            }
            if decode_stuck(chunks_bytes(chunks@.take(i + 1))) {
                lemma_stuck_suffix(chunks_bytes(chunks@.take(i + 1)));
            }
        }
        i = i + 1;
    }
    proof {
        assert(chunks@.take(chunks@.len() as int) =~= chunks@);
        if !demux.spec_failed() && undecoded_suffix(chunks_bytes(chunks@)).len() == 0 {
            assert(undecoded_suffix(demux.bytes_fed()) =~= Seq::<u8>::empty());
        }
    }
    let outcome = demux.finish();
    (out, outcome)
}

/// A stuck stream always leaves an undecoded residue: at least the header
/// that stopped it.
proof fn lemma_stuck_suffix(b: Seq<u8>)
    requires
        decode_stuck(b),
    ensures
        undecoded_suffix(b).len() >= 8,
    decreases b.len(),
{
    if b.len() >= 8 {
        match tag_of_byte(b[0]) {
            Some(t) => {
                let n = header_len(b) as int;
                if b.len() >= 8 + n {
                    lemma_stuck_suffix(b.skip(8 + n));
                }
            },
            None => {},
        }
    }
}

} // verus!
