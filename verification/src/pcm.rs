//! Audio framing for the speech-to-text stream: 16-bit little-endian PCM
//! encoding, and batching of samples or bytes into fixed-size frames.

use vstd::prelude::*;

verus! {

/// The sample rate the transcription service is fed, in Hz.
pub const TARGET_SAMPLE_RATE: u32 = 16000;

/// Number of device-rate samples handed to the resampler at a time.
pub const RESAMPLE_CHUNK: usize = 1024;

/// Bytes of 16 kHz mono 16-bit audio per millisecond.
pub const BYTES_PER_MS: usize = 32;

/// Duration of one regular frame sent over the socket.
pub const MIN_SEND_MS: usize = 100;

/// Size of one regular frame sent over the socket (100 ms of audio).
pub const SEND_CHUNK_BYTES: usize = MIN_SEND_MS * BYTES_PER_MS;

/// Shortest frame the service accepts, in milliseconds.
pub const MIN_FRAME_MS: usize = 50;

/// Longest frame the service accepts, in milliseconds.
pub const MAX_FRAME_MS: usize = 1000;

/// A trailing frame shorter than this many bytes is padded with silence.
pub const MIN_TAIL_BYTES: usize = MIN_FRAME_MS * BYTES_PER_MS;

/// A frame of `len` bytes lies inside the duration window the service accepts.
pub open spec fn accepted_frame_len(len: int) -> bool {
    MIN_FRAME_MS * BYTES_PER_MS <= len <= MAX_FRAME_MS * BYTES_PER_MS
}

/// Whether audio captured at `device_rate` has to be resampled before it is sent.
pub fn needs_resampling(device_rate: u32) -> (r: bool)
    ensures
        r == (device_rate != TARGET_SAMPLE_RATE),
{
    device_rate != TARGET_SAMPLE_RATE
}

/// The two's-complement bit pattern of a sample, as an unsigned number.
pub open spec fn sample_bits(s: i16) -> int {
    if s >= 0 {
        s as int
    } else {
        s + 65536
    }
}

/// Little-endian bytes of one sample: low byte first.
pub open spec fn sample_le_bytes(s: i16) -> Seq<u8> {
    seq![(sample_bits(s) % 256) as u8, (sample_bits(s) / 256) as u8]
}

/// Little-endian PCM16 encoding of a sequence of samples.
pub open spec fn pcm16_le(samples: Seq<i16>) -> Seq<u8>
    decreases samples.len(),
{
    if samples.len() == 0 {
        Seq::empty()
    } else {
        pcm16_le(samples.drop_last()) + sample_le_bytes(samples.last())
    }
}

/// Encodes samples as 16-bit little-endian PCM bytes.
pub fn pcm16_le_bytes(samples: &[i16]) -> (bytes: Vec<u8>)
    ensures
        bytes@ == pcm16_le(samples@),
{
    let mut bytes: Vec<u8> = Vec::new();
    let mut i: usize = 0;
    while i < samples.len()
        invariant
            i <= samples@.len(),
            bytes@ == pcm16_le(samples@.take(i as int)),
        decreases samples@.len() - i,
    {
        let s = samples[i];
        let bits: u16 = if s >= 0 {
            s as u16
        } else {
            (s as i32 + 65536) as u16
        };
        bytes.push((bits % 256) as u8);
        bytes.push((bits / 256) as u8);
        assert(samples@.take(i + 1).drop_last() =~= samples@.take(i as int));
        i = i + 1;
    }
    assert(samples@.take(samples@.len() as int) =~= samples@);
    bytes
}

/// The encoding is two bytes per sample, and each sample is the low byte plus
/// 256 times the high byte, read as a two's-complement 16-bit number.
pub proof fn lemma_pcm16_le_layout(samples: Seq<i16>)
    ensures
        pcm16_le(samples).len() == 2 * samples.len(),
        forall|i: int|
            0 <= i < samples.len() ==> #[trigger] pcm16_le(samples)[2 * i] + 256 * pcm16_le(
                samples,
            )[2 * i + 1] == sample_bits(samples[i]),
    decreases samples.len(),
{
    if samples.len() > 0 {
        let init = samples.drop_last();
        lemma_pcm16_le_layout(init);
        assert forall|i: int| 0 <= i < samples.len() implies #[trigger] pcm16_le(samples)[2 * i]
            + 256 * pcm16_le(samples)[2 * i + 1] == sample_bits(samples[i]) by {
            if i < init.len() {
                assert(samples[i] == init[i]);
                assert(pcm16_le(init)[2 * i] + 256 * pcm16_le(init)[2 * i + 1] == sample_bits(
                    init[i],
                ));
            }
        }
    }
}

/// What a sequence of frames holds, in order.
pub open spec fn frames_content<T>(frames: Seq<Vec<T>>) -> Seq<T>
    decreases frames.len(),
{
    if frames.len() == 0 {
        Seq::empty()
    } else {
        frames_content(frames.drop_last()) + frames.last()@
    }
}

/// The frames of two batches, one after the other, hold the items of the
/// first batch followed by those of the second: successive pushes hand out the
/// stream in order, with nothing lost or repeated.
pub proof fn lemma_frames_content_concat<T>(a: Seq<Vec<T>>, b: Seq<Vec<T>>)
    ensures
        frames_content(a + b) == frames_content(a) + frames_content(b),
    decreases b.len(),
{
    if b.len() == 0 {
        assert(a + b =~= a);
        assert(frames_content(a) + frames_content(b) =~= frames_content(a));
    } else {
        assert((a + b).drop_last() =~= a + b.drop_last());
        lemma_frames_content_concat(a, b.drop_last());
        assert(frames_content(a) + frames_content(b) =~= frames_content(a) + frames_content(
            b.drop_last(),
        ) + b.last()@);
    }
}

/// `s` padded with copies of `fill` up to `min_len` items.
pub open spec fn padded<T>(s: Seq<T>, min_len: nat, fill: T) -> Seq<T> {
    if s.len() >= min_len {
        s
    } else {
        s + Seq::new((min_len - s.len()) as nat, |i: int| fill)
    }
}

/// Copies `src[from..to]` into a new vector.
fn copy_range<T: Copy>(src: &[T], from: usize, to: usize) -> (out: Vec<T>)
    requires
        from <= to <= src@.len(),
    ensures
        out@ == src@.subrange(from as int, to as int),
{
    let mut out: Vec<T> = Vec::new();
    let mut i: usize = from;
    while i < to
        invariant
            from <= i <= to <= src@.len(),
            out@ == src@.subrange(from as int, i as int),
        decreases to - i,
    {
        out.push(src[i]);
        assert(src@.subrange(from as int, i + 1) =~= src@.subrange(from as int, i as int).push(
            src@[i as int],
        ));
        i = i + 1;
    }
    out
}

/// Collects items into frames of exactly `frame_len` items, holding back the
/// remainder until more items arrive.
pub struct FrameBatcher<T> {
    pending: Vec<T>,
    frame_len: usize,
}

impl<T> FrameBatcher<T> {
    #[verifier::type_invariant]
    spec fn inv(self) -> bool {
        &&& self.frame_len > 0
        &&& self.pending@.len() < self.frame_len
    }

    /// Items received but not yet handed out in a frame.
    pub closed spec fn pending(&self) -> Seq<T> {
        self.pending@
    }

    /// The number of items in each frame.
    pub closed spec fn frame_len(&self) -> nat {
        self.frame_len as nat
    }
}

impl<T: Copy> FrameBatcher<T> {
    /// An empty batcher that hands out frames of `frame_len` items.
    pub fn new(frame_len: usize) -> (b: Self)
        requires
            frame_len > 0,
        ensures
            b.pending() == Seq::<T>::empty(),
            b.frame_len() == frame_len,
    {
        FrameBatcher { pending: Vec::new(), frame_len }
    }

    /// The number of items held back.
    pub fn pending_len(&self) -> (n: usize)
        ensures
            n == self.pending().len(),
    {
        self.pending.len()
    }

    /// Appends `data` and returns every complete frame, in order. What is left
    /// over is shorter than one frame and stays pending.
    pub fn push(&mut self, data: &[T]) -> (frames: Vec<Vec<T>>)
        ensures
            final(self).frame_len() == old(self).frame_len(),
            final(self).frame_len() > 0,
            final(self).pending().len() < final(self).frame_len(),
            forall|i: int| 0 <= i < frames@.len() ==> #[trigger] frames@[i]@.len() == final(self).frame_len(),
            frames_content(frames@) + final(self).pending() == old(self).pending() + data@,
    {
        proof {
            use_type_invariant(&*self);
        }
        let fl = self.frame_len;
        let mut all: Vec<T> = copy_range(self.pending.as_slice(), 0, self.pending.len());
        let mut j: usize = 0;
        while j < data.len()
            invariant
                j <= data@.len(),
                all@ == self.pending@ + data@.subrange(0, j as int),
            decreases data@.len() - j,
        {
            all.push(data[j]);
            assert(data@.subrange(0, j + 1) =~= data@.subrange(0, j as int).push(data@[j as int]));
            j = j + 1;
        }
        assert(data@.subrange(0, data@.len() as int) =~= data@);
        let mut frames: Vec<Vec<T>> = Vec::new();
        let mut start: usize = 0;
        while all.len() - start >= fl
            invariant
                fl > 0,
                start <= all@.len(),
                frames_content(frames@) == all@.subrange(0, start as int),
                forall|i: int| 0 <= i < frames@.len() ==> #[trigger] frames@[i]@.len() == fl,
            decreases all@.len() - start,
        {
            let frame = copy_range(all.as_slice(), start, start + fl);
            let ghost before = frames@;
            frames.push(frame);
            assert(frames@.drop_last() =~= before);
            assert(all@.subrange(0, (start + fl) as int) =~= all@.subrange(0, start as int)
                + frame@);
            start = start + fl;
        }
        let rest = copy_range(all.as_slice(), start, all.len());
        assert(all@.subrange(0, start as int) + rest@ =~= all@);
        self.pending = rest;
        frames
    }

    /// Ends the stream: the pending items, padded with `fill` up to `min_len`
    /// items, or `None` when nothing is pending.
    pub fn finish(self, min_len: usize, fill: T) -> (tail: Option<Vec<T>>)
        ensures
            self.pending().len() == 0 ==> tail is None,
            self.pending().len() > 0 ==> (tail matches Some(t) && t@ == padded(
                self.pending(),
                min_len as nat,
                fill,
            )),
    {
        let FrameBatcher { pending, frame_len: _ } = self;
        if pending.len() == 0 {
            return None;
        }
        let mut out = pending;
        let ghost start = out@;
        while out.len() < min_len
            invariant
                start.len() <= out@.len(),
                out@.subrange(0, start.len() as int) == start,
                forall|i: int| start.len() <= i < out@.len() ==> out@[i] == fill,
                start.len() < min_len ==> out@.len() <= min_len,
                start.len() >= min_len ==> out@.len() == start.len(),
            decreases min_len - out@.len(),
        {
            out.push(fill);
        }
        proof {
            if start.len() < min_len {
                assert(out@ =~= padded(start, min_len as nat, fill));
            } else {
                assert(out@ =~= start);
            }
        }
        Some(out)
    }
}

/// Every frame sent for a batcher of `SEND_CHUNK_BYTES`-byte frames, including
/// a non-empty tail padded to `MIN_TAIL_BYTES`, lies in the accepted window.
pub proof fn lemma_sent_frames_accepted(pending: Seq<u8>)
    requires
        0 < pending.len() < SEND_CHUNK_BYTES,
    ensures
        accepted_frame_len(SEND_CHUNK_BYTES as int),
        accepted_frame_len(padded(pending, MIN_TAIL_BYTES as nat, 0u8).len() as int),
{
}

} // verus!
