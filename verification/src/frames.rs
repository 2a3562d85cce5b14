use vstd::prelude::*;

verus! {

/// Bytes in one frame of PCM audio: 20 ms of 16 kHz mono audio with 16-bit
/// samples (320 samples of 2 bytes).
pub const FRAME_SIZE: usize = 640;

/// Playing time of one frame, in milliseconds.
pub const SAMPLE_DURATION_MS: u64 = 20;

/// Number of frames that `len` bytes of audio fill: `len / 640` rounded up.
pub open spec fn frame_count(len: nat) -> nat {
    (len + 639) / 640
}

/// End, exclusive, of frame `i` within `len` bytes of audio.
pub open spec fn frame_end(len: nat, i: int) -> int {
    if (i + 1) * 640 < len {
        (i + 1) * 640
    } else {
        len as int
    }
}

/// The audio cut into consecutive frames of 640 bytes; the last one holds
/// what remains and may be shorter.
pub open spec fn frames_of(data: Seq<u8>) -> Seq<Seq<u8>> {
    Seq::new(frame_count(data.len()), |i: int| data.subrange(i * 640, frame_end(data.len(), i)))
}

/// Cuts PCM audio into the frames that are written to the track one by one.
pub fn split_frames(pcm: &[u8]) -> (frames: Vec<Vec<u8>>)
    ensures
        frames@.len() == frames_of(pcm@).len(),
        forall|i: int| 0 <= i < frames@.len() ==> #[trigger] frames@[i]@ == frames_of(pcm@)[i],
{
    let len = pcm.len();
    let mut frames: Vec<Vec<u8>> = Vec::new();
    let mut start: usize = 0;
    while start < len
        invariant
            len == pcm@.len(),
            start <= len,
            start == (if frames@.len() * 640 < len { frames@.len() * 640 } else { len as nat }),
            frames@.len() == 0 || (frames@.len() - 1) * 640 < len,
            forall|i: int|
                0 <= i < frames@.len() ==> #[trigger] frames@[i]@ == pcm@.subrange(
                    i * 640,
                    frame_end(len as nat, i),
                ),
        decreases len - start,
    {
        let end: usize = if len - start > FRAME_SIZE {
            start + FRAME_SIZE
        } else {
            len
        };
        let mut frame: Vec<u8> = Vec::new();
        let mut j: usize = start;
        while j < end
            invariant
                start <= j <= end <= len,
                len == pcm@.len(),
                frame@ == pcm@.subrange(start as int, j as int),
            decreases end - j,
        {
            frame.push(pcm[j]);
            j = j + 1;
        }
        proof {
            assert(frame@ == pcm@.subrange(start as int, end as int));
            assert(end as int == frame_end(len as nat, frames@.len() as int));
        }
        frames.push(frame);
        start = end;
    }
    proof {
        let k = frames@.len();
        assert(k == frame_count(len as nat));
    }
    frames
}

/// Each frame but the last lies wholly before the end of the audio.
proof fn lemma_frame_start_in_audio(len: nat, i: int)
    requires
        0 <= i < frame_count(len),
    ensures
        i * 640 < len,
        frame_count(len) * 640 >= len,
{
    assert(frame_count(len) * 640 <= len + 639);
    assert(frame_count(len) * 640 + 640 > len + 639);
}

/// The first `k` frames, put back together, are the first
/// `min(k * 640, len)` bytes of the audio.
proof fn lemma_prefix_reassembles(data: Seq<u8>, k: int)
    requires
        0 <= k <= frame_count(data.len()),
    ensures
        frames_of(data).take(k).flatten_alt() == data.subrange(0, frame_end(data.len(), k - 1)),
    decreases k,
{
    let f = frames_of(data);
    let len = data.len();
    if k == 0 {
        assert(f.take(0) =~= Seq::<Seq<u8>>::empty());
        assert(data.subrange(0, 0) =~= Seq::<u8>::empty());
    } else {
        lemma_prefix_reassembles(data, k - 1);
        lemma_frame_start_in_audio(len, k - 1);
        assert(f.take(k).drop_last() =~= f.take(k - 1));
        assert(f.take(k).last() == f[k - 1]);
        assert(frame_end(len, k - 2) == (k - 1) * 640);
        assert(data.subrange(0, frame_end(len, k - 2)) + data.subrange(
            (k - 1) * 640,
            frame_end(len, k - 1),
        ) =~= data.subrange(0, frame_end(len, k - 1)));
    }
}

/// Putting the frames of a piece of audio back together, in order, gives the
/// audio back: framing loses, adds and reorders no byte.
pub proof fn lemma_frames_reassemble(data: Seq<u8>)
    ensures
        frames_of(data).flatten() == data,
{
    let f = frames_of(data);
    let n = frame_count(data.len());
    lemma_prefix_reassembles(data, n as int);
    assert(f.take(n as int) =~= f);
    f.lemma_flatten_and_flatten_alt_are_equivalent();
    if n > 0 {
        lemma_frame_start_in_audio(data.len(), n - 1);
    }
    assert(data.subrange(0, frame_end(data.len(), n - 1)) =~= data);
}

/// Every frame holds between 1 and 640 bytes, every frame but the last holds
/// exactly 640, and there are `len / 640` frames rounded up.
pub proof fn lemma_frame_sizes(data: Seq<u8>)
    ensures
        frames_of(data).len() == (data.len() + 639) / 640,
        forall|i: int|
            0 <= i < frames_of(data).len() ==> 0 < (#[trigger] frames_of(data)[i]).len() <= 640,
        forall|i: int|
            0 <= i < frames_of(data).len() - 1 ==> (#[trigger] frames_of(data)[i]).len() == 640,
{
    let len = data.len();
    assert forall|i: int| 0 <= i < frames_of(data).len() implies 0 < (
    #[trigger] frames_of(data)[i]).len() <= 640 by {
        lemma_frame_start_in_audio(len, i);
    }
    assert forall|i: int| 0 <= i < frames_of(data).len() - 1 implies (
    #[trigger] frames_of(data)[i]).len() == 640 by {
        lemma_frame_start_in_audio(len, i + 1);
    }
}

} // verus!
