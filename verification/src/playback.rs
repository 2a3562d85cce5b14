use vstd::prelude::*;

use crate::frames::{frames_of, lemma_frames_reassemble, split_frames, SAMPLE_DURATION_MS};
use vstd::seq_lib::lemma_flatten_concat;

verus! {

/// Decides whether a request to start playback starts it: it does when the
/// player is not playing yet, and then marks it as playing; a player that
/// already plays is left as it is.
pub fn begin_playback(is_playing: &mut bool) -> (start: bool)
    ensures
        start == !*old(is_playing),
        *final(is_playing),
{
    if *is_playing {
        false
    } else {
        *is_playing = true;
        true
    }
}

/// Where the playback task stands.
#[derive(Clone, Copy, Debug, PartialEq, Eq, Structural)]
pub enum StreamStage {
    /// Waiting for the next piece of PCM audio from the queue.
    AwaitingPcm,
    /// A frame has been handed out to be written to the track.
    Writing,
    /// A frame was written; waiting for its playing time to pass.
    Pacing,
    /// The queue was closed: the task has ended.
    Finished,
}

/// What the playback task learns from the outside.
#[derive(Debug)]
pub enum PlaybackEvent {
    /// The queue delivered a piece of PCM audio.
    PcmReceived(Vec<u8>),
    /// The queue was closed and is empty.
    QueueClosed,
    /// Writing the frame to the track succeeded or failed.
    SampleWritten { ok: bool },
    /// The playing time of the frame just written has passed.
    PaceElapsed,
}

/// What the playback task does next.
#[derive(Debug)]
pub enum PlaybackAction {
    /// Wait for the next piece of PCM audio.
    ReceivePcm,
    /// Write `frame`, the frame at `index` of the current piece, to the track
    /// as a sample lasting `duration_ms` milliseconds.
    WriteSample { frame: Vec<u8>, index: usize, duration_ms: u64 },
    /// Wait `duration_ms` milliseconds so that playback keeps real time.
    Pause { duration_ms: u64 },
    /// Mark the player as no longer playing and end the task.
    StopPlaying,
}

/// The playback task's state, as plain values.
pub struct PlaybackStreamView {
    pub frames: Seq<Seq<u8>>,
    pub next: nat,
    pub stage: StreamStage,
}

pub enum PlaybackEventView {
    PcmReceived(Seq<u8>),
    QueueClosed,
    SampleWritten { ok: bool },
    PaceElapsed,
}

pub enum PlaybackActionView {
    ReceivePcm,
    WriteSample { frame: Seq<u8>, index: nat, duration_ms: u64 },
    Pause { duration_ms: u64 },
    StopPlaying,
}

impl View for PlaybackEvent {
    type V = PlaybackEventView;

    open spec fn view(&self) -> PlaybackEventView {
        match self {
            PlaybackEvent::PcmReceived(pcm) => PlaybackEventView::PcmReceived(pcm@),
            PlaybackEvent::QueueClosed => PlaybackEventView::QueueClosed,
            PlaybackEvent::SampleWritten { ok } => PlaybackEventView::SampleWritten { ok: *ok },
            PlaybackEvent::PaceElapsed => PlaybackEventView::PaceElapsed,
        }
    }
}

impl View for PlaybackAction {
    type V = PlaybackActionView;

    open spec fn view(&self) -> PlaybackActionView {
        match self {
            PlaybackAction::ReceivePcm => PlaybackActionView::ReceivePcm,
            PlaybackAction::WriteSample { frame, index, duration_ms } =>
                PlaybackActionView::WriteSample {
                frame: frame@,
                index: *index as nat,
                duration_ms: *duration_ms,
            },
            PlaybackAction::Pause { duration_ms } => PlaybackActionView::Pause {
                duration_ms: *duration_ms,
            },
            PlaybackAction::StopPlaying => PlaybackActionView::StopPlaying,
        }
    }
}

/// The part of the playback task that decides: it takes the pieces of PCM
/// audio from the queue, cuts each into frames, writes the frames to the
/// track one after the other, pausing for each frame's playing time after it
/// is written, and gives up the rest of a piece when a write fails.
pub struct PlaybackStream {
    frames: Vec<Vec<u8>>,
    next: usize,
    stage: StreamStage,
}

/// The frames of a `Vec` of frames, as plain sequences.
pub open spec fn frames_view(frames: Seq<Vec<u8>>) -> Seq<Seq<u8>> {
    frames.map_values(|f: Vec<u8>| f@)
}

impl View for PlaybackStream {
    type V = PlaybackStreamView;

    closed spec fn view(&self) -> PlaybackStreamView {
        PlaybackStreamView {
            frames: frames_view(self.frames@),
            next: self.next as nat,
            stage: self.stage,
        }
    }
}

/// The state is consistent: while a frame is being written or paced, it is
/// one of the frames of the current piece.
pub open spec fn stream_wf(s: PlaybackStreamView) -> bool {
    (s.stage == StreamStage::Writing || s.stage == StreamStage::Pacing) ==> s.next < s.frames.len()
}

/// The events that the task can receive in each stage.
pub open spec fn stream_accepts(s: PlaybackStreamView, e: PlaybackEventView) -> bool {
    match s.stage {
        StreamStage::AwaitingPcm => e is PcmReceived || e is QueueClosed,
        StreamStage::Writing => e is SampleWritten,
        StreamStage::Pacing => e is PaceElapsed,
        StreamStage::Finished => false,
    }
}

/// Hands out frame `i` of `frames`, or, past the last one, waits for the
/// next piece of audio.
pub open spec fn write_or_receive(frames: Seq<Seq<u8>>, i: nat) -> (
    PlaybackStreamView,
    PlaybackActionView,
) {
    if i < frames.len() {
        (
            PlaybackStreamView { frames, next: i, stage: StreamStage::Writing },
            PlaybackActionView::WriteSample {
                frame: frames[i as int],
                index: i,
                duration_ms: SAMPLE_DURATION_MS,
            },
        )
    } else {
        (
            PlaybackStreamView { frames, next: i, stage: StreamStage::AwaitingPcm },
            PlaybackActionView::ReceivePcm,
        )
    }
}

/// One step of the playback task: the next state and what to do.
pub open spec fn stream_step(s: PlaybackStreamView, e: PlaybackEventView) -> (
    PlaybackStreamView,
    PlaybackActionView,
) {
    match e {
        PlaybackEventView::PcmReceived(pcm) => write_or_receive(frames_of(pcm), 0),
        PlaybackEventView::QueueClosed => (
            PlaybackStreamView { stage: StreamStage::Finished, ..s },
            PlaybackActionView::StopPlaying,
        ),
        PlaybackEventView::SampleWritten { ok } => if ok {
            (
                PlaybackStreamView { stage: StreamStage::Pacing, ..s },
                PlaybackActionView::Pause { duration_ms: SAMPLE_DURATION_MS },
            )
        } else {
            (
                PlaybackStreamView { stage: StreamStage::AwaitingPcm, ..s },
                PlaybackActionView::ReceivePcm,
            )
        },
        PlaybackEventView::PaceElapsed => write_or_receive(s.frames, s.next + 1),
    }
}

impl PlaybackStream {
    /// The task as it starts: waiting for the first piece of audio.
    pub fn new() -> (stream: PlaybackStream)
        ensures
            stream@.stage == StreamStage::AwaitingPcm,
            stream@.frames == Seq::<Seq<u8>>::empty(),
            stream@.next == 0,
            stream_wf(stream@),
    {
        PlaybackStream { frames: Vec::new(), next: 0, stage: StreamStage::AwaitingPcm }
    }

    /// The stage the task is in.
    pub fn stage(&self) -> (stage: StreamStage)
        ensures
            stage == self@.stage,
    {
        self.stage
    }

    /// Number of frames in the piece of audio being played.
    pub fn frame_total(&self) -> (n: usize)
        ensures
            n == self@.frames.len(),
    {
        self.frames.len()
    }

    /// Whether the task can take `event` in its present stage.
    pub fn accepts(&self, event: &PlaybackEvent) -> (ok: bool)
        ensures
            ok == stream_accepts(self@, event@),
    {
        match self.stage {
            StreamStage::AwaitingPcm => match event {
                PlaybackEvent::PcmReceived(_) => true,
                PlaybackEvent::QueueClosed => true,
                _ => false,
            },
            StreamStage::Writing => match event {
                PlaybackEvent::SampleWritten { .. } => true,
                _ => false,
            },
            StreamStage::Pacing => match event {
                PlaybackEvent::PaceElapsed => true,
                _ => false,
            },
            StreamStage::Finished => false,
        }
    }

    /// Hands out frame `i`, or waits for the next piece past the last one.
    fn write_or_receive(&mut self, i: usize) -> (action: PlaybackAction)
        requires
            i <= old(self).frames@.len(),
        ensures
            (final(self)@, action@) == write_or_receive(old(self)@.frames, i as nat),
    {
        self.next = i;
        if i < self.frames.len() {
            self.stage = StreamStage::Writing;
            let frame = self.frames[i].clone();
            proof {
                assert(frame@ =~= self.frames@[i as int]@);
            }
            PlaybackAction::WriteSample { frame, index: i, duration_ms: SAMPLE_DURATION_MS }
        } else {
            self.stage = StreamStage::AwaitingPcm;
            PlaybackAction::ReceivePcm
        }
    }

    /// Takes one event and says what to do next.
    pub fn step(&mut self, event: PlaybackEvent) -> (action: PlaybackAction)
        requires
            stream_wf(old(self)@),
            stream_accepts(old(self)@, event@),
        ensures
            (final(self)@, action@) == stream_step(old(self)@, event@),
            stream_wf(final(self)@),
    {
        match event {
            PlaybackEvent::PcmReceived(pcm) => {
                let frames = split_frames(pcm.as_slice());
                proof {
                    assert(frames_view(frames@) =~= frames_of(pcm@));
                }
                self.frames = frames;
                self.write_or_receive(0)
            },
            PlaybackEvent::QueueClosed => {
                self.stage = StreamStage::Finished;
                PlaybackAction::StopPlaying
            },
            PlaybackEvent::SampleWritten { ok } => {
                if ok {
                    self.stage = StreamStage::Pacing;
                    PlaybackAction::Pause { duration_ms: SAMPLE_DURATION_MS }
                } else {
                    self.stage = StreamStage::AwaitingPcm;
                    PlaybackAction::ReceivePcm
                }
            },
            PlaybackEvent::PaceElapsed => {
                let total = self.frames.len();
                proof {
                    assert(frames_view(self.frames@).len() == total);
                }
                let i = self.next + 1;
                self.write_or_receive(i)
            },
        }
    }
}

/// Plays the current piece on with every write succeeding, for at most
/// `rounds` frames: each round writes the frame handed out, then lets its
/// playing time pass. Gives the state and action where it stops and the
/// frames written, in order.
pub open spec fn play_all_ok(s: PlaybackStreamView, a: PlaybackActionView, rounds: nat) -> (
    PlaybackStreamView,
    PlaybackActionView,
    Seq<Seq<u8>>,
)
    decreases rounds,
{
    match a {
        PlaybackActionView::WriteSample { frame, .. } => if rounds > 0 {
            let written = stream_step(s, PlaybackEventView::SampleWritten { ok: true }).0;
            let paced = stream_step(written, PlaybackEventView::PaceElapsed);
            let rest = play_all_ok(paced.0, paced.1, (rounds - 1) as nat);
            (rest.0, rest.1, seq![frame] + rest.2)
        } else {
            (s, a, Seq::empty())
        },
        _ => (s, a, Seq::empty()),
    }
}

/// From frame `i` on, with every write succeeding, `r` rounds write frames
/// `i` to `i + r - 1` in order and leave the task handing out frame `i + r`,
/// or, past the last frame, waiting for the next piece.
proof fn lemma_rounds_written(frames: Seq<Seq<u8>>, i: nat, r: nat)
    requires
        i + r <= frames.len(),
    ensures
        ({
            let start = write_or_receive(frames, i);
            let run = play_all_ok(start.0, start.1, r);
            &&& run.0 == write_or_receive(frames, i + r).0
            &&& run.1 == write_or_receive(frames, i + r).1
            &&& run.2 == frames.subrange(i as int, (i + r) as int)
        }),
    decreases r,
{
    if r > 0 {
        lemma_rounds_written(frames, i + 1, (r - 1) as nat);
        let start = write_or_receive(frames, i);
        let written = stream_step(start.0, PlaybackEventView::SampleWritten { ok: true }).0;
        let paced = stream_step(written, PlaybackEventView::PaceElapsed);
        assert(paced == write_or_receive(frames, i + 1));
        assert(frames.subrange(i as int, (i + r) as int) =~= seq![frames[i as int]] + frames.subrange(
            i + 1 as int,
            (i + r) as int,
        ));
    } else {
        assert(frames.subrange(i as int, i as int) =~= Seq::<Seq<u8>>::empty());
    }
}

/// A piece of PCM audio taken from the queue, when every write succeeds, is
/// written to the track as its frames, in order, one per round; put back
/// together these frames are the piece itself; and the task then waits for
/// the next piece.
pub proof fn lemma_piece_streamed_whole(s: PlaybackStreamView, pcm: Seq<u8>)
    requires
        s.stage == StreamStage::AwaitingPcm,
    ensures
        ({
            let start = stream_step(s, PlaybackEventView::PcmReceived(pcm));
            let run = play_all_ok(start.0, start.1, frames_of(pcm).len());
            &&& run.1 == PlaybackActionView::ReceivePcm
            &&& run.0.stage == StreamStage::AwaitingPcm
            &&& run.2 == frames_of(pcm)
            &&& run.2.flatten() == pcm
        }),
{
    lemma_rounds_written(frames_of(pcm), 0, frames_of(pcm).len());
    assert(frames_of(pcm).subrange(0, frames_of(pcm).len() as int) =~= frames_of(pcm));
    lemma_frames_reassemble(pcm);
}

/// A failed write gives up the rest of the piece: the task waits for the
/// next piece and keeps running.
pub proof fn lemma_failed_write_skips_rest(s: PlaybackStreamView)
    requires
        s.stage == StreamStage::Writing,
    ensures
        stream_step(s, PlaybackEventView::SampleWritten { ok: false }).0.stage
            == StreamStage::AwaitingPcm,
        stream_step(s, PlaybackEventView::SampleWritten { ok: false }).1
            == PlaybackActionView::ReceivePcm,
{
}

/// Every frame written is followed by a pause of one frame's playing time
/// before anything else is written, so the audio goes out in real time.
pub proof fn lemma_write_then_pause(s: PlaybackStreamView)
    requires
        s.stage == StreamStage::Writing,
    ensures
        stream_step(s, PlaybackEventView::SampleWritten { ok: true }).1
            == (PlaybackActionView::Pause { duration_ms: SAMPLE_DURATION_MS }),
        stream_step(s, PlaybackEventView::SampleWritten { ok: true }).0.stage
            == StreamStage::Pacing,
{
}

/// Closing the queue ends the task and clears the playing flag; a finished
/// task takes no further event.
pub proof fn lemma_close_ends_playback(s: PlaybackStreamView)
    requires
        s.stage == StreamStage::AwaitingPcm,
    ensures
        stream_step(s, PlaybackEventView::QueueClosed).1 == PlaybackActionView::StopPlaying,
        forall|e: PlaybackEventView|
            !(#[trigger] stream_accepts(stream_step(s, PlaybackEventView::QueueClosed).0, e)),
{
}

/// When the write of frame `k` of a piece fails, the frames before it have
/// been written to the track, in order, and the rest of the piece is given
/// up: the task waits for the next piece.
pub proof fn lemma_frames_before_failure(s: PlaybackStreamView, pcm: Seq<u8>, k: nat)
    requires
        s.stage == StreamStage::AwaitingPcm,
        k < frames_of(pcm).len(),
    ensures
        ({
            let start = stream_step(s, PlaybackEventView::PcmReceived(pcm));
            let run = play_all_ok(start.0, start.1, k);
            let failed = stream_step(run.0, PlaybackEventView::SampleWritten { ok: false });
            &&& run.1 == (PlaybackActionView::WriteSample {
                frame: frames_of(pcm)[k as int],
                index: k,
                duration_ms: SAMPLE_DURATION_MS,
            })
            &&& run.2 == frames_of(pcm).take(k as int)
            &&& failed.0.stage == StreamStage::AwaitingPcm
            &&& failed.1 == PlaybackActionView::ReceivePcm
        }),
{
    lemma_rounds_written(frames_of(pcm), 0, k);
    assert(frames_of(pcm).subrange(0, k as int) =~= frames_of(pcm).take(k as int));
}

/// Streams pieces of PCM audio one after the other, every write succeeding:
/// each piece is taken from the queue and played to its end before the
/// next. Gives the state reached and the frames written, in order.
pub open spec fn stream_pieces(s: PlaybackStreamView, pieces: Seq<Seq<u8>>) -> (
    PlaybackStreamView,
    Seq<Seq<u8>>,
)
    decreases pieces.len(),
{
    if pieces.len() == 0 {
        (s, Seq::empty())
    } else {
        let start = stream_step(s, PlaybackEventView::PcmReceived(pieces[0]));
        let run = play_all_ok(start.0, start.1, frames_of(pieces[0]).len());
        let rest = stream_pieces(run.0, pieces.drop_first());
        (rest.0, run.2 + rest.1)
    }
}

/// Pieces taken from the queue one after the other, every write
/// succeeding, are written to the track as the frames of the first piece,
/// then those of the second, and so on: no frame spans two pieces, and the
/// frames put together are the pieces put together. When the queue then
/// closes, playback stops.
pub proof fn lemma_pieces_streamed_in_order(s: PlaybackStreamView, pieces: Seq<Seq<u8>>)
    requires
        s.stage == StreamStage::AwaitingPcm,
    ensures
        ({
            let run = stream_pieces(s, pieces);
            &&& run.0.stage == StreamStage::AwaitingPcm
            &&& run.1 == pieces.map_values(|p: Seq<u8>| frames_of(p)).flatten()
            &&& run.1.flatten() == pieces.flatten()
            &&& stream_step(run.0, PlaybackEventView::QueueClosed).1
                == PlaybackActionView::StopPlaying
        }),
    decreases pieces.len(),
{
    if pieces.len() > 0 {
        let start = stream_step(s, PlaybackEventView::PcmReceived(pieces[0]));
        let run = play_all_ok(start.0, start.1, frames_of(pieces[0]).len());
        lemma_piece_streamed_whole(s, pieces[0]);
        lemma_pieces_streamed_in_order(run.0, pieces.drop_first());
        let rest = stream_pieces(run.0, pieces.drop_first());
        let mapped = pieces.map_values(|p: Seq<u8>| frames_of(p));
        assert(mapped.drop_first() =~= pieces.drop_first().map_values(|p: Seq<u8>| frames_of(p)));
        assert(mapped.flatten() == mapped.first() + mapped.drop_first().flatten());
        lemma_flatten_concat(run.2, rest.1);
        assert(pieces.flatten() == pieces.first() + pieces.drop_first().flatten());
    } else {
        assert(pieces.map_values(|p: Seq<u8>| frames_of(p)) =~= Seq::<Seq<Seq<u8>>>::empty());
        assert(Seq::<Seq<u8>>::empty().flatten() == Seq::<u8>::empty());
    }
}

/// The events that answer an action: what the driver reports back after
/// carrying it out. A piece of audio or the queue's closing answers the wait
/// for audio; the outcome of the write answers a write; the end of the pause
/// answers a pause; nothing answers the end of playback.
pub open spec fn answers(action: PlaybackActionView, e: PlaybackEventView) -> bool {
    match action {
        PlaybackActionView::ReceivePcm => e is PcmReceived || e is QueueClosed,
        PlaybackActionView::WriteSample { .. } => e is SampleWritten,
        PlaybackActionView::Pause { .. } => e is PaceElapsed,
        PlaybackActionView::StopPlaying => false,
    }
}

/// A task that has just started takes any piece of audio, and the queue's
/// closing.
pub proof fn lemma_start_takes_any_piece(s: PlaybackStreamView, pcm: Seq<u8>)
    requires
        s.stage == StreamStage::AwaitingPcm,
    ensures
        stream_accepts(s, PlaybackEventView::PcmReceived(pcm)),
        stream_accepts(s, PlaybackEventView::QueueClosed),
{
}

/// The task never refuses the answer to its own request: after any step,
/// every event that answers the action it asked for is taken, whatever
/// its contents (any piece of audio, either outcome of a write, the end of
/// any pause). So playback goes on until the queue closes.
pub proof fn lemma_answers_are_accepted(
    s: PlaybackStreamView,
    e: PlaybackEventView,
    reply: PlaybackEventView,
)
    requires
        stream_wf(s),
        stream_accepts(s, e),
        answers(stream_step(s, e).1, reply),
    ensures
        stream_accepts(stream_step(s, e).0, reply),
        stream_wf(stream_step(s, e).0),
{
}

/// Once a piece is taken and a frame written, the end of the pause is
/// taken and the next frame of the piece, if any, is handed out.
pub proof fn lemma_pause_end_accepted(s: PlaybackStreamView, pcm: Seq<u8>)
    requires
        s.stage == StreamStage::AwaitingPcm,
        frames_of(pcm).len() > 0,
    ensures
        ({
            let taken = stream_step(s, PlaybackEventView::PcmReceived(pcm)).0;
            let written = stream_step(taken, PlaybackEventView::SampleWritten { ok: true }).0;
            let next = stream_step(written, PlaybackEventView::PaceElapsed);
            &&& stream_accepts(taken, PlaybackEventView::SampleWritten { ok: true })
            &&& stream_accepts(written, PlaybackEventView::PaceElapsed)
            &&& frames_of(pcm).len() > 1 ==> next.1 == (PlaybackActionView::WriteSample {
                frame: frames_of(pcm)[1],
                index: 1,
                duration_ms: SAMPLE_DURATION_MS,
            })
        }),
{
}

} // verus!
