use webrtc_audio_streamer::playback::{
    begin_playback, PlaybackAction, PlaybackEvent, PlaybackStream, StreamStage,
};

fn audio(len: usize) -> Vec<u8> {
    (0..len).map(|i| (i % 253) as u8).collect()
}

#[test]
fn starting_twice_starts_once() {
    let mut playing = false;
    assert!(begin_playback(&mut playing));
    assert!(playing);
    assert!(!begin_playback(&mut playing));
    assert!(playing);
}

/// Feeds a piece of audio and lets every write succeed; returns the frames
/// written and the number of pauses.
fn play_through(stream: &mut PlaybackStream, pcm: Vec<u8>) -> (Vec<Vec<u8>>, usize) {
    let mut written = Vec::new();
    let mut pauses = 0;
    let mut action = stream.step(PlaybackEvent::PcmReceived(pcm));
    loop {
        match action {
            PlaybackAction::WriteSample { frame, index, duration_ms } => {
                assert_eq!(index, written.len());
                assert_eq!(duration_ms, 20);
                written.push(frame);
                action = stream.step(PlaybackEvent::SampleWritten { ok: true });
            }
            PlaybackAction::Pause { duration_ms } => {
                assert_eq!(duration_ms, 20);
                pauses += 1;
                action = stream.step(PlaybackEvent::PaceElapsed);
            }
            PlaybackAction::ReceivePcm => return (written, pauses),
            PlaybackAction::StopPlaying => panic!("the queue was not closed"),
        }
    }
}

#[test]
fn a_piece_is_written_frame_by_frame_with_pacing() {
    let mut stream = PlaybackStream::new();
    let pcm = audio(1300);
    let (written, pauses) = play_through(&mut stream, pcm.clone());
    assert_eq!(written.len(), 3);
    assert_eq!(pauses, 3);
    assert_eq!(written.concat(), pcm);
    assert_eq!(stream.stage(), StreamStage::AwaitingPcm);
    let (written, _) = play_through(&mut stream, audio(640));
    assert_eq!(written, vec![audio(640)]);
}

#[test]
fn an_empty_piece_writes_nothing() {
    let mut stream = PlaybackStream::new();
    assert!(matches!(
        stream.step(PlaybackEvent::PcmReceived(Vec::new())),
        PlaybackAction::ReceivePcm
    ));
    assert_eq!(stream.frame_total(), 0);
}

#[test]
fn a_failed_write_gives_up_the_rest_of_the_piece() {
    let mut stream = PlaybackStream::new();
    let action = stream.step(PlaybackEvent::PcmReceived(audio(2000)));
    assert_eq!(stream.frame_total(), 4);
    assert!(matches!(action, PlaybackAction::WriteSample { index: 0, .. }));
    assert!(matches!(
        stream.step(PlaybackEvent::SampleWritten { ok: true }),
        PlaybackAction::Pause { duration_ms: 20 }
    ));
    assert!(matches!(
        stream.step(PlaybackEvent::PaceElapsed),
        PlaybackAction::WriteSample { index: 1, .. }
    ));
    assert!(matches!(
        stream.step(PlaybackEvent::SampleWritten { ok: false }),
        PlaybackAction::ReceivePcm
    ));
    let (written, _) = play_through(&mut stream, audio(10));
    assert_eq!(written, vec![audio(10)]);
}

#[test]
fn closing_the_queue_stops_playing() {
    let mut stream = PlaybackStream::new();
    assert!(stream.accepts(&PlaybackEvent::QueueClosed));
    assert!(!stream.accepts(&PlaybackEvent::PaceElapsed));
    assert!(matches!(stream.step(PlaybackEvent::QueueClosed), PlaybackAction::StopPlaying));
    assert_eq!(stream.stage(), StreamStage::Finished);
    assert!(!stream.accepts(&PlaybackEvent::PcmReceived(vec![1])));
}

#[test]
fn several_pieces_are_streamed_in_order() {
    let mut stream = PlaybackStream::new();
    let pieces = vec![audio(700), audio(10), audio(1280)];
    let mut written = Vec::new();
    for piece in &pieces {
        let (frames, _) = play_through(&mut stream, piece.clone());
        assert!(frames.iter().all(|f| f.len() <= 640));
        assert_eq!(frames.concat(), *piece);
        written.extend(frames);
    }
    assert_eq!(written.len(), 2 + 1 + 2);
    assert_eq!(written.concat(), pieces.concat());
    assert!(matches!(stream.step(PlaybackEvent::QueueClosed), PlaybackAction::StopPlaying));
}
