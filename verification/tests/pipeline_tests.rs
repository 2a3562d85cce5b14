use webrtc_audio_streamer::pipeline::{
    preview_len, PipelineAction, PipelineEvent, PipelineNotice, PipelineStage, StreamingPipeline,
    PCM_QUEUE_CAPACITY, PREVIEW_BYTES,
};

fn pipeline(ip: &str) -> StreamingPipeline {
    StreamingPipeline::new(ip.to_string())
}

fn step(p: &mut StreamingPipeline, e: PipelineEvent) -> (PipelineAction, PipelineNotice) {
    assert!(p.accepts(&e));
    p.step(e)
}

fn bytes(len: usize, seed: u8) -> Vec<u8> {
    (0..len).map(|i| (i as u8).wrapping_add(seed)).collect()
}

/// Runs a set-up in which every step succeeds, for the message `audio`.
fn initialize(p: &mut StreamingPipeline, audio: Vec<u8>) -> (PipelineAction, PipelineNotice) {
    step(p, PipelineEvent::AudioReceived(audio));
    step(p, PipelineEvent::PeerSetup { ok: true });
    step(p, PipelineEvent::TrackAdded { ok: true });
    step(p, PipelineEvent::Connected { ok: true });
    step(p, PipelineEvent::ConnectionReady { ok: true });
    step(p, PipelineEvent::PlaybackStarted)
}

#[test]
fn preview_is_at_most_sixteen_bytes() {
    assert_eq!(PREVIEW_BYTES, 16);
    assert_eq!(preview_len(0), 0);
    assert_eq!(preview_len(7), 7);
    assert_eq!(preview_len(16), 16);
    assert_eq!(preview_len(4000), 16);
}

#[test]
fn new_pipeline_waits_for_audio() {
    let p = pipeline("127.0.0.1");
    assert_eq!(p.stage(), PipelineStage::AwaitingAudio);
    assert_eq!(p.message_count(), 0);
    assert!(!p.is_initialized());
    assert_eq!(p.robot_ip(), "127.0.0.1");
}

#[test]
fn robot_address_is_kept() {
    let mut p = pipeline("192.168.123.161");
    step(&mut p, PipelineEvent::AudioReceived(bytes(3, 0)));
    step(&mut p, PipelineEvent::PeerSetup { ok: false });
    assert_eq!(p.robot_ip(), "192.168.123.161");
}

#[test]
fn first_message_sets_up_webrtc_then_is_processed() {
    let mut p = pipeline("127.0.0.1");
    let audio = bytes(100, 3);
    assert_eq!(
        step(&mut p, PipelineEvent::AudioReceived(audio.clone())),
        (PipelineAction::SetupPeerConnection, PipelineNotice::InitializationStarted)
    );
    assert_eq!(p.message_count(), 1);
    assert_eq!(
        step(&mut p, PipelineEvent::PeerSetup { ok: true }).0,
        PipelineAction::CreatePlayerAndAddTrack { queue_capacity: 10 }
    );
    assert_eq!(PCM_QUEUE_CAPACITY, 10);
    assert_eq!(step(&mut p, PipelineEvent::TrackAdded { ok: true }).0, PipelineAction::Connect);
    assert_eq!(
        step(&mut p, PipelineEvent::Connected { ok: true }).0,
        PipelineAction::WaitUntilConnected
    );
    assert_eq!(
        step(&mut p, PipelineEvent::ConnectionReady { ok: true }).0,
        PipelineAction::StartPlayback
    );
    assert_eq!(
        step(&mut p, PipelineEvent::PlaybackStarted),
        (
            PipelineAction::ProcessAudio { message: 1, audio, preview_len: 16 },
            PipelineNotice::Initialized
        )
    );
    assert!(p.is_initialized());
    let pcm = bytes(3200, 9);
    assert_eq!(
        step(&mut p, PipelineEvent::AudioProcessed(Some(pcm.clone()))),
        (PipelineAction::SendPcm { message: 1, pcm, preview_len: 16 }, PipelineNotice::Quiet)
    );
    assert_eq!(
        step(&mut p, PipelineEvent::PcmSent { ok: true }),
        (PipelineAction::ReceiveAudio, PipelineNotice::PcmDelivered { message: 1 })
    );
    assert_eq!(p.stage(), PipelineStage::AwaitingAudio);
}

#[test]
fn later_messages_skip_the_setup() {
    let mut p = pipeline("127.0.0.1");
    initialize(&mut p, bytes(100, 0));
    step(&mut p, PipelineEvent::AudioProcessed(Some(bytes(8, 1))));
    step(&mut p, PipelineEvent::PcmSent { ok: true });
    assert_eq!(
        step(&mut p, PipelineEvent::AudioReceived(bytes(4, 2))),
        (PipelineAction::ProcessAudio { message: 2, audio: bytes(4, 2), preview_len: 4 }, PipelineNotice::Quiet)
    );
    assert_eq!(
        step(&mut p, PipelineEvent::AudioProcessed(Some(bytes(8, 5)))).0,
        PipelineAction::SendPcm { message: 2, pcm: bytes(8, 5), preview_len: 8 }
    );
}

#[test]
fn each_failed_setup_step_drops_the_message_and_retries() {
    let failures = [
        (1, PipelineEvent::PeerSetup { ok: false }, PipelineNotice::SetupFailed),
        (2, PipelineEvent::TrackAdded { ok: false }, PipelineNotice::TrackFailed),
        (3, PipelineEvent::Connected { ok: false }, PipelineNotice::ConnectFailed { local_robot: true }),
        (4, PipelineEvent::ConnectionReady { ok: false }, PipelineNotice::ConnectionTimedOut),
    ];
    for (at, failure, notice) in failures {
        let successes = [
            PipelineEvent::PeerSetup { ok: true },
            PipelineEvent::TrackAdded { ok: true },
            PipelineEvent::Connected { ok: true },
        ];
        let mut p = pipeline("127.0.0.1");
        step(&mut p, PipelineEvent::AudioReceived(bytes(10, 0)));
        for ok in successes.into_iter().take(at - 1) {
            step(&mut p, ok);
        }
        assert_eq!(step(&mut p, failure), (PipelineAction::ReceiveAudio, notice));
        assert!(!p.is_initialized());
        assert_eq!(p.stage(), PipelineStage::AwaitingAudio);
        assert_eq!(
            step(&mut p, PipelineEvent::AudioReceived(bytes(10, 0))).0,
            PipelineAction::SetupPeerConnection
        );
        assert_eq!(p.message_count(), 2);
    }
}

#[test]
fn connect_failure_advice_depends_on_the_robot_address() {
    let mut p = pipeline("192.168.123.161");
    step(&mut p, PipelineEvent::AudioReceived(bytes(10, 0)));
    step(&mut p, PipelineEvent::PeerSetup { ok: true });
    step(&mut p, PipelineEvent::TrackAdded { ok: true });
    assert_eq!(
        step(&mut p, PipelineEvent::Connected { ok: false }).1,
        PipelineNotice::ConnectFailed { local_robot: false }
    );
}

#[test]
fn failed_decoding_is_reported_and_the_pipeline_goes_on() {
    let mut p = pipeline("127.0.0.1");
    initialize(&mut p, bytes(10, 0));
    assert_eq!(
        step(&mut p, PipelineEvent::AudioProcessed(None)),
        (PipelineAction::ReceiveAudio, PipelineNotice::ProcessingFailed { message: 1 })
    );
    assert!(p.is_initialized());
}

#[test]
fn failed_send_is_reported_and_the_pipeline_goes_on() {
    let mut p = pipeline("127.0.0.1");
    initialize(&mut p, bytes(10, 0));
    step(&mut p, PipelineEvent::AudioProcessed(Some(Vec::new())));
    assert_eq!(
        step(&mut p, PipelineEvent::PcmSent { ok: false }),
        (PipelineAction::ReceiveAudio, PipelineNotice::PcmSendFailed)
    );
    assert_eq!(p.stage(), PipelineStage::AwaitingAudio);
}

#[test]
fn closing_the_channel_stops_for_good() {
    let mut p = pipeline("127.0.0.1");
    assert_eq!(
        step(&mut p, PipelineEvent::ChannelClosed),
        (PipelineAction::Shutdown, PipelineNotice::ChannelClosed)
    );
    assert_eq!(p.stage(), PipelineStage::Stopped);
    assert!(!p.accepts(&PipelineEvent::AudioReceived(vec![1])));
    assert!(!p.accepts(&PipelineEvent::ChannelClosed));
}

#[test]
fn events_out_of_turn_are_refused() {
    let p = pipeline("127.0.0.1");
    assert!(!p.accepts(&PipelineEvent::PeerSetup { ok: true }));
    assert!(!p.accepts(&PipelineEvent::PcmSent { ok: true }));
    assert!(p.accepts(&PipelineEvent::AudioReceived(Vec::new())));
}

#[test]
fn retries_until_setup_succeeds_then_sends_every_decoded_message() {
    let mut p = pipeline("127.0.0.1");
    let mut sent = Vec::new();
    // Message 1: the set-up fails at the handshake; nothing is decoded.
    step(&mut p, PipelineEvent::AudioReceived(bytes(10, 1)));
    step(&mut p, PipelineEvent::PeerSetup { ok: true });
    step(&mut p, PipelineEvent::TrackAdded { ok: true });
    step(&mut p, PipelineEvent::Connected { ok: true });
    assert_eq!(step(&mut p, PipelineEvent::ConnectionReady { ok: false }).0, PipelineAction::ReceiveAudio);
    // Message 2: the set-up succeeds; the message is decoded and sent.
    assert_eq!(
        initialize(&mut p, bytes(20, 2)).0,
        PipelineAction::ProcessAudio { message: 2, audio: bytes(20, 2), preview_len: 16 }
    );
    // Messages 2 to 4: one fails to decode, the others are sent in order.
    for (message, pcm) in [(2u64, Some(bytes(5, 20))), (3, None), (4, Some(bytes(1, 40)))] {
        if message > 2 {
            assert_eq!(
                step(&mut p, PipelineEvent::AudioReceived(bytes(3, message as u8))).0,
                PipelineAction::ProcessAudio { message, audio: bytes(3, message as u8), preview_len: 3 }
            );
        }
        match step(&mut p, PipelineEvent::AudioProcessed(pcm.clone())).0 {
            PipelineAction::SendPcm { message: m, pcm: sent_pcm, .. } => {
                assert_eq!(m, message);
                sent.push(sent_pcm);
                step(&mut p, PipelineEvent::PcmSent { ok: true });
            }
            other => assert_eq!(other, PipelineAction::ReceiveAudio),
        }
    }
    assert_eq!(sent, vec![bytes(5, 20), bytes(1, 40)]);
}
