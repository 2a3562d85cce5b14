use std::sync::Arc;
use webrtc::track::track_local::TrackLocal;
use webrtc_audio_streamer::player::opus_track_config;
use webrtc_audio_streamer::WebRTCAudioPlayer;

#[test]
fn opus_track_configuration() {
    let config = opus_track_config();
    assert_eq!(config.mime_type, "audio/opus");
    assert_eq!(config.clock_rate, 48000);
    assert_eq!(config.channels, 2);
    assert_eq!(config.sdp_fmtp_line, "");
    assert!(config.rtcp_feedback.is_empty());
    assert_eq!(config.id, "audio");
    assert_eq!(config.stream_id, "webrtc-audio-player");
}

#[test]
fn player_track_is_made_from_its_configuration() {
    let (_tx, rx) = tokio::sync::mpsc::channel::<Vec<u8>>(10);
    let player = WebRTCAudioPlayer::new(rx);
    let track = player.get_track();
    let codec = track.codec();
    assert_eq!(codec.mime_type, "audio/opus");
    assert_eq!(codec.clock_rate, 48000);
    assert_eq!(codec.channels, 2);
    assert_eq!(codec.sdp_fmtp_line, "");
    assert!(codec.rtcp_feedback.is_empty());
    assert_eq!(track.id(), "audio");
    assert_eq!(track.stream_id(), "webrtc-audio-player");
    assert_eq!(player.track_config().mime_type, "audio/opus");
}

#[test]
fn shared_handles_point_to_the_players_own_parts() {
    let (_tx, rx) = tokio::sync::mpsc::channel::<Vec<u8>>(10);
    let player = WebRTCAudioPlayer::new(rx);
    assert!(Arc::ptr_eq(&player.get_track(), &player.get_track()));
    assert!(Arc::ptr_eq(&player.audio_queue(), &player.audio_queue()));
    assert!(Arc::ptr_eq(&player.playing_flag(), &player.playing_flag()));
    let flag = player.playing_flag();
    assert!(!*flag.try_lock().unwrap());
}

#[test]
fn queue_delivers_what_is_sent() {
    let (tx, rx) = tokio::sync::mpsc::channel::<Vec<u8>>(10);
    let player = WebRTCAudioPlayer::new(rx);
    tx.try_send(vec![1, 2, 3]).unwrap();
    let queue = player.audio_queue();
    let mut receiver = queue.try_lock().unwrap();
    assert_eq!(receiver.try_recv().unwrap(), vec![1, 2, 3]);
}

#[test]
fn new_player_is_not_playing_and_owns_its_queue() {
    let (tx, rx) = tokio::sync::mpsc::channel::<Vec<u8>>(10);
    tx.try_send(vec![9]).unwrap();
    let player = WebRTCAudioPlayer::new(rx);
    let flag = player.playing_flag();
    assert!(!*flag.try_lock().unwrap());
    let queue = player.audio_queue();
    let mut receiver = queue.try_lock().unwrap();
    assert_eq!(receiver.try_recv().unwrap(), vec![9]);
    assert!(receiver.try_recv().is_err());
}
