use vstd::prelude::*;

use std::sync::Arc;
use tokio::sync::mpsc::Receiver;
use tokio::sync::Mutex;
use webrtc::track::track_local::track_local_static_sample::TrackLocalStaticSample;

use crate::media_api::{
    flag_created_holding, new_flag, new_queue, new_sample_track, queue_created_holding, share,
    track_made_from,
};

verus! {

/// One RTCP feedback mechanism that a codec advertises.
pub struct RtcpFeedback {
    /// The kind of feedback: ack, ccm, nack, goog-remb or transport-cc.
    pub typ: String,
    /// Its parameter, which depends on the kind.
    pub parameter: String,
}

/// The codec and the identity of an audio track, as plain values.
pub struct TrackConfig {
    pub mime_type: String,
    /// Clock rate of the codec, in Hz.
    pub clock_rate: u32,
    /// Number of audio channels.
    pub channels: u16,
    pub sdp_fmtp_line: String,
    pub rtcp_feedback: Vec<RtcpFeedback>,
    /// Id of the track within its stream.
    pub id: String,
    /// Id of the stream the track belongs to.
    pub stream_id: String,
}

/// A track's codec and identity, as mathematical values.
pub struct TrackConfigView {
    pub mime_type: Seq<char>,
    pub clock_rate: u32,
    pub channels: u16,
    pub sdp_fmtp_line: Seq<char>,
    pub rtcp_feedback: Seq<(Seq<char>, Seq<char>)>,
    pub id: Seq<char>,
    pub stream_id: Seq<char>,
}

impl View for TrackConfig {
    type V = TrackConfigView;

    open spec fn view(&self) -> TrackConfigView {
        TrackConfigView {
            mime_type: self.mime_type@,
            clock_rate: self.clock_rate,
            channels: self.channels,
            sdp_fmtp_line: self.sdp_fmtp_line@,
            rtcp_feedback: self.rtcp_feedback@.map_values(
                |f: RtcpFeedback| (f.typ@, f.parameter@),
            ),
            id: self.id@,
            stream_id: self.stream_id@,
        }
    }
}

/// The track the audio player streams on: Opus at the 48 kHz clock rate, in
/// stereo, with no format parameters and no RTCP feedback, as track "audio"
/// of stream "webrtc-audio-player".
pub open spec fn opus_track() -> TrackConfigView {
    TrackConfigView {
        mime_type: "audio/opus"@,
        clock_rate: 48000,
        channels: 2,
        sdp_fmtp_line: ""@,
        rtcp_feedback: Seq::empty(),
        id: "audio"@,
        stream_id: "webrtc-audio-player"@,
    }
}

/// The configuration of the audio player's track.
pub fn opus_track_config() -> (config: TrackConfig)
    ensures
        config@ == opus_track(),
{
    let config = TrackConfig {
        mime_type: "audio/opus".to_owned(),
        clock_rate: 48000,
        channels: 2,
        sdp_fmtp_line: "".to_owned(),
        rtcp_feedback: Vec::new(),
        id: "audio".to_owned(),
        stream_id: "webrtc-audio-player".to_owned(),
    };
    proof {
        assert(config@.rtcp_feedback =~= Seq::<(Seq<char>, Seq<char>)>::empty());
    }
    config
}

/// An audio player that streams PCM audio to the robot on a WebRTC audio
/// track. It takes the audio from a queue; its playback task (driven by
/// `PlaybackStream`) writes the audio to the track frame by frame.
pub struct WebRTCAudioPlayer {
    audio_track: Arc<TrackLocalStaticSample>,
    audio_queue: Arc<Mutex<Receiver<Vec<u8>>>>,
    is_playing: Arc<Mutex<bool>>,
    track_config: TrackConfig,
}

impl WebRTCAudioPlayer {
    /// The configuration kept beside the track is the one the track was
    /// made from.
    #[verifier::type_invariant]
    spec fn config_matches_track(self) -> bool {
        track_made_from(*self.audio_track) == self.track_config@
    }

    /// The codec and identity the player keeps beside its track.
    pub closed spec fn config(&self) -> TrackConfigView {
        self.track_config@
    }

    /// The player's track.
    pub closed spec fn track(&self) -> Arc<TrackLocalStaticSample> {
        self.audio_track
    }

    /// The queue the player takes its audio from.
    pub closed spec fn queue(&self) -> Arc<Mutex<Receiver<Vec<u8>>>> {
        self.audio_queue
    }

    /// The flag that says whether the playback task runs.
    pub closed spec fn flag(&self) -> Arc<Mutex<bool>> {
        self.is_playing
    }

    /// A player that takes its audio from `audio_receiver` and streams it on
    /// a new Opus track (48 kHz, stereo, track "audio" of stream
    /// "webrtc-audio-player"); it is not playing yet.
    pub fn new(audio_receiver: Receiver<Vec<u8>>) -> (player: WebRTCAudioPlayer)
        ensures
            track_made_from(*player.track()) == opus_track(),
            player.config() == opus_track(),
            !flag_created_holding(*player.flag()),
            queue_created_holding(*player.queue()) == audio_receiver,
    {
        let track_config = opus_track_config();
        let audio_track = Arc::new(new_sample_track(&track_config));
        WebRTCAudioPlayer {
            audio_track,
            audio_queue: Arc::new(new_queue(audio_receiver)),
            is_playing: Arc::new(new_flag(false)),
            track_config,
        }
    }

    /// The track to add to the peer connection: the player's own track, shared.
    pub fn get_track(&self) -> (track: Arc<TrackLocalStaticSample>)
        ensures
            track == self.track(),
            track_made_from(*track) == self.config(),
    {
        proof {
            use_type_invariant(self);
        }
        share(&self.audio_track)
    }

    /// The queue the playback task takes its audio from, shared.
    pub fn audio_queue(&self) -> (queue: Arc<Mutex<Receiver<Vec<u8>>>>)
        ensures
            queue == self.queue(),
    {
        share(&self.audio_queue)
    }

    /// The flag that says whether the playback task runs, shared.
    pub fn playing_flag(&self) -> (flag: Arc<Mutex<bool>>)
        ensures
            flag == self.flag(),
    {
        share(&self.is_playing)
    }

    /// The codec and identity the player keeps beside its track, the same
    /// the track was made with.
    pub fn track_config(&self) -> (config: &TrackConfig)
        ensures
            config@ == self.config(),
            config@ == track_made_from(*self.track()),
    {
        proof {
            use_type_invariant(self);
        }
        &self.track_config
    }
}

} // verus!
