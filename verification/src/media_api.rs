//! The items of `webrtc`, `tokio` and `std` that the library calls without
//! Verus having read them: their declarations and the wrappers that make
//! the calls.
use vstd::prelude::*;

use std::sync::Arc;
use tokio::sync::mpsc::Receiver;
use tokio::sync::Mutex;
use webrtc::rtp_transceiver::rtp_codec::RTCRtpCodecCapability;
use webrtc::rtp_transceiver::RTCPFeedback;
use webrtc::track::track_local::track_local_static_sample::TrackLocalStaticSample;

use crate::player::{TrackConfig, TrackConfigView};

verus! {

/// A WebRTC track that takes encoded samples (`webrtc`); opaque here.
#[verifier::external_type_specification]
#[verifier::external_body]
pub struct ExTrackLocalStaticSample(TrackLocalStaticSample);

/// The asynchronous mutex of `tokio`; opaque here.
#[verifier::external_type_specification]
#[verifier::external_body]
#[verifier::reject_recursive_types(T)]
pub struct ExMutex<T: ?Sized>(Mutex<T>);

/// The receiving end of a bounded `tokio` channel; opaque here.
#[verifier::external_type_specification]
#[verifier::external_body]
#[verifier::reject_recursive_types(T)]
pub struct ExReceiver<T>(Receiver<T>);

/// The codec, track id and stream id that a track was made with. The track
/// keeps them as it was built; `webrtc` offers no way to change them.
pub uninterp spec fn track_made_from(track: TrackLocalStaticSample) -> TrackConfigView;

/// Calls `TrackLocalStaticSample::new` of `webrtc` with a codec capability,
/// a track id and a stream id made, field by field, from `config`: the track
/// is made from `config`.
#[verifier::external_body]
pub(crate) fn new_sample_track(config: &TrackConfig) -> (track: TrackLocalStaticSample)
    ensures
        track_made_from(track) == config@,
{
    let codec = RTCRtpCodecCapability {
        mime_type: config.mime_type.clone(),
        clock_rate: config.clock_rate,
        channels: config.channels,
        sdp_fmtp_line: config.sdp_fmtp_line.clone(),
        rtcp_feedback: config.rtcp_feedback.iter().map(
            |f| RTCPFeedback { typ: f.typ.clone(), parameter: f.parameter.clone() },
        ).collect(),
    };
    TrackLocalStaticSample::new(codec, config.id.clone(), config.stream_id.clone())
}

/// The value a flag mutex was created holding. What it holds later can
/// change through a lock, which Verus does not see; this names only the
/// value it started with.
pub uninterp spec fn flag_created_holding(flag: Mutex<bool>) -> bool;

/// Calls `tokio::sync::Mutex::new`, which puts `value` in a new, unlocked
/// mutex: the mutex starts holding `value`.
#[verifier::external_body]
pub(crate) fn new_flag(value: bool) -> (flag: Mutex<bool>)
    ensures
        flag_created_holding(flag) == value,
{
    Mutex::new(value)
}

/// The receiver a queue mutex was created holding. The receiver inside can
/// change state through a lock, which Verus does not see; this names only
/// the receiver it started with.
pub uninterp spec fn queue_created_holding(queue: Mutex<Receiver<Vec<u8>>>) -> Receiver<Vec<u8>>;

/// Calls `tokio::sync::Mutex::new`, which puts `receiver` in a new, unlocked
/// mutex: the mutex starts holding `receiver`.
#[verifier::external_body]
pub(crate) fn new_queue(receiver: Receiver<Vec<u8>>) -> (queue: Mutex<Receiver<Vec<u8>>>)
    ensures
        queue_created_holding(queue) == receiver,
{
    Mutex::new(receiver)
}

/// Calls `Arc::clone` of `std`, which, as its documentation says, makes a
/// new pointer to the same allocation: the result points to the same value.
#[verifier::external_body]
pub(crate) fn share<T>(handle: &Arc<T>) -> (copy: Arc<T>)
    ensures
        copy == *handle,
{
    Arc::clone(handle)
}

} // verus!
