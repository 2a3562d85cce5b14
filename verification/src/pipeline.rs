use vstd::prelude::*;

use crate::config::{default_robot_ip, is_local_robot};
use vstd::seq_lib::lemma_flatten_concat;

verus! {

/// Number of leading bytes of a buffer that are shown when it is logged.
pub const PREVIEW_BYTES: usize = 16;

/// Capacity of the queue that carries PCM audio from the pipeline to the
/// audio player.
pub const PCM_QUEUE_CAPACITY: usize = 10;

/// How many leading bytes of a buffer of `len` bytes are shown: 16, or the
/// whole buffer when it is shorter.
pub open spec fn preview_len_spec(len: nat) -> nat {
    if len < 16 {
        len
    } else {
        16
    }
}

/// How many leading bytes of a buffer of `len` bytes are shown.
pub fn preview_len(len: usize) -> (n: usize)
    ensures
        n == preview_len_spec(len as nat),
        n <= len,
        n <= PREVIEW_BYTES,
{
    if len < PREVIEW_BYTES {
        len
    } else {
        PREVIEW_BYTES
    }
}

/// Where the pipeline stands in its handling of the current message.
#[derive(Clone, Copy, Debug, PartialEq, Eq, Structural)]
pub enum PipelineStage {
    /// Waiting for the next message of audio.
    AwaitingAudio,
    /// The peer connection to the robot is being set up.
    SettingUpPeer,
    /// The audio player was created and its track is being added to the
    /// peer connection.
    AddingTrack,
    /// The offer is being made and signalled to the robot.
    Connecting,
    /// Waiting for the ICE and DTLS handshake to complete.
    AwaitingConnection,
    /// The audio player's playback is being started.
    StartingPlayback,
    /// The current message is being decoded into PCM audio.
    ProcessingAudio,
    /// The decoded PCM audio is being handed to the audio player.
    SendingPcm,
    /// The audio channel was closed: the pipeline has shut down.
    Stopped,
}

/// What the pipeline learns from the outside.
#[derive(Debug, PartialEq, Eq)]
pub enum PipelineEvent {
    /// A message of audio arrived.
    AudioReceived(Vec<u8>),
    /// The audio channel was closed and is empty.
    ChannelClosed,
    /// Setting up the peer connection succeeded or failed.
    PeerSetup { ok: bool },
    /// Adding the audio track to the peer connection succeeded or failed.
    TrackAdded { ok: bool },
    /// Making the offer and signalling it succeeded or failed.
    Connected { ok: bool },
    /// The connection was fully established, or waiting for it timed out.
    ConnectionReady { ok: bool },
    /// The audio player's playback has started.
    PlaybackStarted,
    /// Decoding the message gave this PCM audio, or failed.
    AudioProcessed(Option<Vec<u8>>),
    /// Handing the PCM audio to the audio player succeeded or failed.
    PcmSent { ok: bool },
}

/// What the pipeline does next.
#[derive(Debug, PartialEq, Eq)]
pub enum PipelineAction {
    /// Wait for the next message of audio.
    ReceiveAudio,
    /// Create a new connection to the robot at the pipeline's robot address
    /// and set up its peer connection.
    SetupPeerConnection,
    /// Create a PCM queue of `queue_capacity`, keep its sending end, create
    /// an audio player on its receiving end and add the player's track to
    /// the peer connection.
    CreatePlayerAndAddTrack { queue_capacity: usize },
    /// Make the offer and signal it to the robot.
    Connect,
    /// Wait until the connection is fully established.
    WaitUntilConnected,
    /// Start the audio player's playback.
    StartPlayback,
    /// Show the first `preview_len` bytes of `audio`, message number
    /// `message`, then decode it into PCM audio.
    ProcessAudio { message: u64, audio: Vec<u8>, preview_len: usize },
    /// Show the first `preview_len` bytes of `pcm`, the PCM audio of message
    /// number `message`, then hand it to the audio player.
    SendPcm { message: u64, pcm: Vec<u8>, preview_len: usize },
    /// Shut the pipeline down.
    Shutdown,
}

pub enum PipelineEventView {
    AudioReceived(Seq<u8>),
    ChannelClosed,
    PeerSetup { ok: bool },
    TrackAdded { ok: bool },
    Connected { ok: bool },
    ConnectionReady { ok: bool },
    PlaybackStarted,
    AudioProcessed(Option<Seq<u8>>),
    PcmSent { ok: bool },
}

pub enum PipelineActionView {
    ReceiveAudio,
    SetupPeerConnection,
    CreatePlayerAndAddTrack { queue_capacity: usize },
    Connect,
    WaitUntilConnected,
    StartPlayback,
    ProcessAudio { message: u64, audio: Seq<u8>, preview_len: nat },
    SendPcm { message: u64, pcm: Seq<u8>, preview_len: nat },
    Shutdown,
}

impl View for PipelineEvent {
    type V = PipelineEventView;

    open spec fn view(&self) -> PipelineEventView {
        match self {
            PipelineEvent::AudioReceived(data) => PipelineEventView::AudioReceived(data@),
            PipelineEvent::ChannelClosed => PipelineEventView::ChannelClosed,
            PipelineEvent::PeerSetup { ok } => PipelineEventView::PeerSetup { ok: *ok },
            PipelineEvent::TrackAdded { ok } => PipelineEventView::TrackAdded { ok: *ok },
            PipelineEvent::Connected { ok } => PipelineEventView::Connected { ok: *ok },
            PipelineEvent::ConnectionReady { ok } => PipelineEventView::ConnectionReady { ok: *ok },
            PipelineEvent::PlaybackStarted => PipelineEventView::PlaybackStarted,
            PipelineEvent::AudioProcessed(pcm) => PipelineEventView::AudioProcessed(
                match pcm {
                    Some(p) => Some(p@),
                    None => None,
                },
            ),
            PipelineEvent::PcmSent { ok } => PipelineEventView::PcmSent { ok: *ok },
        }
    }
}

impl View for PipelineAction {
    type V = PipelineActionView;

    open spec fn view(&self) -> PipelineActionView {
        match self {
            PipelineAction::ReceiveAudio => PipelineActionView::ReceiveAudio,
            PipelineAction::SetupPeerConnection => PipelineActionView::SetupPeerConnection,
            PipelineAction::CreatePlayerAndAddTrack { queue_capacity } =>
                PipelineActionView::CreatePlayerAndAddTrack { queue_capacity: *queue_capacity },
            PipelineAction::Connect => PipelineActionView::Connect,
            PipelineAction::WaitUntilConnected => PipelineActionView::WaitUntilConnected,
            PipelineAction::StartPlayback => PipelineActionView::StartPlayback,
            PipelineAction::ProcessAudio { message, audio, preview_len } =>
                PipelineActionView::ProcessAudio {
                message: *message,
                audio: audio@,
                preview_len: *preview_len as nat,
            },
            PipelineAction::SendPcm { message, pcm, preview_len } => PipelineActionView::SendPcm {
                message: *message,
                pcm: pcm@,
                preview_len: *preview_len as nat,
            },
            PipelineAction::Shutdown => PipelineActionView::Shutdown,
        }
    }
}

/// What the pipeline reports along with its next action.
#[derive(Clone, Copy, Debug, PartialEq, Eq, Structural)]
pub enum PipelineNotice {
    /// Nothing beyond the action itself.
    Quiet,
    /// The first audio arrived before WebRTC was set up: set-up begins.
    InitializationStarted,
    /// Setting up the peer connection failed; the message is dropped.
    SetupFailed,
    /// Adding the audio track failed; the message is dropped.
    TrackFailed,
    /// Signalling failed; the message is dropped. `local_robot` says whether
    /// the robot's address is the local host, which decides the advice given.
    ConnectFailed { local_robot: bool },
    /// The connection was not established in time; the message is dropped.
    ConnectionTimedOut,
    /// WebRTC is set up and playback has started.
    Initialized,
    /// Decoding message number `message` failed.
    ProcessingFailed { message: u64 },
    /// There is no audio player to hand the PCM audio to.
    PlayerNotReady,
    /// Handing the PCM audio to the audio player failed.
    PcmSendFailed,
    /// The PCM audio of message number `message` went to the audio player.
    PcmDelivered { message: u64 },
    /// The audio channel was closed.
    ChannelClosed,
}

/// The pipeline's state, as plain values.
pub struct PipelineState {
    /// Number of messages received so far.
    pub message_count: u64,
    /// Whether WebRTC has been set up and playback started.
    pub webrtc_initialized: bool,
    /// Whether the pipeline holds the sending end of a PCM queue.
    pub pcm_sender_ready: bool,
    /// The message being handled, until it is handed out for decoding.
    pub audio: Seq<u8>,
    pub stage: PipelineStage,
    /// Address of the robot's WebRTC service.
    pub robot_ip: Seq<char>,
}

/// The decisions of the audio pipeline, one message at a time. WebRTC is set
/// up lazily, when the first message arrives; a failure at any step of the
/// set-up drops that message and the set-up is tried again on the next one.
/// Once set up, every message is decoded and its PCM audio handed to the
/// audio player.
pub struct StreamingPipeline {
    message_count: u64,
    webrtc_initialized: bool,
    pcm_sender_ready: bool,
    audio: Vec<u8>,
    stage: PipelineStage,
    robot_ip: String,
}

impl View for StreamingPipeline {
    type V = PipelineState;

    closed spec fn view(&self) -> PipelineState {
        PipelineState {
            message_count: self.message_count,
            webrtc_initialized: self.webrtc_initialized,
            pcm_sender_ready: self.pcm_sender_ready,
            audio: self.audio@,
            stage: self.stage,
            robot_ip: self.robot_ip@,
        }
    }
}

/// The pipeline's state is consistent: audio is handled only once WebRTC is
/// set up, a set-up pipeline holds a PCM queue, and the set-up steps after
/// the first run while the queue is held and before set-up has completed.
pub open spec fn pipeline_wf(s: PipelineState) -> bool {
    &&& s.webrtc_initialized ==> s.pcm_sender_ready
    &&& (s.stage == PipelineStage::ProcessingAudio || s.stage == PipelineStage::SendingPcm)
        ==> s.webrtc_initialized
    &&& s.stage == PipelineStage::SettingUpPeer ==> !s.webrtc_initialized
    &&& (s.stage == PipelineStage::AddingTrack || s.stage == PipelineStage::Connecting || s.stage
        == PipelineStage::AwaitingConnection || s.stage == PipelineStage::StartingPlayback) ==> (
    s.pcm_sender_ready && !s.webrtc_initialized)
}

/// The events that the pipeline can take in each stage. A message can be
/// counted only while the count has room.
pub open spec fn pipeline_accepts(s: PipelineState, e: PipelineEventView) -> bool {
    match s.stage {
        PipelineStage::AwaitingAudio => match e {
            PipelineEventView::AudioReceived(_) => s.message_count < u64::MAX,
            PipelineEventView::ChannelClosed => true,
            _ => false,
        },
        PipelineStage::SettingUpPeer => e is PeerSetup,
        PipelineStage::AddingTrack => e is TrackAdded,
        PipelineStage::Connecting => e is Connected,
        PipelineStage::AwaitingConnection => e is ConnectionReady,
        PipelineStage::StartingPlayback => e is PlaybackStarted,
        PipelineStage::ProcessingAudio => e is AudioProcessed,
        PipelineStage::SendingPcm => e is PcmSent,
        PipelineStage::Stopped => false,
    }
}

/// The state in `stage`, with everything else kept.
pub open spec fn at_stage(s: PipelineState, stage: PipelineStage) -> PipelineState {
    PipelineState { stage, ..s }
}

/// The message is dropped: wait for the next one.
pub open spec fn drop_message(s: PipelineState, notice: PipelineNotice) -> (
    PipelineState,
    PipelineActionView,
    PipelineNotice,
) {
    (
        PipelineState { stage: PipelineStage::AwaitingAudio, audio: Seq::empty(), ..s },
        PipelineActionView::ReceiveAudio,
        notice,
    )
}

/// Hand the current message out for decoding.
pub open spec fn process_current(s: PipelineState, notice: PipelineNotice) -> (
    PipelineState,
    PipelineActionView,
    PipelineNotice,
) {
    (
        PipelineState {
            webrtc_initialized: true,
            stage: PipelineStage::ProcessingAudio,
            audio: Seq::empty(),
            ..s
        },
        PipelineActionView::ProcessAudio {
            message: s.message_count,
            audio: s.audio,
            preview_len: preview_len_spec(s.audio.len()),
        },
        notice,
    )
}

/// One step of the pipeline: the next state, the next action and what is
/// reported.
pub open spec fn pipeline_step(s: PipelineState, e: PipelineEventView) -> (
    PipelineState,
    PipelineActionView,
    PipelineNotice,
) {
    match e {
        PipelineEventView::AudioReceived(data) => {
            let counted = PipelineState {
                message_count: (s.message_count + 1) as u64,
                audio: data,
                ..s
            };
            if s.webrtc_initialized {
                process_current(counted, PipelineNotice::Quiet)
            } else {
                (
                    at_stage(counted, PipelineStage::SettingUpPeer),
                    PipelineActionView::SetupPeerConnection,
                    PipelineNotice::InitializationStarted,
                )
            }
        },
        PipelineEventView::ChannelClosed => (
            at_stage(s, PipelineStage::Stopped),
            PipelineActionView::Shutdown,
            PipelineNotice::ChannelClosed,
        ),
        PipelineEventView::PeerSetup { ok } => if ok {
            (
                PipelineState { pcm_sender_ready: true, stage: PipelineStage::AddingTrack, ..s },
                PipelineActionView::CreatePlayerAndAddTrack { queue_capacity: PCM_QUEUE_CAPACITY },
                PipelineNotice::Quiet,
            )
        } else {
            drop_message(s, PipelineNotice::SetupFailed)
        },
        PipelineEventView::TrackAdded { ok } => if ok {
            (
                at_stage(s, PipelineStage::Connecting),
                PipelineActionView::Connect,
                PipelineNotice::Quiet,
            )
        } else {
            drop_message(s, PipelineNotice::TrackFailed)
        },
        PipelineEventView::Connected { ok } => if ok {
            (
                at_stage(s, PipelineStage::AwaitingConnection),
                PipelineActionView::WaitUntilConnected,
                PipelineNotice::Quiet,
            )
        } else {
            drop_message(
                s,
                PipelineNotice::ConnectFailed { local_robot: s.robot_ip == default_robot_ip() },
            )
        },
        PipelineEventView::ConnectionReady { ok } => if ok {
            (
                at_stage(s, PipelineStage::StartingPlayback),
                PipelineActionView::StartPlayback,
                PipelineNotice::Quiet,
            )
        } else {
            drop_message(s, PipelineNotice::ConnectionTimedOut)
        },
        PipelineEventView::PlaybackStarted => process_current(s, PipelineNotice::Initialized),
        PipelineEventView::AudioProcessed(pcm) => match pcm {
            Some(p) => if s.pcm_sender_ready {
                (
                    at_stage(s, PipelineStage::SendingPcm),
                    PipelineActionView::SendPcm {
                        message: s.message_count,
                        pcm: p,
                        preview_len: preview_len_spec(p.len()),
                    },
                    PipelineNotice::Quiet,
                )
            } else {
                drop_message(s, PipelineNotice::PlayerNotReady)
            },
            None => drop_message(
                s,
                PipelineNotice::ProcessingFailed { message: s.message_count },
            ),
        },
        PipelineEventView::PcmSent { ok } => if ok {
            drop_message(s, PipelineNotice::PcmDelivered { message: s.message_count })
        } else {
            drop_message(s, PipelineNotice::PcmSendFailed)
        },
    }
}

impl StreamingPipeline {
    /// The pipeline as it starts, for the robot at `robot_ip`: no message
    /// seen, WebRTC not set up, waiting for the first message.
    pub fn new(robot_ip: String) -> (pipeline: StreamingPipeline)
        ensures
            pipeline@ == (PipelineState {
                message_count: 0,
                webrtc_initialized: false,
                pcm_sender_ready: false,
                audio: Seq::empty(),
                stage: PipelineStage::AwaitingAudio,
                robot_ip: robot_ip@,
            }),
            pipeline_wf(pipeline@),
    {
        StreamingPipeline {
            message_count: 0,
            webrtc_initialized: false,
            pcm_sender_ready: false,
            audio: Vec::new(),
            stage: PipelineStage::AwaitingAudio,
            robot_ip,
        }
    }

    /// The address of the robot that every connection is made to: the one
    /// the pipeline was created with.
    pub fn robot_ip(&self) -> (ip: &String)
        ensures
            ip@ == self@.robot_ip,
    {
        &self.robot_ip
    }

    /// The stage the pipeline is in.
    pub fn stage(&self) -> (stage: PipelineStage)
        ensures
            stage == self@.stage,
    {
        self.stage
    }

    /// Number of messages received so far.
    pub fn message_count(&self) -> (n: u64)
        ensures
            n == self@.message_count,
    {
        self.message_count
    }

    /// Whether WebRTC has been set up.
    pub fn is_initialized(&self) -> (b: bool)
        ensures
            b == self@.webrtc_initialized,
    {
        self.webrtc_initialized
    }

    /// Whether the pipeline can take `event` in its present state.
    pub fn accepts(&self, event: &PipelineEvent) -> (ok: bool)
        ensures
            ok == pipeline_accepts(self@, event@),
    {
        match self.stage {
            PipelineStage::AwaitingAudio => match event {
                PipelineEvent::AudioReceived(_) => self.message_count < u64::MAX,
                PipelineEvent::ChannelClosed => true,
                _ => false,
            },
            PipelineStage::SettingUpPeer => matches!(event, PipelineEvent::PeerSetup { .. }),
            PipelineStage::AddingTrack => matches!(event, PipelineEvent::TrackAdded { .. }),
            PipelineStage::Connecting => matches!(event, PipelineEvent::Connected { .. }),
            PipelineStage::AwaitingConnection => matches!(
                event,
                PipelineEvent::ConnectionReady { .. }
            ),
            PipelineStage::StartingPlayback => matches!(event, PipelineEvent::PlaybackStarted),
            PipelineStage::ProcessingAudio => matches!(event, PipelineEvent::AudioProcessed(_)),
            PipelineStage::SendingPcm => matches!(event, PipelineEvent::PcmSent { .. }),
            PipelineStage::Stopped => false,
        }
    }

    fn drop_message(&mut self, notice: PipelineNotice) -> (r: (PipelineAction, PipelineNotice))
        ensures
            (final(self)@, r.0@, r.1) == drop_message(old(self)@, notice),
    {
        self.stage = PipelineStage::AwaitingAudio;
        self.audio = Vec::new();
        (PipelineAction::ReceiveAudio, notice)
    }

    fn process_current(&mut self, notice: PipelineNotice) -> (r: (PipelineAction, PipelineNotice))
        ensures
            (final(self)@, r.0@, r.1) == process_current(old(self)@, notice),
    {
        let mut audio: Vec<u8> = Vec::new();
        std::mem::swap(&mut audio, &mut self.audio);
        self.webrtc_initialized = true;
        self.stage = PipelineStage::ProcessingAudio;
        let preview_len = preview_len(audio.len());
        (PipelineAction::ProcessAudio { message: self.message_count, audio, preview_len }, notice)
    }

    /// Takes one event and says what to do next and what to report.
    pub fn step(&mut self, event: PipelineEvent) -> (r: (PipelineAction, PipelineNotice))
        requires
            pipeline_wf(old(self)@),
            pipeline_accepts(old(self)@, event@),
        ensures
            (final(self)@, r.0@, r.1) == pipeline_step(old(self)@, event@),
            pipeline_wf(final(self)@),
    {
        match event {
            PipelineEvent::AudioReceived(data) => {
                self.message_count = self.message_count + 1;
                self.audio = data;
                if self.webrtc_initialized {
                    self.process_current(PipelineNotice::Quiet)
                } else {
                    self.stage = PipelineStage::SettingUpPeer;
                    (PipelineAction::SetupPeerConnection, PipelineNotice::InitializationStarted)
                }
            },
            PipelineEvent::ChannelClosed => {
                self.stage = PipelineStage::Stopped;
                (PipelineAction::Shutdown, PipelineNotice::ChannelClosed)
            },
            PipelineEvent::PeerSetup { ok } => {
                if ok {
                    self.pcm_sender_ready = true;
                    self.stage = PipelineStage::AddingTrack;
                    (
                        PipelineAction::CreatePlayerAndAddTrack {
                            queue_capacity: PCM_QUEUE_CAPACITY,
                        },
                        PipelineNotice::Quiet,
                    )
                } else {
                    self.drop_message(PipelineNotice::SetupFailed)
                }
            },
            PipelineEvent::TrackAdded { ok } => {
                if ok {
                    self.stage = PipelineStage::Connecting;
                    (PipelineAction::Connect, PipelineNotice::Quiet)
                } else {
                    self.drop_message(PipelineNotice::TrackFailed)
                }
            },
            PipelineEvent::Connected { ok } => {
                if ok {
                    self.stage = PipelineStage::AwaitingConnection;
                    (PipelineAction::WaitUntilConnected, PipelineNotice::Quiet)
                } else {
                    let local_robot = is_local_robot(&self.robot_ip);
                    self.drop_message(PipelineNotice::ConnectFailed { local_robot })
                }
            },
            PipelineEvent::ConnectionReady { ok } => {
                if ok {
                    self.stage = PipelineStage::StartingPlayback;
                    (PipelineAction::StartPlayback, PipelineNotice::Quiet)
                } else {
                    self.drop_message(PipelineNotice::ConnectionTimedOut)
                }
            },
            PipelineEvent::PlaybackStarted => self.process_current(PipelineNotice::Initialized),
            PipelineEvent::AudioProcessed(pcm) => {
                match pcm {
                    Some(p) => {
                        if self.pcm_sender_ready {
                            self.stage = PipelineStage::SendingPcm;
                            let preview_len = preview_len(p.len());
                            (
                                PipelineAction::SendPcm {
                                    message: self.message_count,
                                    pcm: p,
                                    preview_len,
                                },
                                PipelineNotice::Quiet,
                            )
                        } else {
                            self.drop_message(PipelineNotice::PlayerNotReady)
                        }
                    },
                    None => {
                        let message = self.message_count;
                        self.drop_message(PipelineNotice::ProcessingFailed { message })
                    },
                }
            },
            PipelineEvent::PcmSent { ok } => {
                if ok {
                    let message = self.message_count;
                    self.drop_message(PipelineNotice::PcmDelivered { message })
                } else {
                    self.drop_message(PipelineNotice::PcmSendFailed)
                }
            },
        }
    }
}

/// Every step keeps the pipeline's state consistent.
pub proof fn lemma_step_keeps_wf(s: PipelineState, e: PipelineEventView)
    requires
        pipeline_wf(s),
        pipeline_accepts(s, e),
    ensures
        pipeline_wf(pipeline_step(s, e).0),
{
}

/// Every step keeps the robot's address: every connection the pipeline asks
/// for is to the address it was created with.
pub proof fn lemma_robot_address_kept(s: PipelineState, e: PipelineEventView)
    ensures
        pipeline_step(s, e).0.robot_ip == s.robot_ip,
{
}

/// Once WebRTC is set up it stays set up: no event undoes it.
pub proof fn lemma_initialized_persists(s: PipelineState, e: PipelineEventView)
    requires
        pipeline_wf(s),
        pipeline_accepts(s, e),
        s.webrtc_initialized,
    ensures
        pipeline_step(s, e).0.webrtc_initialized,
{
}

/// A message that arrives once WebRTC is set up goes straight to decoding,
/// bytes unchanged: the set-up is never repeated.
pub proof fn lemma_no_setup_once_initialized(s: PipelineState, data: Seq<u8>)
    requires
        pipeline_wf(s),
        pipeline_accepts(s, PipelineEventView::AudioReceived(data)),
        s.webrtc_initialized,
    ensures
        ({
            let r = pipeline_step(s, PipelineEventView::AudioReceived(data));
            &&& r.1 == (PipelineActionView::ProcessAudio {
                message: (s.message_count + 1) as u64,
                audio: data,
                preview_len: preview_len_spec(data.len()),
            })
            &&& r.0.stage == PipelineStage::ProcessingAudio
        }),
{
}

/// Audio is decoded, or handed to the audio player, only once WebRTC is set
/// up, and only while the pipeline holds a PCM queue.
pub proof fn lemma_audio_handled_only_when_initialized(s: PipelineState, e: PipelineEventView)
    requires
        pipeline_wf(s),
        pipeline_accepts(s, e),
    ensures
        (pipeline_step(s, e).1 is ProcessAudio || pipeline_step(s, e).1 is SendPcm) ==> (
        pipeline_step(s, e).0.webrtc_initialized && pipeline_step(s, e).0.pcm_sender_ready),
{
}

/// Decoded audio always finds an audio player: from a consistent state the
/// pipeline never reports that the player is not ready.
pub proof fn lemma_player_always_ready(s: PipelineState, e: PipelineEventView)
    requires
        pipeline_wf(s),
        pipeline_accepts(s, e),
    ensures
        pipeline_step(s, e).2 != PipelineNotice::PlayerNotReady,
{
}

/// Each message is counted once, when it arrives; no other event changes
/// the count.
pub proof fn lemma_messages_counted_once(s: PipelineState, e: PipelineEventView)
    requires
        pipeline_accepts(s, e),
    ensures
        pipeline_step(s, e).0.message_count == (if e is AudioReceived {
            s.message_count + 1
        } else {
            s.message_count as int
        }),
{
}

/// The events that report the failure of a step of the WebRTC set-up.
pub open spec fn is_setup_failure(e: PipelineEventView) -> bool {
    ||| e == PipelineEventView::PeerSetup { ok: false }
    ||| e == PipelineEventView::TrackAdded { ok: false }
    ||| e == PipelineEventView::Connected { ok: false }
    ||| e == PipelineEventView::ConnectionReady { ok: false }
}

/// A failure at any step of the WebRTC set-up drops the message and leaves
/// WebRTC not set up, waiting for the next message, which tries the set-up
/// again from its first step.
pub proof fn lemma_failed_setup_retries(s: PipelineState, e: PipelineEventView, data: Seq<u8>)
    requires
        pipeline_wf(s),
        pipeline_accepts(s, e),
        is_setup_failure(e),
    ensures
        ({
            let next = pipeline_step(s, e).0;
            let arrival = PipelineEventView::AudioReceived(data);
            &&& next.stage == PipelineStage::AwaitingAudio
            &&& !next.webrtc_initialized
            &&& pipeline_step(s, e).1 == PipelineActionView::ReceiveAudio
            &&& pipeline_accepts(next, arrival) ==> pipeline_step(next, arrival).1
                == PipelineActionView::SetupPeerConnection
        }),
{
}

/// The first message's way through a set-up in which every step succeeds:
/// peer connection, player and track, signalling, handshake and playback,
/// after which that same message is decoded.
pub proof fn lemma_setup_then_process(s: PipelineState, data: Seq<u8>)
    requires
        pipeline_wf(s),
        s.stage == PipelineStage::AwaitingAudio,
        !s.webrtc_initialized,
        s.message_count < u64::MAX,
    ensures
        ({
            let s1 = pipeline_step(s, PipelineEventView::AudioReceived(data));
            let s2 = pipeline_step(s1.0, PipelineEventView::PeerSetup { ok: true });
            let s3 = pipeline_step(s2.0, PipelineEventView::TrackAdded { ok: true });
            let s4 = pipeline_step(s3.0, PipelineEventView::Connected { ok: true });
            let s5 = pipeline_step(s4.0, PipelineEventView::ConnectionReady { ok: true });
            let s6 = pipeline_step(s5.0, PipelineEventView::PlaybackStarted);
            &&& s1.1 == PipelineActionView::SetupPeerConnection
            &&& s2.1 == (PipelineActionView::CreatePlayerAndAddTrack {
                queue_capacity: PCM_QUEUE_CAPACITY,
            })
            &&& s3.1 == PipelineActionView::Connect
            &&& s4.1 == PipelineActionView::WaitUntilConnected
            &&& s5.1 == PipelineActionView::StartPlayback
            &&& s6.0.webrtc_initialized
            &&& s6.0.message_count == s.message_count + 1
            &&& s6.1 == (PipelineActionView::ProcessAudio {
                message: (s.message_count + 1) as u64,
                audio: data,
                preview_len: preview_len_spec(data.len()),
            })
            &&& s6.2 == PipelineNotice::Initialized
        }),
{
}

/// Closing the audio channel shuts the pipeline down for good: a stopped
/// pipeline takes no further event.
pub proof fn lemma_close_is_final(s: PipelineState)
    requires
        pipeline_accepts(s, PipelineEventView::ChannelClosed),
    ensures
        pipeline_step(s, PipelineEventView::ChannelClosed).1 == PipelineActionView::Shutdown,
        forall|e: PipelineEventView|
            !(#[trigger] pipeline_accepts(pipeline_step(s, PipelineEventView::ChannelClosed).0, e)),
{
}

/// How the WebRTC set-up goes when it is tried for a message: the step at
/// which it fails, or success.
pub enum SetupOutcome {
    PeerSetupFails,
    TrackFails,
    ConnectFails,
    HandshakeFails,
    Succeeds,
}

/// What the outside world answers while one message is handled: the
/// message's bytes, how a set-up tried for it goes, the PCM audio decoding
/// it gives (if any) and whether handing that audio to the player succeeds.
pub struct MessageOutcome {
    pub audio: Seq<u8>,
    pub setup: SetupOutcome,
    pub pcm: Option<Seq<u8>>,
    pub send_ok: bool,
}

/// The event with which the driver answers `action`, as `m` prescribes.
pub open spec fn respond(action: PipelineActionView, m: MessageOutcome) -> PipelineEventView {
    match action {
        PipelineActionView::SetupPeerConnection => PipelineEventView::PeerSetup {
            ok: !(m.setup is PeerSetupFails),
        },
        PipelineActionView::CreatePlayerAndAddTrack { .. } => PipelineEventView::TrackAdded {
            ok: !(m.setup is TrackFails),
        },
        PipelineActionView::Connect => PipelineEventView::Connected {
            ok: !(m.setup is ConnectFails),
        },
        PipelineActionView::WaitUntilConnected => PipelineEventView::ConnectionReady {
            ok: !(m.setup is HandshakeFails),
        },
        PipelineActionView::StartPlayback => PipelineEventView::PlaybackStarted,
        PipelineActionView::ProcessAudio { .. } => PipelineEventView::AudioProcessed(m.pcm),
        PipelineActionView::SendPcm { .. } => PipelineEventView::PcmSent { ok: m.send_ok },
        _ => PipelineEventView::ChannelClosed,
    }
}

/// Drives the pipeline from `action` on, answering each action as `m`
/// prescribes, until it asks for the next message (or `fuel` runs out).
/// Gives the state reached and the actions issued, in order.
pub open spec fn drive(
    s: PipelineState,
    action: PipelineActionView,
    m: MessageOutcome,
    fuel: nat,
) -> (PipelineState, Seq<PipelineActionView>)
    decreases fuel,
{
    if fuel == 0 || action is ReceiveAudio || action is Shutdown {
        (s, Seq::empty())
    } else {
        let r = pipeline_step(s, respond(action, m));
        let rest = drive(r.0, r.1, m, (fuel - 1) as nat);
        (rest.0, seq![r.1] + rest.1)
    }
}

/// Handles one message, from its arrival until the pipeline asks for the
/// next one: the state reached and every action issued, in order.
pub open spec fn handle_message(s: PipelineState, m: MessageOutcome) -> (
    PipelineState,
    Seq<PipelineActionView>,
) {
    let r = pipeline_step(s, PipelineEventView::AudioReceived(m.audio));
    let d = drive(r.0, r.1, m, 8);
    (d.0, seq![r.1] + d.1)
}

/// Handles the messages one after the other: the state reached and, for
/// each message, the actions issued for it.
pub open spec fn run_messages(s: PipelineState, msgs: Seq<MessageOutcome>) -> (
    PipelineState,
    Seq<Seq<PipelineActionView>>,
)
    decreases msgs.len(),
{
    if msgs.len() == 0 {
        (s, Seq::empty())
    } else {
        let h = handle_message(s, msgs[0]);
        let rest = run_messages(h.0, msgs.drop_first());
        (rest.0, seq![h.1] + rest.1)
    }
}

/// The actions of a set-up attempt that goes as `outcome` says: each step
/// is asked for in turn; a failure sends the pipeline back to waiting for
/// the next message, success to starting playback.
pub open spec fn setup_actions(outcome: SetupOutcome) -> Seq<PipelineActionView> {
    let create = PipelineActionView::CreatePlayerAndAddTrack { queue_capacity: PCM_QUEUE_CAPACITY };
    match outcome {
        SetupOutcome::PeerSetupFails => seq![
            PipelineActionView::SetupPeerConnection,
            PipelineActionView::ReceiveAudio,
        ],
        SetupOutcome::TrackFails => seq![
            PipelineActionView::SetupPeerConnection,
            create,
            PipelineActionView::ReceiveAudio,
        ],
        SetupOutcome::ConnectFails => seq![
            PipelineActionView::SetupPeerConnection,
            create,
            PipelineActionView::Connect,
            PipelineActionView::ReceiveAudio,
        ],
        SetupOutcome::HandshakeFails => seq![
            PipelineActionView::SetupPeerConnection,
            create,
            PipelineActionView::Connect,
            PipelineActionView::WaitUntilConnected,
            PipelineActionView::ReceiveAudio,
        ],
        SetupOutcome::Succeeds => seq![
            PipelineActionView::SetupPeerConnection,
            create,
            PipelineActionView::Connect,
            PipelineActionView::WaitUntilConnected,
            PipelineActionView::StartPlayback,
        ],
    }
}

/// The actions that handle message number `message` once WebRTC is set up:
/// decode its bytes, hand the PCM audio decoding gives (if any) to the
/// player, then wait for the next message.
pub open spec fn handling_actions(message: u64, m: MessageOutcome) -> Seq<PipelineActionView> {
    seq![
        PipelineActionView::ProcessAudio {
            message,
            audio: m.audio,
            preview_len: preview_len_spec(m.audio.len()),
        },
    ] + match m.pcm {
        Some(p) => seq![
            PipelineActionView::SendPcm { message, pcm: p, preview_len: preview_len_spec(p.len()) },
            PipelineActionView::ReceiveAudio,
        ],
        None => seq![PipelineActionView::ReceiveAudio],
    }
}

/// Index of the first message whose set-up attempt succeeds, or the number
/// of messages when none does.
pub open spec fn first_setup_success(msgs: Seq<MessageOutcome>) -> nat
    decreases msgs.len(),
{
    if msgs.len() == 0 {
        0
    } else if msgs[0].setup is Succeeds {
        0
    } else {
        1 + first_setup_success(msgs.drop_first())
    }
}

/// The actions that message `j` of `msgs` is handled with, when WebRTC was
/// set up before the run (`initialized`) or not: until the first set-up
/// succeeds, only the set-up is attempted and the message is dropped; the
/// message whose set-up succeeds is then handled; every later message is
/// handled straight away.
pub open spec fn expected_actions(
    initialized: bool,
    first_count: u64,
    msgs: Seq<MessageOutcome>,
    j: int,
) -> Seq<PipelineActionView> {
    let k = first_setup_success(msgs);
    let message = (first_count + j + 1) as u64;
    if initialized || j > k {
        handling_actions(message, msgs[j])
    } else if j < k {
        setup_actions(msgs[j].setup)
    } else {
        setup_actions(SetupOutcome::Succeeds) + handling_actions(message, msgs[j])
    }
}

/// The PCM buffers that a sequence of actions hands to the player, in order.
pub open spec fn buffers_sent(actions: Seq<PipelineActionView>) -> Seq<Seq<u8>>
    decreases actions.len(),
{
    if actions.len() == 0 {
        Seq::empty()
    } else {
        let rest = buffers_sent(actions.drop_first());
        match actions[0] {
            PipelineActionView::SendPcm { pcm, .. } => seq![pcm] + rest,
            _ => rest,
        }
    }
}

/// The PCM buffers that a run of messages should hand to the player, in
/// order: from the first message whose set-up succeeds on (or from the
/// start when WebRTC was set up already), the PCM audio of each message
/// that decoding gives any for.
pub open spec fn expected_buffers(initialized: bool, msgs: Seq<MessageOutcome>) -> Seq<Seq<u8>>
    decreases msgs.len(),
{
    if msgs.len() == 0 {
        Seq::empty()
    } else {
        let ready = initialized || msgs[0].setup is Succeeds;
        let now = if ready {
            match msgs[0].pcm {
                Some(p) => seq![p],
                None => Seq::empty(),
            }
        } else {
            Seq::empty()
        };
        now + expected_buffers(ready, msgs.drop_first())
    }
}

/// The buffers handed to the player over a run, message after message.
pub open spec fn run_buffers(log: Seq<Seq<PipelineActionView>>) -> Seq<Seq<u8>> {
    log.map_values(|actions: Seq<PipelineActionView>| buffers_sent(actions)).flatten()
}

/// One message, from a consistent pipeline waiting for audio.
proof fn lemma_handle_message(s: PipelineState, m: MessageOutcome)
    requires
        pipeline_wf(s),
        s.stage == PipelineStage::AwaitingAudio,
        s.message_count < u64::MAX,
    ensures
        ({
            let h = handle_message(s, m);
            let message = (s.message_count + 1) as u64;
            let ready = s.webrtc_initialized || m.setup is Succeeds;
            &&& pipeline_wf(h.0)
            &&& h.0.stage == PipelineStage::AwaitingAudio
            &&& h.0.message_count == message
            &&& h.0.webrtc_initialized == ready
            &&& h.0.robot_ip == s.robot_ip
            &&& h.1 == if s.webrtc_initialized {
                handling_actions(message, m)
            } else if m.setup is Succeeds {
                setup_actions(SetupOutcome::Succeeds) + handling_actions(message, m)
            } else {
                setup_actions(m.setup)
            }
            &&& buffers_sent(h.1) == if ready {
                match m.pcm {
                    Some(p) => seq![p],
                    None => Seq::<Seq<u8>>::empty(),
                }
            } else {
                Seq::<Seq<u8>>::empty()
            }
        }),
{
    reveal_with_fuel(drive, 9);
    reveal_with_fuel(buffers_sent, 9);
    let h = handle_message(s, m);
    let message = (s.message_count + 1) as u64;
    if s.webrtc_initialized {
        assert(h.1 =~= handling_actions(message, m));
    } else if m.setup is Succeeds {
        assert(h.1 =~= setup_actions(SetupOutcome::Succeeds) + handling_actions(message, m));
    } else {
        assert(h.1 =~= setup_actions(m.setup));
    }
    let b = buffers_sent(h.1);
    let l = h.1;
    assert(b == buffers_sent(l));
    if m.pcm is Some {
        assert(buffers_sent(l) =~= if s.webrtc_initialized || m.setup is Succeeds {
            seq![m.pcm->0]
        } else {
            Seq::<Seq<u8>>::empty()
        });
    } else {
        assert(buffers_sent(l) =~= Seq::<Seq<u8>>::empty());
    }
}

/// Over a whole run of messages: until a set-up attempt first succeeds,
/// each message only triggers a new attempt, from its first step, and is
/// neither decoded nor sent; the message whose attempt succeeds is decoded;
/// every later message is decoded straight away, with no new set-up and no
/// new PCM queue, and its PCM audio, when decoding gives any, is handed to
/// the player of that set-up. Messages are numbered in the order they
/// arrive, their bytes go to decoding unchanged, and the buffers handed to
/// the player are exactly the PCM audio decoded from the messages from the
/// first successful set-up on, in order. Every connection is to the robot
/// address the pipeline was created with.
pub proof fn lemma_run_of_messages(s: PipelineState, msgs: Seq<MessageOutcome>)
    requires
        pipeline_wf(s),
        s.stage == PipelineStage::AwaitingAudio,
        s.message_count + msgs.len() <= u64::MAX,
    ensures
        ({
            let run = run_messages(s, msgs);
            &&& pipeline_wf(run.0)
            &&& run.0.stage == PipelineStage::AwaitingAudio
            &&& run.0.message_count == s.message_count + msgs.len()
            &&& run.0.webrtc_initialized == (s.webrtc_initialized || first_setup_success(msgs)
                < msgs.len())
            &&& run.0.robot_ip == s.robot_ip
            &&& run.1.len() == msgs.len()
            &&& forall|j: int|
                0 <= j < msgs.len() ==> #[trigger] run.1[j] == expected_actions(
                    s.webrtc_initialized,
                    s.message_count,
                    msgs,
                    j,
                )
            &&& run_buffers(run.1) == expected_buffers(s.webrtc_initialized, msgs)
        }),
    decreases msgs.len(),
{
    let run = run_messages(s, msgs);
    if msgs.len() > 0 {
        lemma_handle_message(s, msgs[0]);
        let h = handle_message(s, msgs[0]);
        let tail = msgs.drop_first();
        lemma_run_of_messages(h.0, tail);
        let rest = run_messages(h.0, tail);
        let k = first_setup_success(msgs);
        assert(run.1 == seq![h.1] + rest.1);
        if !s.webrtc_initialized && !(msgs[0].setup is Succeeds) {
            assert(first_setup_success(tail) == k - 1);
        }
        assert forall|j: int| 0 <= j < msgs.len() implies #[trigger] run.1[j] == expected_actions(
            s.webrtc_initialized,
            s.message_count,
            msgs,
            j,
        ) by {
            if j > 0 {
                assert(run.1[j] == rest.1[j - 1]);
                assert(tail[j - 1] == msgs[j]);
                assert(expected_actions(h.0.webrtc_initialized, h.0.message_count, tail, j - 1)
                    == expected_actions(s.webrtc_initialized, s.message_count, msgs, j));
            }
        }
        let f = |actions: Seq<PipelineActionView>| buffers_sent(actions);
        assert(run.1.map_values(f) =~= seq![buffers_sent(h.1)] + rest.1.map_values(f));
        lemma_flatten_concat(seq![buffers_sent(h.1)], rest.1.map_values(f));
        seq![buffers_sent(h.1)].lemma_flatten_one_element();
    } else {
        assert(run.1.map_values(|actions: Seq<PipelineActionView>| buffers_sent(actions))
            =~= Seq::<Seq<Seq<u8>>>::empty());
        assert(Seq::<Seq<Seq<u8>>>::empty().flatten() =~= Seq::<Seq<u8>>::empty());
    }
}

/// The events that answer an action: what the driver reports back after
/// carrying it out. A message or the channel's closing answers the wait for
/// audio; each set-up step is answered by its outcome; the start of
/// playback by its having started; decoding by its result; handing PCM to
/// the player by its outcome; nothing answers the shutdown.
pub open spec fn pipeline_answers(action: PipelineActionView, e: PipelineEventView) -> bool {
    match action {
        PipelineActionView::ReceiveAudio => e is AudioReceived || e is ChannelClosed,
        PipelineActionView::SetupPeerConnection => e is PeerSetup,
        PipelineActionView::CreatePlayerAndAddTrack { .. } => e is TrackAdded,
        PipelineActionView::Connect => e is Connected,
        PipelineActionView::WaitUntilConnected => e is ConnectionReady,
        PipelineActionView::StartPlayback => e is PlaybackStarted,
        PipelineActionView::ProcessAudio { .. } => e is AudioProcessed,
        PipelineActionView::SendPcm { .. } => e is PcmSent,
        PipelineActionView::Shutdown => false,
    }
}

/// A pipeline that has just started takes any message, and the channel's
/// closing.
pub proof fn lemma_start_takes_any_message(robot_ip: Seq<char>, data: Seq<u8>)
    ensures
        ({
            let s = PipelineState {
                message_count: 0,
                webrtc_initialized: false,
                pcm_sender_ready: false,
                audio: Seq::empty(),
                stage: PipelineStage::AwaitingAudio,
                robot_ip,
            };
            &&& pipeline_accepts(s, PipelineEventView::AudioReceived(data))
            &&& pipeline_accepts(s, PipelineEventView::ChannelClosed)
        }),
{
}

/// The pipeline never refuses the answer to its own request: after any
/// step, every event that answers the action it asked for is taken, whatever
/// its contents; a new message only needs the message count to have room.
/// So messages keep being taken until the channel closes.
pub proof fn lemma_answers_are_accepted(
    s: PipelineState,
    e: PipelineEventView,
    reply: PipelineEventView,
)
    requires
        pipeline_wf(s),
        pipeline_accepts(s, e),
        pipeline_answers(pipeline_step(s, e).1, reply),
        reply is AudioReceived ==> pipeline_step(s, e).0.message_count < u64::MAX,
    ensures
        pipeline_accepts(pipeline_step(s, e).0, reply),
        pipeline_wf(pipeline_step(s, e).0),
{
}

/// A pipeline waiting for audio takes every message while its count has
/// room, whether or not WebRTC is set up, and takes the channel's closing.
pub proof fn lemma_waiting_takes_every_message(s: PipelineState, data: Seq<u8>)
    requires
        s.stage == PipelineStage::AwaitingAudio,
        s.message_count < u64::MAX,
    ensures
        pipeline_accepts(s, PipelineEventView::AudioReceived(data)),
        pipeline_accepts(s, PipelineEventView::ChannelClosed),
{
}

} // verus!
