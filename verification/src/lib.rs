//! Decision logic of a service that receives audio over a WebSocket and
//! streams it to a robot through a WebRTC audio track.
//!
//! The library holds what the service decides and computes: its
//! configuration (`config`), the framing of PCM audio into fixed-size
//! samples (`frames`), the per-message state machine of the streaming
//! pipeline (`pipeline`), the audio player and its track (`player`) and the
//! state machine of the playback task that paces frames onto the track
//! (`playback`). Sockets, awaiting, timers and printing are left to the
//! program that drives these machines.

pub mod config;
pub mod frames;
mod media_api;
pub mod pipeline;
pub mod playback;
pub mod player;

pub use config::{is_local_robot, load_configuration, Config};
pub use player::WebRTCAudioPlayer;
