# webrtc_audio_streamer

A service that receives audio over a WebSocket and streams it to a Unitree Go2
robot on a WebRTC audio track, with its decision logic verified by Verus.

- `src/` — the verified library:
  - `config.rs`: settings and their defaults;
  - `frames.rs`: cutting PCM audio into 20 ms frames of 640 bytes, with the
    proofs that the frames reassemble into the audio and have the stated sizes;
  - `pipeline.rs`: the per-message state machine of the pipeline (lazy WebRTC
    set-up, retry on failure, decoding, hand-off to the player) and its laws;
  - `playback.rs`: the playback guard and the state machine of the playback
    task (frame by frame, paced in real time), and its laws;
  - `player.rs`: the audio player and the Opus configuration of its track;
  - `media_api.rs`: the declarations of and wrappers around `webrtc`, `tokio`
    and `std` items that Verus takes on trust.
- `app/` — the program: reads the environment, runs the tasks, awaits the
  channels, the WebRTC connection and the timers, and prints progress,
  following the actions that the library's state machines decide.
- `tests/` — tests of the library on concrete values.
