use vstd::prelude::*;

verus! {

/// Address of the robot's WebRTC service when none is configured: the
/// service runs on the robot itself.
pub open spec fn default_robot_ip() -> Seq<char> {
    "127.0.0.1"@
}

/// Address the WebSocket server binds to when none is configured.
pub open spec fn default_websocket_addr() -> Seq<char> {
    "0.0.0.0:8080"@
}

/// Capacity of the channel that carries raw audio from the WebSocket server
/// to the streaming pipeline.
pub const AUDIO_CHANNEL_CAPACITY: usize = 100;

/// The service's configuration.
pub struct Config {
    /// Address of the robot's WebRTC service.
    pub robot_ip: String,
    /// Address the WebSocket server listens on.
    pub websocket_addr: String,
}

/// The value of a setting: the one given, or else the default.
pub open spec fn setting_or(given: Option<String>, default: Seq<char>) -> Seq<char> {
    match given {
        Some(s) => s@,
        None => default,
    }
}

/// Builds the configuration from the values of the `ROBOT_IP` and
/// `WEBSOCKET_ADDR` settings, where they are set; a setting that is absent
/// takes its default.
pub fn load_configuration(robot_ip: Option<String>, websocket_addr: Option<String>) -> (config:
    Config)
    ensures
        config.robot_ip@ == setting_or(robot_ip, default_robot_ip()),
        config.websocket_addr@ == setting_or(websocket_addr, default_websocket_addr()),
{
    let robot_ip = match robot_ip {
        Some(s) => s,
        None => "127.0.0.1".to_owned(),
    };
    let websocket_addr = match websocket_addr {
        Some(s) => s,
        None => "0.0.0.0:8080".to_owned(),
    };
    Config { robot_ip, websocket_addr }
}

/// Whether the configured robot address is the local host, that is whether
/// the service runs on the robot itself.
pub fn is_local_robot(robot_ip: &String) -> (local: bool)
    ensures
        local == (robot_ip@ == default_robot_ip()),
{
    let localhost = "127.0.0.1".to_owned();
    *robot_ip == localhost
}

} // verus!
