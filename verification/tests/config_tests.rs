use webrtc_audio_streamer::config::AUDIO_CHANNEL_CAPACITY;
use webrtc_audio_streamer::{is_local_robot, load_configuration};

#[test]
fn defaults_when_nothing_is_set() {
    let config = load_configuration(None, None);
    assert_eq!(config.robot_ip, "127.0.0.1");
    assert_eq!(config.websocket_addr, "0.0.0.0:8080");
}

#[test]
fn given_settings_are_kept() {
    let config = load_configuration(
        Some("192.168.123.161".to_string()),
        Some("0.0.0.0:9090".to_string()),
    );
    assert_eq!(config.robot_ip, "192.168.123.161");
    assert_eq!(config.websocket_addr, "0.0.0.0:9090");
}

#[test]
fn each_setting_defaults_on_its_own() {
    let config = load_configuration(None, Some("0.0.0.0:9090".to_string()));
    assert_eq!(config.robot_ip, "127.0.0.1");
    assert_eq!(config.websocket_addr, "0.0.0.0:9090");
    let config = load_configuration(Some("10.0.0.2".to_string()), None);
    assert_eq!(config.robot_ip, "10.0.0.2");
    assert_eq!(config.websocket_addr, "0.0.0.0:8080");
}

#[test]
fn local_robot_is_only_the_loopback_address() {
    assert!(is_local_robot(&"127.0.0.1".to_string()));
    assert!(!is_local_robot(&"192.168.123.161".to_string()));
    assert!(!is_local_robot(&"127.0.0.10".to_string()));
    assert!(!is_local_robot(&"".to_string()));
}

#[test]
fn audio_channel_holds_one_hundred_messages() {
    assert_eq!(AUDIO_CHANNEL_CAPACITY, 100);
}
