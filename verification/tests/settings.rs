//! The configuration, and the phone's announcements.
use campc::config::{Config, ConnectionMode, ZOOM_ONE_BITS};
use campc::discovery::{hear, DiscoveredDevice, BEACON_PORT, BEACON_TIMEOUT};

#[test]
fn the_initial_configuration() {
    let c = Config::default();
    assert_eq!(c.fps, 30);
    assert_eq!(c.rotation, 0);
    assert_eq!(c.v4l2_device, "/dev/video10");
    assert_eq!(c.adb_port, 5000);
    assert_eq!(c.preview_fps, 15);
    assert_eq!(c.connection_mode, ConnectionMode::Wifi);
    assert_eq!(c.wifi_ip, "");
    assert_eq!(f32::from_bits(c.zoom_bits), 1.0);
    assert_eq!(ZOOM_ONE_BITS, 1.0f32.to_bits());
    assert_eq!(ConnectionMode::default(), ConnectionMode::Wifi);
    assert_eq!(c.clone(), c);
}

#[test]
fn a_stored_configuration_is_taken() {
    let stored = Config {
        fps: 24,
        ..Config::default()
    };
    assert_eq!(Config::load(Some(stored.clone())), stored);
    assert_eq!(Config::load(None), Config::default());
}

#[test]
fn the_file_lies_in_the_home_directory() {
    let at = |home: &str| Config::config_path(Some(home.to_string()));
    assert_eq!(at("/home/ana"), "/home/ana/.config/campc/config.toml");
    assert_eq!(at("/home/ana/"), "/home/ana/.config/campc/config.toml");
    assert_eq!(at(""), ".config/campc/config.toml");
    assert_eq!(Config::config_path(None), "./.config/campc/config.toml");
}

#[test]
fn an_announcement_is_noted() {
    let mut known: Option<DiscoveredDevice> = None;
    hear(&mut known, b"CAMPC_HELLO", "192.168.1.7".to_string(), 17);
    assert_eq!(
        known,
        Some(DiscoveredDevice {
            ip: "192.168.1.7".to_string(),
            last_seen: 17
        })
    );
    hear(&mut known, b"CAMPC_HELLO", "192.168.1.8".to_string(), 18);
    assert_eq!(known.unwrap().ip, "192.168.1.8");
    assert_eq!(BEACON_PORT, 5001);
}

#[test]
fn other_datagrams_change_nothing() {
    let mut known: Option<DiscoveredDevice> = None;
    for packet in [&b"CAMPC_HELL"[..], b"CAMPC_HELLO!", b"campc_hello", b""] {
        hear(&mut known, packet, "192.168.1.7".to_string(), 1);
    }
    assert_eq!(known, None);
}

#[test]
fn an_announcement_counts_for_a_while() {
    let d = DiscoveredDevice {
        ip: "192.168.1.7".to_string(),
        last_seen: 1_000,
    };
    assert!(d.is_fresh(1_000));
    assert!(d.is_fresh(1_000 + BEACON_TIMEOUT - 1));
    assert!(!d.is_fresh(1_000 + BEACON_TIMEOUT));
    // Far apart times do not wrap around.
    let old = DiscoveredDevice {
        ip: String::new(),
        last_seen: i64::MIN,
    };
    assert!(!old.is_fresh(i64::MAX));
    assert_eq!(BEACON_TIMEOUT, 5_000_000_000);
}
