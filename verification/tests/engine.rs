//! The engine's rounds.
use campc::config::{Config, ConnectionMode};
use campc::discovery::{DiscoveredDevice, BEACON_TIMEOUT};
use campc::engine::{
    force_immediate_check, resolve_wifi_ip, set_discovered_ip, set_status, store_pid, AppState,
    Effect, Engine, EngineCmd, Event, Request, Status, Turn, DEVICE_CHECK_INTERVAL,
    FORCE_CHECK_WINDOW, RESPAWN_DELAY, SPAWN_FAIL_DELAY,
};

fn usb() -> Config {
    Config {
        connection_mode: ConnectionMode::Usb,
        ..Config::default()
    }
}

fn phone(last_seen: i64) -> Option<DiscoveredDevice> {
    Some(DiscoveredDevice {
        ip: "192.168.1.7".to_string(),
        last_seen,
    })
}

fn step(engine: &mut Engine, event: Event, now: i64) -> Turn {
    assert!(event.answers(&engine.awaiting));
    engine.step(event, now)
}

fn command(engine: &mut Engine, command: EngineCmd, now: i64) -> Vec<Effect> {
    let turn = step(engine, Event::Command(Some(command)), now);
    assert_eq!(turn.next, Request::Command);
    turn.effects
}

/// An engine that streams over USB, at the end of a round at time 0.
fn streaming_over_usb() -> Engine {
    let mut e = Engine::new(usb(), 0);
    command(&mut e, EngineCmd::Start, 0);
    step(&mut e, Event::Command(None), 0);
    step(&mut e, Event::DeviceConnected(true), 0);
    step(&mut e, Event::Forwarded(true), 0);
    step(&mut e, Event::Spawned(Some(77)), 0);
    step(&mut e, Event::Ticked, 0);
    e
}

/// An engine that streams over WiFi, at the end of a round at time 0.
fn streaming_over_wifi() -> Engine {
    let mut e = Engine::new(Config::default(), 0);
    command(&mut e, EngineCmd::Start, 0);
    step(&mut e, Event::Command(None), 0);
    step(&mut e, Event::Beacon(phone(0)), 0);
    step(&mut e, Event::Spawned(Some(77)), 0);
    step(&mut e, Event::Ticked, 0);
    e
}

#[test]
fn the_words_for_a_status() {
    assert_eq!(Status::Idle.words(), "Detenido");
    assert_eq!(Status::WaitingDevice.words(), "Esperando dispositivo…");
    assert_eq!(Status::Connecting.words(), "Conectando…");
    assert_eq!(Status::Streaming.words(), "● Transmitiendo");
    assert_eq!(Status::Error("nada".to_string()).words(), "Error: nada");
    assert_eq!(Status::Error("x".to_string()).clone(), Status::Error("x".to_string()));
}

#[test]
fn what_the_window_reads() {
    let mut state = AppState::new();
    assert_eq!(state.status, Status::Idle);
    assert_eq!(state.discovered_ip, None);
    set_status(&mut state, Status::Streaming);
    set_discovered_ip(&mut state, Some("10.0.0.2".to_string()));
    assert_eq!(state.status, Status::Streaming);
    assert_eq!(state.discovered_ip, Some("10.0.0.2".to_string()));
    let mut pid = None;
    store_pid(&mut pid, Some(5));
    assert_eq!(pid, Some(5));
    let mut last = 0;
    force_immediate_check(&mut last, 7);
    assert_eq!(last, 7 - FORCE_CHECK_WINDOW);
}

#[test]
fn an_idle_round_does_nothing() {
    let mut e = Engine::new(Config::default(), 0);
    let turn = step(&mut e, Event::Command(None), 0);
    assert_eq!(turn, Turn { effects: vec![], next: Request::Tick });
    let turn = step(&mut e, Event::Ticked, 0);
    assert_eq!(turn, Turn { effects: vec![], next: Request::Command });
}

#[test]
fn a_stream_over_usb_comes_up() {
    let mut e = Engine::new(usb(), 0);
    assert_eq!(
        command(&mut e, EngineCmd::Start, 0),
        vec![Effect::SetStatus(Status::WaitingDevice)]
    );
    let turn = step(&mut e, Event::Command(None), 0);
    assert_eq!(turn, Turn { effects: vec![], next: Request::DeviceConnected });
    let turn = step(&mut e, Event::DeviceConnected(true), 0);
    assert_eq!(turn, Turn { effects: vec![], next: Request::Forward(5000) });
    let turn = step(&mut e, Event::Forwarded(true), 0);
    assert_eq!(
        turn,
        Turn {
            effects: vec![Effect::SetStatus(Status::Connecting)],
            next: Request::Spawn("localhost".to_string(), 5000),
        }
    );
    let turn = step(&mut e, Event::Spawned(Some(77)), 0);
    assert_eq!(
        turn,
        Turn {
            effects: vec![Effect::StorePid(Some(77)), Effect::SetStatus(Status::Streaming)],
            next: Request::Tick,
        }
    );
}

#[test]
fn a_stream_over_wifi_comes_up() {
    let mut e = Engine::new(Config::default(), 0);
    command(&mut e, EngineCmd::Start, 0);
    assert_eq!(step(&mut e, Event::Command(None), 0).next, Request::Beacon);
    let turn = step(&mut e, Event::Beacon(phone(0)), 0);
    assert_eq!(
        turn,
        Turn {
            effects: vec![
                Effect::SetDiscoveredIp(Some("192.168.1.7".to_string())),
                Effect::SetStatus(Status::Connecting),
            ],
            next: Request::Spawn("192.168.1.7".to_string(), 5000),
        }
    );
    assert_eq!(e.stream_host(), "192.168.1.7");
}

#[test]
fn without_a_phone_the_engine_waits() {
    let mut e = Engine::new(usb(), 0);
    command(&mut e, EngineCmd::Start, 0);
    step(&mut e, Event::Command(None), 0);
    let turn = step(&mut e, Event::DeviceConnected(false), 0);
    assert_eq!(
        turn,
        Turn {
            effects: vec![Effect::SetStatus(Status::WaitingDevice)],
            next: Request::Tick,
        }
    );
}

#[test]
fn a_port_that_cannot_be_forwarded_is_an_error() {
    let mut e = Engine::new(usb(), 0);
    command(&mut e, EngineCmd::Start, 0);
    step(&mut e, Event::Command(None), 0);
    step(&mut e, Event::DeviceConnected(true), 0);
    let turn = step(&mut e, Event::Forwarded(false), 0);
    assert_eq!(
        turn,
        Turn {
            effects: vec![Effect::SetStatus(Status::Error("ADB forward falló".to_string()))],
            next: Request::Tick,
        }
    );
}

#[test]
fn stopping_cleans_up() {
    let mut e = streaming_over_usb();
    assert_eq!(
        command(&mut e, EngineCmd::Stop, 1),
        vec![
            Effect::KillFfmpeg,
            Effect::StorePid(None),
            Effect::RemoveForward(5000),
            Effect::SetStatus(Status::Idle),
            Effect::SetDiscoveredIp(None),
        ]
    );
    assert!(!e.active);
    // Over WiFi no port was forwarded.
    let mut e = streaming_over_wifi();
    assert!(!command(&mut e, EngineCmd::Stop, 1).contains(&Effect::RemoveForward(5000)));
}

#[test]
fn looks_for_the_phone_keep_their_distance() {
    let mut e = streaming_over_usb();
    assert_eq!(
        step(&mut e, Event::Command(None), DEVICE_CHECK_INTERVAL - 1).next,
        Request::FfmpegExited
    );
    step(&mut e, Event::FfmpegExited(false), DEVICE_CHECK_INTERVAL - 1);
    step(&mut e, Event::Ticked, DEVICE_CHECK_INTERVAL - 1);
    assert_eq!(
        step(&mut e, Event::Command(None), DEVICE_CHECK_INTERVAL).next,
        Request::DeviceConnected
    );
}

#[test]
fn a_phone_unplugged_ends_the_stream() {
    let mut e = streaming_over_usb();
    step(&mut e, Event::Command(None), DEVICE_CHECK_INTERVAL);
    let turn = step(&mut e, Event::DeviceConnected(false), DEVICE_CHECK_INTERVAL);
    assert_eq!(
        turn,
        Turn {
            effects: vec![
                Effect::KillFfmpeg,
                Effect::StorePid(None),
                Effect::RemoveForward(5000),
                Effect::SetStatus(Status::WaitingDevice),
            ],
            next: Request::Tick,
        }
    );
}

#[test]
fn a_phone_gone_silent_ends_the_stream() {
    let mut e = streaming_over_wifi();
    step(&mut e, Event::Command(None), BEACON_TIMEOUT);
    let turn = step(&mut e, Event::Beacon(phone(0)), BEACON_TIMEOUT);
    assert_eq!(
        turn,
        Turn {
            effects: vec![
                Effect::SetDiscoveredIp(None),
                Effect::KillFfmpeg,
                Effect::StorePid(None),
                Effect::SetStatus(Status::WaitingDevice),
            ],
            next: Request::Tick,
        }
    );
    assert_eq!(e.stream_host(), "");
}

#[test]
fn an_ended_ffmpeg_is_followed_by_another() {
    let mut e = streaming_over_usb();
    step(&mut e, Event::Command(None), 1);
    let turn = step(&mut e, Event::FfmpegExited(true), 1);
    assert_eq!(
        turn,
        Turn {
            effects: vec![
                Effect::KillFfmpeg,
                Effect::StorePid(None),
                Effect::SetStatus(Status::Connecting),
                Effect::Sleep(RESPAWN_DELAY),
                Effect::SetStatus(Status::Connecting),
            ],
            next: Request::Spawn("localhost".to_string(), 5000),
        }
    );
}

#[test]
fn an_ffmpeg_that_does_not_start_is_an_error_and_tried_again() {
    let mut e = streaming_over_usb();
    step(&mut e, Event::Command(None), 1);
    step(&mut e, Event::FfmpegExited(true), 1);
    let turn = step(&mut e, Event::Spawned(None), 1);
    assert_eq!(
        turn.effects,
        vec![
            Effect::StorePid(None),
            Effect::SetStatus(Status::Error("No se pudo iniciar FFmpeg".to_string())),
            Effect::Sleep(SPAWN_FAIL_DELAY),
        ]
    );
    step(&mut e, Event::Ticked, 2);
    assert_eq!(
        step(&mut e, Event::Command(None), 2).next,
        Request::Spawn("localhost".to_string(), 5000)
    );
}

#[test]
fn a_new_configuration_restarts_ffmpeg() {
    let mut e = streaming_over_usb();
    let new = Config { fps: 24, ..usb() };
    assert_eq!(
        command(&mut e, EngineCmd::UpdateConfig(new.clone()), 1),
        vec![
            Effect::KillFfmpeg,
            Effect::StorePid(None),
            Effect::SetStatus(Status::Connecting),
        ]
    );
    assert_eq!(e.config, new);
    assert_eq!(
        step(&mut e, Event::Command(None), 1).next,
        Request::Spawn("localhost".to_string(), 5000)
    );
}

#[test]
fn a_new_port_gives_the_old_forward_up() {
    let mut e = streaming_over_usb();
    let new = Config { adb_port: 6000, ..usb() };
    assert_eq!(
        command(&mut e, EngineCmd::UpdateConfig(new), 1),
        vec![
            Effect::KillFfmpeg,
            Effect::StorePid(None),
            Effect::SetStatus(Status::Connecting),
            Effect::RemoveForward(5000),
        ]
    );
    assert_eq!(step(&mut e, Event::Command(None), 1).next, Request::DeviceConnected);
    assert_eq!(
        step(&mut e, Event::DeviceConnected(true), 1).next,
        Request::Forward(6000)
    );
}

#[test]
fn over_usb_no_address_is_shown() {
    let mut e = streaming_over_wifi();
    let effects = command(&mut e, EngineCmd::UpdateConfig(usb()), 1);
    assert_eq!(effects.last(), Some(&Effect::SetDiscoveredIp(None)));
    assert!(!e.stream.device_ready);
}

#[test]
fn an_entered_address_is_preferred() {
    let manual = Config {
        wifi_ip: "10.0.0.9".to_string(),
        ..Config::default()
    };
    assert_eq!(resolve_wifi_ip(&manual, &phone(0), 0), Some("10.0.0.9".to_string()));
    assert_eq!(resolve_wifi_ip(&manual, &None, 0), Some("10.0.0.9".to_string()));
    let auto = Config::default();
    assert_eq!(resolve_wifi_ip(&auto, &phone(0), 0), Some("192.168.1.7".to_string()));
    assert_eq!(resolve_wifi_ip(&auto, &phone(0), BEACON_TIMEOUT), None);
    assert_eq!(resolve_wifi_ip(&auto, &None, 0), None);
}

#[test]
fn events_answer_their_own_request_only() {
    assert!(Event::Forwarded(true).answers(&Request::Forward(1)));
    assert!(!Event::Forwarded(true).answers(&Request::DeviceConnected));
    assert!(Event::Beacon(None).answers(&Request::Beacon));
    assert!(!Event::Ticked.answers(&Request::Command));
}

#[test]
fn the_earliest_times_are_fine_where_no_check_is_forced() {
    let mut e = Engine::new(Config::default(), 0);
    assert_eq!(step(&mut e, Event::Command(None), i64::MIN).next, Request::Tick);
    step(&mut e, Event::Ticked, i64::MIN);
    command(&mut e, EngineCmd::UpdateConfig(Config::default()), i64::MIN);
    command(&mut e, EngineCmd::Stop, i64::MIN);
}
