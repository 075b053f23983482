//! The tethered program.
use campc::engine::{Effect, DEVICE_CHECK_INTERVAL, SPAWN_FAIL_DELAY};
use campc::reader::{preview_every, frame_bytes};
use campc::tether::config::{Config, Zoom};
use campc::tether::engine::{
    set_status, AppState, Engine, EngineCmd, Event, Request, Status, Turn, RESPAWN_DELAY,
};
use campc::tether::ffmpeg::{
    build_vf_filter, plan_ffmpeg, yuv420p_to_preview_rgb, PREVIEW_FRAME_BYTES, PREVIEW_H, PREVIEW_W,
};

fn zoom(factor: f32) -> Zoom {
    Zoom {
        bits: factor.to_bits(),
        text: factor.to_string(),
    }
}

fn sized(resolution: &str) -> Config {
    Config {
        resolution: resolution.to_string(),
        ..Config::default()
    }
}

fn tether_step(engine: &mut Engine, event: Event, now: i64) -> Turn {
    assert!(event.answers(engine.awaiting));
    engine.step(event, now)
}

fn tethered() -> Engine {
    let mut e = Engine::new(Config::default(), 0);
    tether_step(&mut e, Event::Command(Some(EngineCmd::Start)), 0);
    tether_step(&mut e, Event::Command(None), 0);
    tether_step(&mut e, Event::DeviceConnected(true), 0);
    tether_step(&mut e, Event::Forwarded(true), 0);
    tether_step(&mut e, Event::Spawned(Some(9)), 0);
    tether_step(&mut e, Event::Ticked, 0);
    e
}

#[test]
fn the_initial_tethered_configuration() {
    let c = Config::default();
    assert_eq!(c.zoom, zoom(1.0));
    assert_eq!((c.fps, c.rotation, c.adb_port, c.preview_fps), (30, 0, 5000, 15));
    assert_eq!(c.resolution, "720p");
    assert_eq!(c.v4l2_device, "/dev/video10");
    assert_eq!(c.clone(), c);
    assert_eq!(Config::load(None), c);
    assert_eq!(Config::load(Some(sized("480p"))), sized("480p"));
}

#[test]
fn sizes_by_name() {
    assert_eq!(sized("1080p").resolution_dims(), (1920, 1080));
    assert_eq!(sized("720p").resolution_dims(), (1280, 720));
    assert_eq!(sized("480p").resolution_dims(), (854, 480));
    assert_eq!(sized("4k").resolution_dims(), (1280, 720));
}

#[test]
fn what_counts_as_a_zoom() {
    assert!(!zoom(1.0).zooms());
    assert!(!zoom(1.001).zooms());
    assert!(zoom(1.0011).zooms());
    assert!(zoom(4.0).zooms());
    assert!(!zoom(0.5).zooms());
    assert!(!zoom(-2.0).zooms());
    assert!(zoom(f32::INFINITY).zooms());
    assert!(!zoom(f32::NAN).zooms());
    for factor in [0.0f32, 0.9, 1.0, 1.0005, 1.001, 1.0010001, 1.5, 3.75, -1.5] {
        assert_eq!(zoom(factor).zooms(), factor > 1.001);
    }
}

#[test]
fn the_chain_zooms_turns_and_scales() {
    assert_eq!(build_vf_filter(&Config::default()), "scale=1280:720");
    let c = Config {
        zoom: zoom(2.0),
        rotation: 180,
        ..sized("1080p")
    };
    assert_eq!(
        build_vf_filter(&c),
        "crop=iw/2:ih/2:(iw-iw/2)/2:(ih-ih/2)/2,hflip,vflip,scale=1920:1080"
    );
    let c = Config {
        zoom: zoom(1.5),
        ..Config::default()
    };
    assert_eq!(
        build_vf_filter(&c),
        "crop=iw/1.5:ih/1.5:(iw-iw/1.5)/2:(ih-ih/1.5)/2,scale=1280:720"
    );
}

#[test]
fn ffmpeg_reads_the_forwarded_port() {
    let plan = plan_ffmpeg(&sized("480p"));
    let args: Vec<&str> = plan.args.iter().map(|a| a.as_str()).collect();
    assert_eq!(
        args,
        vec![
            "-hide_banner",
            "-fflags",
            "nobuffer",
            "-flags",
            "low_delay",
            "-f",
            "mpjpeg",
            "-i",
            "tcp://localhost:5000",
            "-vf",
            "scale=854:480",
            "-f",
            "rawvideo",
            "-pix_fmt",
            "yuv420p",
            "-r",
            "30",
            "pipe:1",
        ]
    );
    assert_eq!(plan.device, "/dev/video10");
    assert_eq!((plan.out_w, plan.out_h), (854, 480));
    // Every frame is previewed.
    assert_eq!(preview_every(plan.fps, plan.preview_fps), 1);
}

#[test]
fn every_size_gives_a_small_preview() {
    assert_eq!((PREVIEW_W * PREVIEW_H * 3) as usize, PREVIEW_FRAME_BYTES);
    for name in ["480p", "720p", "1080p"] {
        let (w, h) = sized(name).resolution_dims();
        let mut frame = vec![200u8; (w * h) as usize];
        frame.resize(frame_bytes(w, h), 128);
        let rgb = yuv420p_to_preview_rgb(&frame, w, h);
        assert_eq!(rgb.len(), PREVIEW_FRAME_BYTES);
        assert!(rgb.iter().all(|b| *b == 200));
    }
}

#[test]
fn a_tethered_stream_comes_up() {
    let mut e = Engine::new(Config::default(), 0);
    assert_eq!(
        tether_step(&mut e, Event::Command(Some(EngineCmd::Start)), 0),
        Turn {
            effects: vec![Effect::SetStatus(Status::WaitingDevice)],
            next: Request::Command,
        }
    );
    assert_eq!(
        tether_step(&mut e, Event::Command(None), 0),
        Turn { effects: vec![], next: Request::DeviceConnected }
    );
    assert_eq!(
        tether_step(&mut e, Event::DeviceConnected(true), 0),
        Turn { effects: vec![], next: Request::Forward(5000) }
    );
    assert_eq!(
        tether_step(&mut e, Event::Forwarded(true), 0),
        Turn {
            effects: vec![Effect::SetStatus(Status::Connecting)],
            next: Request::Spawn,
        }
    );
    assert_eq!(
        tether_step(&mut e, Event::Spawned(Some(9)), 0),
        Turn {
            effects: vec![Effect::SetStatus(Status::Streaming)],
            next: Request::Tick,
        }
    );
}

#[test]
fn a_tethered_stream_is_stopped() {
    let mut e = tethered();
    assert_eq!(
        tether_step(&mut e, Event::Command(Some(EngineCmd::Stop)), 1).effects,
        vec![
            Effect::KillFfmpeg,
            Effect::RemoveForward(5000),
            Effect::SetStatus(Status::Idle),
        ]
    );
    // A second stop finds nothing in reach.
    assert_eq!(
        tether_step(&mut e, Event::Command(Some(EngineCmd::Stop)), 1).effects,
        vec![Effect::KillFfmpeg, Effect::SetStatus(Status::Idle)]
    );
    assert_eq!(tether_step(&mut e, Event::Command(None), 1).next, Request::Tick);
}

#[test]
fn a_tethered_phone_is_lost() {
    let mut e = tethered();
    tether_step(&mut e, Event::Command(None), DEVICE_CHECK_INTERVAL);
    assert_eq!(
        tether_step(&mut e, Event::DeviceConnected(false), DEVICE_CHECK_INTERVAL),
        Turn {
            effects: vec![
                Effect::KillFfmpeg,
                Effect::RemoveForward(5000),
                Effect::SetStatus(Status::WaitingDevice),
            ],
            next: Request::Tick,
        }
    );
}

#[test]
fn errors_of_a_tethered_stream() {
    let mut e = Engine::new(Config::default(), 0);
    tether_step(&mut e, Event::Command(Some(EngineCmd::Start)), 0);
    tether_step(&mut e, Event::Command(None), 0);
    tether_step(&mut e, Event::DeviceConnected(true), 0);
    assert_eq!(
        tether_step(&mut e, Event::Forwarded(false), 0).effects,
        vec![Effect::SetStatus(Status::Error("ADB forward falló".to_string()))]
    );

    let mut e = tethered();
    tether_step(&mut e, Event::Command(None), 1);
    assert_eq!(
        tether_step(&mut e, Event::FfmpegExited(true), 1),
        Turn {
            effects: vec![
                Effect::KillFfmpeg,
                Effect::SetStatus(Status::Connecting),
                Effect::Sleep(RESPAWN_DELAY),
                Effect::SetStatus(Status::Connecting),
            ],
            next: Request::Spawn,
        }
    );
    assert_eq!(RESPAWN_DELAY, 2000);
    assert_eq!(
        tether_step(&mut e, Event::Spawned(None), 1).effects,
        vec![
            Effect::SetStatus(Status::Error("No se pudo iniciar FFmpeg".to_string())),
            Effect::Sleep(SPAWN_FAIL_DELAY),
        ]
    );
    tether_step(&mut e, Event::Ticked, 2);
    assert_eq!(tether_step(&mut e, Event::Command(None), 2).next, Request::Spawn);
}

#[test]
fn a_tethered_configuration_changes() {
    let mut e = tethered();
    let update = |c: Config| Event::Command(Some(EngineCmd::UpdateConfig(c)));
    assert_eq!(
        tether_step(&mut e, update(sized("1080p")), 1).effects,
        vec![Effect::KillFfmpeg, Effect::SetStatus(Status::Connecting)]
    );
    assert_eq!(tether_step(&mut e, Event::Command(None), 1).next, Request::Spawn);

    let mut e = tethered();
    let other_port = Config {
        adb_port: 6000,
        ..Config::default()
    };
    assert_eq!(
        tether_step(&mut e, update(other_port), 1).effects,
        vec![
            Effect::KillFfmpeg,
            Effect::SetStatus(Status::Connecting),
            Effect::RemoveForward(5000),
        ]
    );
    assert_eq!(tether_step(&mut e, Event::Command(None), 1).next, Request::DeviceConnected);
    assert_eq!(
        tether_step(&mut e, Event::DeviceConnected(true), 1).next,
        Request::Forward(6000)
    );
}

#[test]
fn what_the_tethered_window_reads() {
    let mut state = AppState { status: Status::Idle };
    set_status(&mut state, Status::Streaming);
    assert_eq!(state.status, Status::Streaming);
}
