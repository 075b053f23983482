//! The texts that other programs are called with, and the answers that are read.
use campc::adb;
use campc::config::Config;
use campc::ffmpeg;
use campc::text;
use campc::windows;

fn words(parts: &[&str]) -> Vec<String> {
    parts.iter().map(|p| p.to_string()).collect()
}

#[test]
fn numbers_are_written_in_decimal() {
    assert_eq!(text::dec_string(0), "0");
    assert_eq!(text::dec_string(10), "10");
    assert_eq!(text::dec_string(65535), "65535");
    assert_eq!(text::dec_string(u64::MAX), "18446744073709551615");
    let mut s = String::from("port ");
    text::push_dec(&mut s, 5000);
    assert_eq!(s, "port 5000");
}

#[test]
fn joining_puts_the_separator_between() {
    assert_eq!(text::join(&vec![], ","), "");
    assert_eq!(text::join(&words(&["a"]), ","), "a");
    assert_eq!(text::join(&words(&["a", "b", "c"]), ", "), "a, b, c");
    assert_eq!(text::strings(&["x", ""]), words(&["x", ""]));
}

#[test]
fn ascii_is_found_where_it_stands() {
    assert!(text::ascii_at(b"a device", 2, "device"));
    assert!(!text::ascii_at(b"a device", 1, "device"));
}

#[test]
fn a_ready_device_is_seen() {
    assert!(adb::device_connected(
        b"List of devices attached\nR58M123456\tdevice\n\n"
    ));
    assert!(adb::device_connected(
        b"List of devices attached\r\nR58M123456\tdevice\r\n\r\n"
    ));
    assert!(adb::device_connected(b"List of devices attached\nemulator-5554\tdevice"));
    assert!(adb::device_connected(
        b"List of devices attached\nA\toffline\nB\tdevice\n"
    ));
}

#[test]
fn devices_that_are_not_ready_do_not_count() {
    assert!(!adb::device_connected(b""));
    assert!(!adb::device_connected(b"List of devices attached\n\n"));
    assert!(!adb::device_connected(
        b"List of devices attached\nR58M123456\tunauthorized\n"
    ));
    assert!(!adb::device_connected(b"List of devices attached\nR58M123456\toffline\n"));
    // The first line is the heading, whatever it says.
    assert!(!adb::device_connected(b"device\n"));
    // A carriage return that no line feed follows belongs to the line.
    assert!(!adb::device_connected(b"List of devices attached\nA\tdevice\r"));
}

#[test]
fn bytes_that_are_no_text_do_no_harm() {
    assert!(adb::device_connected(b"heading\xff\n\xfe\xfd\tdevice\n"));
}

#[test]
fn ports_are_forwarded_one_to_one() {
    assert_eq!(adb::forward(5000), words(&["forward", "tcp:5000", "tcp:5000"]));
    assert_eq!(adb::remove_forward(5000), words(&["forward", "--remove", "tcp:5000"]));
}

#[test]
fn windows_clears_a_stale_forward_first() {
    assert_eq!(
        windows::adb::forward(6001),
        vec![
            words(&["forward", "--remove", "tcp:6001"]),
            words(&["forward", "tcp:6001", "tcp:6001"]),
        ]
    );
    // There may have been nothing to clear.
    assert!(windows::adb::forward_outcome(false, true));
    assert!(windows::adb::forward_outcome(true, true));
    assert!(!windows::adb::forward_outcome(true, false));
    assert!(!windows::adb::forward_outcome(false, false));
    assert!(windows::adb::device_connected(b"h\nx\tdevice\n"));
    assert_eq!(
        windows::adb::remove_forward(6001),
        words(&["forward", "--remove", "tcp:6001"])
    );
}

fn turned(rotation: u32) -> Config {
    Config {
        rotation,
        ..Config::default()
    }
}

const REST: &str = "crop=iw:iw*1080/1920:0:(ih-iw*1080/1920)/2,\
                    scale=1920:1080:in_range=full:out_range=limited,setsar=1";

#[test]
fn the_picture_is_turned_cropped_and_scaled() {
    assert_eq!(ffmpeg::build_vf_filter(&turned(0)), REST);
    assert_eq!(ffmpeg::build_vf_filter(&turned(90)), format!("transpose=1,{REST}"));
    assert_eq!(ffmpeg::build_vf_filter(&turned(180)), format!("hflip,vflip,{REST}"));
    assert_eq!(ffmpeg::build_vf_filter(&turned(270)), format!("transpose=2,{REST}"));
    assert_eq!(ffmpeg::build_vf_filter(&turned(45)), REST);
}

#[test]
fn ffmpeg_is_run_on_the_stream() {
    let plan = ffmpeg::plan_ffmpeg(&Config::default(), "192.168.1.7", 5000);
    assert_eq!(
        plan.args,
        words(&[
            "-hide_banner",
            "-fflags",
            "nobuffer",
            "-flags",
            "low_delay",
            "-probesize",
            "32",
            "-analyzeduration",
            "0",
            "-thread_queue_size",
            "512",
            "-f",
            "mpjpeg",
            "-i",
            "tcp://192.168.1.7:5000",
            "-vf",
            REST,
            "-f",
            "rawvideo",
            "-pix_fmt",
            "yuv420p",
            "-r",
            "30",
            "pipe:1",
        ])
    );
    assert_eq!(plan.device, "/dev/video10");
    assert_eq!((plan.out_w, plan.out_h), (1920, 1080));
    assert_eq!((plan.fps, plan.preview_fps), (30, 15));
}

#[test]
fn zoom_does_not_change_how_ffmpeg_is_run() {
    let plain = Config::default();
    let zoomed = Config {
        zoom_bits: 2.5f32.to_bits(),
        ..Config::default()
    };
    assert_eq!(
        ffmpeg::plan_ffmpeg(&plain, "localhost", 5000),
        ffmpeg::plan_ffmpeg(&zoomed, "localhost", 5000)
    );
}

#[test]
fn windows_declares_full_range_and_asks_for_less() {
    let cfg = turned(90);
    let vf = windows::ffmpeg::build_vf_filter(&cfg);
    assert_eq!(
        vf,
        "setrange=full,transpose=1,crop=iw:iw*720/1280:0:(ih-iw*720/1280)/2,\
         scale=1280:720:in_range=full:out_range=limited,setsar=1"
    );
    let plan = windows::ffmpeg::plan_ffmpeg(&cfg, "localhost", 5000);
    assert_eq!(plan.args[10], "64");
    assert_eq!(plan.args[14], "tcp://localhost:5000");
    assert_eq!(plan.args[16], vf);
    assert_eq!((plan.out_w, plan.out_h), (1280, 720));
}

#[test]
fn windows_can_tag_the_frames_anew() {
    let cfg = Config::default();
    assert_eq!(
        windows::filter::build_vf_filter(&cfg),
        "setrange=full,format=yuv420p,crop=iw:iw*720/1280:0:(ih-iw*720/1280)/2,\
         scale=1280:720:in_range=full:out_range=limited,setsar=1"
    );
    let plan = windows::filter::plan_ffmpeg(&cfg, "10.0.0.2", 5000);
    assert_eq!(plan.args[16], windows::filter::build_vf_filter(&cfg));
}

#[test]
fn processes_are_ended_by_number() {
    assert_eq!(ffmpeg::kill_pid(4242), words(&["4242"]));
    assert_eq!(windows::ffmpeg::kill_pid(4242), words(&["/F", "/PID", "4242"]));
}
