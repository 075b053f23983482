//! The loopback camera and the frame reader.
use campc::reader::{
    frame_bytes, preview_every, FrameReader, Offer, ReaderEvent, ReaderRequest,
};
use campc::v4l2::{
    format_payload, format_payload_in, fourcc, iowr, order_of, vidioc_s_fmt, write_u32, write_u32_in,
    FormatStep, V4L2_BUF_TYPE_VIDEO_CAPTURE, V4L2_BUF_TYPE_VIDEO_OUTPUT, V4L2_PIX_FMT_YUV420,
};

#[test]
fn codes_of_formats_and_requests() {
    assert_eq!(fourcc(b'Y', b'U', b'1', b'2'), V4L2_PIX_FMT_YUV420);
    assert_eq!(V4L2_PIX_FMT_YUV420, u32::from_le_bytes(*b"YU12"));
    assert_eq!(iowr(0x56, 5, 208), 0xc0d0_5605);
    assert_eq!(vidioc_s_fmt(), 0xc0d0_5605);
    assert_eq!(iowr(0, 0, 0), 0xc000_0000);
}

#[test]
fn numbers_are_written_as_the_machine_has_them() {
    let mut buf = vec![9u8; 8];
    write_u32(&mut buf, 2, 0x0102_0304);
    assert_eq!(&buf[2..6], &0x0102_0304u32.to_ne_bytes());
    assert_eq!(u32::from_ne_bytes([buf[2], buf[3], buf[4], buf[5]]), 0x0102_0304);
    assert_eq!((buf[0], buf[1], buf[6], buf[7]), (9, 9, 9, 9));
}

#[test]
fn the_format_of_full_hd() {
    let fmt = format_payload(1920, 1080);
    let at = |i: usize| u32::from_ne_bytes([fmt[i], fmt[i + 1], fmt[i + 2], fmt[i + 3]]);
    assert_eq!(fmt.len(), 200);
    assert_eq!(
        [at(0), at(4), at(8), at(12), at(16), at(20)],
        [1920, 1080, V4L2_PIX_FMT_YUV420, 1, 1920, 3_110_400]
    );
    assert!(fmt[24..].iter().all(|b| *b == 0));
}

#[test]
fn numbers_are_written_in_a_given_order() {
    let mut buf = vec![9u8; 6];
    write_u32_in(&mut buf, 1, 0x0102_0304, true);
    assert_eq!(buf, vec![9, 4, 3, 2, 1, 9]);
    write_u32_in(&mut buf, 1, 0x0102_0304, false);
    assert_eq!(buf, vec![9, 1, 2, 3, 4, 9]);
    assert!(order_of([1, 0, 0, 0]));
    assert!(!order_of([0, 0, 0, 1]));
}

#[test]
fn a_payload_is_in_one_order() {
    let little = format_payload_in(640, 360, true);
    let big = format_payload_in(640, 360, false);
    for word in 0..6 {
        let at = word * 4..word * 4 + 4;
        let mut reversed: Vec<u8> = big[at.clone()].to_vec();
        reversed.reverse();
        assert_eq!(&little[at], &reversed[..]);
    }
    assert_eq!(&little[..8], &[0x80, 2, 0, 0, 0x68, 1, 0, 0]);
    assert_eq!(&little[8..12], b"YU12");
    assert_eq!(&little[20..24], &345_600u32.to_le_bytes());
    assert_eq!(
        format_payload(640, 360),
        format_payload_in(640, 360, order_of(1u32.to_ne_bytes()))
    );
}

#[test]
fn output_is_tried_before_capture() {
    assert_eq!(FormatStep::first(), FormatStep::Try(V4L2_BUF_TYPE_VIDEO_OUTPUT));
    assert_eq!(
        FormatStep::after(V4L2_BUF_TYPE_VIDEO_OUTPUT, 0),
        FormatStep::Configured(V4L2_BUF_TYPE_VIDEO_OUTPUT)
    );
    assert_eq!(
        FormatStep::after(V4L2_BUF_TYPE_VIDEO_OUTPUT, -1),
        FormatStep::Try(V4L2_BUF_TYPE_VIDEO_CAPTURE)
    );
    assert_eq!(
        FormatStep::after(V4L2_BUF_TYPE_VIDEO_CAPTURE, 0),
        FormatStep::Configured(V4L2_BUF_TYPE_VIDEO_CAPTURE)
    );
    assert_eq!(FormatStep::after(V4L2_BUF_TYPE_VIDEO_CAPTURE, -1), FormatStep::Failed);
}

#[test]
fn sizes_of_frames() {
    assert_eq!(frame_bytes(1920, 1080), 3_110_400);
    assert_eq!(frame_bytes(854, 480), 614_880);
    assert_eq!(frame_bytes(0, 7), 0);
}

#[test]
fn previews_are_a_share_of_the_frames() {
    assert_eq!(preview_every(30, 15), 2);
    assert_eq!(preview_every(30, 30), 1);
    assert_eq!(preview_every(30, 60), 1);
    assert_eq!(preview_every(30, 20), 1);
    assert_eq!(preview_every(30, 7), 4);
    assert_eq!(preview_every(30, 0), 30);
    assert_eq!(preview_every(0, 0), 1);
}

/// Plays the outside of a reader: reads `frames` frames, writes each of them with the outcome that
/// `writes` gives, opens with success, and always takes the preview. Returns what was asked for.
fn play(mut reader: FrameReader, frames: usize, writes: fn(usize) -> bool) -> Vec<ReaderRequest> {
    let mut asked = vec![];
    let mut read = 0;
    let mut written = 0;
    loop {
        let request = reader.awaiting;
        asked.push(request);
        let event = match request {
            ReaderRequest::Read => {
                read += 1;
                ReaderEvent::Read(read <= frames)
            }
            ReaderRequest::Write => {
                written += 1;
                ReaderEvent::Written(writes(written))
            }
            ReaderRequest::Open => ReaderEvent::Opened(true),
            ReaderRequest::Preview => ReaderEvent::Offered(Offer::Sent),
            ReaderRequest::Stop => return asked,
        };
        assert!(event.answers(request));
        reader.step(event);
    }
}

#[test]
fn an_open_camera_gets_all_frames_and_the_window_every_second() {
    let asked = play(FrameReader::new(30, 15, true), 4, |_| true);
    let count = |r: ReaderRequest| asked.iter().filter(|a| **a == r).count();
    assert_eq!(count(ReaderRequest::Read), 5);
    assert_eq!(count(ReaderRequest::Write), 4);
    assert_eq!(count(ReaderRequest::Preview), 2);
    assert_eq!(count(ReaderRequest::Open), 0);
    assert_eq!(asked.last(), Some(&ReaderRequest::Stop));
}

#[test]
fn neither_the_throttle_nor_a_slow_window_costs_the_camera_a_frame() {
    for preview_fps in [0, 1, 15, 30, 60] {
        let mut reader = FrameReader::new(30, preview_fps, true);
        let mut frame = 0;
        let mut written = vec![];
        while reader.awaiting != ReaderRequest::Stop {
            let event = match reader.awaiting {
                ReaderRequest::Read if frame == 100 => ReaderEvent::Read(false),
                ReaderRequest::Read => {
                    frame += 1;
                    ReaderEvent::Read(true)
                }
                ReaderRequest::Write => {
                    written.push(frame);
                    ReaderEvent::Written(true)
                }
                ReaderRequest::Preview => ReaderEvent::Offered(Offer::Full),
                _ => unreachable!(),
            };
            reader.step(event);
        }
        assert_eq!(written, (1..=100).collect::<Vec<i32>>());
    }
}

#[test]
fn a_camera_that_fails_is_opened_anew() {
    let asked = play(FrameReader::new(30, 30, true), 2, |n| n != 1);
    assert_eq!(
        asked,
        vec![
            ReaderRequest::Read,
            ReaderRequest::Write,
            ReaderRequest::Open,
            ReaderRequest::Preview,
            ReaderRequest::Read,
            ReaderRequest::Write,
            ReaderRequest::Preview,
            ReaderRequest::Read,
            ReaderRequest::Stop,
        ]
    );
}

#[test]
fn without_a_camera_there_is_still_a_preview() {
    let asked = play(FrameReader::new(30, 30, false), 1, |_| true);
    assert_eq!(
        asked,
        vec![
            ReaderRequest::Read,
            ReaderRequest::Preview,
            ReaderRequest::Read,
            ReaderRequest::Stop,
        ]
    );
}

#[test]
fn a_window_that_is_gone_ends_the_reader() {
    let mut reader = FrameReader::new(30, 30, false);
    reader.step(ReaderEvent::Read(true));
    assert_eq!(reader.awaiting, ReaderRequest::Preview);
    reader.step(ReaderEvent::Offered(Offer::Disconnected));
    assert_eq!(reader.awaiting, ReaderRequest::Stop);
}

#[test]
fn a_slow_window_loses_previews_only() {
    let mut reader = FrameReader::new(30, 30, false);
    reader.step(ReaderEvent::Read(true));
    reader.step(ReaderEvent::Offered(Offer::Full));
    assert_eq!(reader.awaiting, ReaderRequest::Read);
    assert!(!ReaderEvent::Read(true).answers(ReaderRequest::Stop));
    assert!(!ReaderEvent::Read(true).answers(ReaderRequest::Write));
}

#[test]
fn a_full_count_still_lets_the_reader_end() {
    let mut reader = FrameReader::new(30, 30, true);
    reader.frame_count = usize::MAX;
    reader.step(ReaderEvent::Read(true));
    assert_eq!(reader.awaiting, ReaderRequest::Write);
    reader.step(ReaderEvent::Written(false));
    assert_eq!(reader.awaiting, ReaderRequest::Open);
    let mut reader = FrameReader::new(30, 30, true);
    reader.frame_count = usize::MAX;
    assert_eq!(reader.step(ReaderEvent::Read(false)), ReaderRequest::Stop);
}
