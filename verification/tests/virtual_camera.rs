//! The virtual camera on Windows.
use campc::windows::camera::{
    create_instance, query_interface, stream_attributes, ActiveSource, ClassicQuery, DropStep,
    Instance, Layout, VirtualCamHandle, E_INVALIDARG,
};
use campc::windows::sample::{
    build_nv12_media_type, fill_buffer, pack, sample_duration, NV12_FOURCC,
};
use campc::windows::setup::{
    camera_name, source_id, Route, Setup, SetupEvent, SetupStep, TeardownStep,
};
use campc::windows::stream::{Delivery, FrameWrite, SampleRequest, StreamShared, SAMPLE_DURATION};

fn sample(data: &[u8], n: i64) -> Delivery {
    Delivery {
        data: data.to_vec(),
        sample_time: n * SAMPLE_DURATION,
    }
}

#[test]
fn a_frame_waits_for_a_request() {
    let mut s = StreamShared::new(1280, 720, true);
    assert_eq!(s.write_frame(&[1]), FrameWrite::Kept);
    // A newer frame takes its place.
    assert_eq!(s.write_frame(&[2]), FrameWrite::Kept);
    assert_eq!(s.request_sample(None), SampleRequest::Deliver(sample(&[2], 0)));
    assert_eq!(s.request_sample(Some(7)), SampleRequest::Queued);
}

#[test]
fn a_request_waits_for_a_frame() {
    let mut s = StreamShared::new(1280, 720, true);
    assert_eq!(s.request_sample(Some(1)), SampleRequest::Queued);
    assert_eq!(s.request_sample(Some(2)), SampleRequest::Queued);
    assert_eq!(s.write_frame(&[1]), FrameWrite::Deliver(sample(&[1], 0)));
    assert_eq!(s.write_frame(&[2]), FrameWrite::Deliver(sample(&[2], 1)));
    assert_eq!(s.write_frame(&[3]), FrameWrite::Kept);
    assert_eq!(s.request_sample(None), SampleRequest::Deliver(sample(&[3], 2)));
}

#[test]
fn without_an_event_queue_nothing_is_delivered() {
    let mut s = StreamShared::new(1280, 720, false);
    assert_eq!(s.request_sample(None), SampleRequest::Queued);
    assert_eq!(s.write_frame(&[1]), FrameWrite::Kept);
    assert_eq!(s.request_sample(None), SampleRequest::Lost);
    s.start();
    assert!(s.inner.stream_started);
    s.write_frame(&[2]);
    assert_eq!(s.request_sample(None), SampleRequest::Deliver(sample(&[2], 2)));
}

#[test]
fn a_camera_shut_down_takes_nothing() {
    let mut s = StreamShared::new(1280, 720, true);
    s.shutdown();
    let outcome = s.write_frame(&[1]);
    assert_eq!(outcome, FrameWrite::Gone);
    assert!(!outcome.accepted());
    assert!(FrameWrite::Kept.accepted());
    assert_eq!(s.request_sample(None), SampleRequest::Shutdown);
}

#[test]
fn attributes_of_the_media_type() {
    assert_eq!(pack(1, 2), 0x1_0000_0002);
    let t = build_nv12_media_type(1280, 720, Route::Negotiated);
    assert_eq!(t.frame_size, (1280u64 << 32) | 720);
    assert_eq!(t.frame_rate, (30u64 << 32) | 1);
    assert_eq!(t.frame_rate_max, Some(t.frame_rate));
    assert_eq!(t.frame_rate_min, Some(t.frame_rate));
    let plain = build_nv12_media_type(1280, 720, Route::Direct);
    assert_eq!((plain.frame_rate_max, plain.frame_rate_min), (None, None));
    assert_eq!((plain.frame_size, plain.frame_rate), (t.frame_size, t.frame_rate));
    assert_eq!(t.pixel_aspect_ratio, (1u64 << 32) | 1);
    assert_eq!(t.all_samples_independent, 1);
    assert_eq!(NV12_FOURCC, u32::from_le_bytes(*b"NV12"));
    assert_eq!(sample_duration(), 333_333);
}

#[test]
fn rows_are_spread_by_the_pitch() {
    // Two by two, four bytes per row.
    let mut dst = vec![9u8; 12];
    assert_eq!(fill_buffer(&mut dst, &[1, 2, 3, 4, 5, 6], 2, 2, 4), 6);
    assert_eq!(dst, vec![1, 2, 9, 9, 3, 4, 9, 9, 5, 6, 9, 9]);
}

#[test]
fn rows_without_a_gap_are_copied_at_once() {
    let mut dst = vec![9u8; 7];
    assert_eq!(fill_buffer(&mut dst, &[1, 2, 3, 4, 5, 6], 2, 2, 2), 6);
    assert_eq!(dst, vec![1, 2, 3, 4, 5, 6, 9]);
}

#[test]
fn methods_have_their_slots() {
    let plain = Layout::Plain.method_slots();
    assert_eq!((plain.add_media_source, plain.start, plain.remove), (Some(3), 4, 6));
    let classic = Layout::Classic.method_slots();
    assert_eq!(
        (classic.add_property, classic.add_media_source, classic.start, classic.remove),
        (Some(4), Some(7), 8, 10)
    );
    let attributes = Layout::Attributes.method_slots();
    assert_eq!(
        (attributes.add_property, attributes.add_media_source, attributes.start, attributes.remove),
        (Some(34), None, 36, 38)
    );
}

#[test]
fn how_a_camera_is_reached_and_dropped() {
    assert!(query_interface(0, false));
    assert!(!query_interface(0, true));
    assert!(!query_interface(-1, false));
    let separate = VirtualCamHandle::new(ClassicQuery::Separate);
    assert!(separate.supports_add_media_source());
    assert_eq!(
        separate.drop_steps(false, false),
        vec![DropStep::Remove, DropStep::ReleaseClassic, DropStep::ReleaseCamera]
    );
    let same = VirtualCamHandle::new(ClassicQuery::Same);
    assert_eq!(same.drop_steps(false, false), vec![DropStep::Remove, DropStep::ReleaseCamera]);
    let failed = VirtualCamHandle::new(ClassicQuery::Failed);
    assert_eq!(failed.layout, Layout::Attributes);
    assert!(!failed.supports_add_media_source());
    assert_eq!(failed.drop_steps(true, true), vec![]);
}

#[test]
fn answers_of_the_source_and_its_factory() {
    assert_eq!(create_instance(0), Instance::Source);
    assert_eq!(create_instance(-2147467262), Instance::Activate);
    assert_eq!(stream_attributes(0), Ok(()));
    assert_eq!(stream_attributes(1), Err(E_INVALIDARG));
    assert_eq!(E_INVALIDARG, 0x8007_0057u32 as i32);
    let mut active = ActiveSource::new();
    assert!(active.activate_object());
    assert!(!active.activate_object());
    active.shutdown_object();
    assert!(active.activate_object());
}

fn run_setup(events: &[SetupEvent]) -> Setup {
    let mut setup = Setup::new(Route::Negotiated);
    for event in events {
        assert!(setup.expects(*event));
        setup.advance(*event);
    }
    setup
}

#[test]
fn a_camera_that_takes_a_source_is_set_up() {
    let mut events = vec![SetupEvent::Done; 9];
    events.extend([SetupEvent::Created(true), SetupEvent::Done, SetupEvent::Done]);
    let setup = run_setup(&events);
    assert_eq!(setup.step, SetupStep::Ready);
    assert!(!setup.expects(SetupEvent::Done));
    assert_eq!(
        setup.teardown(),
        vec![TeardownStep::StopRunning, TeardownStep::MfShutdown]
    );
}

#[test]
fn a_camera_that_takes_no_source_needs_a_factory() {
    let mut events = vec![SetupEvent::Done; 9];
    events.extend([
        SetupEvent::Created(false),
        SetupEvent::Registered(42),
        SetupEvent::Done,
    ]);
    let setup = run_setup(&events);
    assert_eq!(setup.step, SetupStep::Ready);
    assert_eq!(
        setup.teardown(),
        vec![
            TeardownStep::StopRunning,
            TeardownStep::RevokeFactory(42),
            TeardownStep::MfShutdown,
        ]
    );
}

#[test]
fn a_failed_step_ends_the_attempt() {
    let setup = run_setup(&[SetupEvent::Done, SetupEvent::Failed(-5)]);
    assert_eq!(setup.step, SetupStep::Failed(-5));
    assert!(!setup.developer_mode_hint);

    let mut events = vec![SetupEvent::Done; 9];
    events.push(SetupEvent::Failed(E_INVALIDARG));
    let setup = run_setup(&events);
    assert!(setup.developer_mode_hint);
    assert!(!setup.expects(SetupEvent::Failed(-1)));
}

#[test]
fn the_direct_way_up() {
    let mut setup = Setup::new(Route::Direct);
    let mut steps = vec![setup.step];
    while setup.step != SetupStep::Ready {
        // Whatever the camera says, it gets its media source.
        let event = match setup.step {
            SetupStep::Create => SetupEvent::Created(false),
            _ => SetupEvent::Done,
        };
        assert!(setup.expects(event));
        steps.push(setup.advance(event));
    }
    assert_eq!(
        steps,
        vec![
            SetupStep::Startup,
            SetupStep::MediaType,
            SetupStep::StreamDescriptor,
            SetupStep::StreamAttributes,
            SetupStep::CurrentMediaType,
            SetupStep::PresentationDescriptor,
            SetupStep::Source,
            SetupStep::LoadCreate,
            SetupStep::Create,
            SetupStep::AddMediaSource,
            SetupStep::Start,
            SetupStep::Ready,
        ]
    );
    assert_eq!(setup.teardown(), vec![TeardownStep::StopRunning, TeardownStep::MfShutdown]);
}

#[test]
fn the_camera_has_a_name_and_an_identifier() {
    assert_eq!(camera_name(), "AndroidCam");
    assert_eq!(source_id(), "{5B9A4C2D-8E1F-4A3B-9C7D-0F2E1A5B6C4D}");
}

#[test]
fn a_clock_at_its_end_matters_only_where_a_sample_goes_out() {
    let mut s = StreamShared::new(1280, 720, true);
    s.inner.sample_time = i64::MAX;
    assert_eq!(s.write_frame(&[1]), FrameWrite::Kept);
    s.inner.latest_frame = None;
    assert_eq!(s.request_sample(Some(3)), SampleRequest::Queued);
    s.shutdown();
    assert_eq!(s.write_frame(&[1]), FrameWrite::Gone);
    assert_eq!(s.write_frame(&[2]), FrameWrite::Gone);
    assert_eq!(s.request_sample(None), SampleRequest::Shutdown);
    assert_eq!(s.inner.sample_time, i64::MAX);
}
