//! The frames between the frame reader, which writes them, and the Media Foundation pipeline,
//! which asks for samples.
//!
//! A frame goes out at once where a request waits for it; else it is kept, the newest in place of
//! the one before, until a request comes.
use std::collections::VecDeque;

use vstd::prelude::*;
use vstd::slice::*;

verus! {

/// Frames per second of the virtual camera: so many per `OUTPUT_FPS_D` seconds.
pub const OUTPUT_FPS_N: u32 = 30;

pub const OUTPUT_FPS_D: u32 = 1;

/// Units of Media Foundation's clock in a second.
pub const HNS_PER_SEC: i64 = 10_000_000;

/// Units of Media Foundation's clock that one sample lasts.
pub const SAMPLE_DURATION: i64 = 333_333;

/// A frame to be handed to the pipeline, and when it is due.
#[derive(PartialEq, Debug)]
pub struct Delivery {
    pub data: Vec<u8>,
    pub sample_time: i64,
}

pub struct DeliveryView {
    pub data: Seq<u8>,
    pub sample_time: int,
}

impl View for Delivery {
    type V = DeliveryView;

    open spec fn view(&self) -> DeliveryView {
        DeliveryView { data: self.data@, sample_time: self.sample_time as int }
    }
}

/// What became of a frame.
#[derive(PartialEq, Debug)]
pub enum FrameWrite {
    /// The virtual camera is gone.
    Gone,
    /// A request waited for it.
    Deliver(Delivery),
    /// It is kept until a request comes.
    Kept,
}

pub enum FrameWriteView {
    Gone,
    Deliver(DeliveryView),
    Kept,
}

impl View for FrameWrite {
    type V = FrameWriteView;

    open spec fn view(&self) -> FrameWriteView {
        match self {
            FrameWrite::Gone => FrameWriteView::Gone,
            FrameWrite::Deliver(d) => FrameWriteView::Deliver(d@),
            FrameWrite::Kept => FrameWriteView::Kept,
        }
    }
}

impl FrameWrite {
    /// Whether the virtual camera still takes frames.
    pub fn accepted(&self) -> (r: bool)
        ensures
            r == !(self@ is Gone),
    {
        match self {
            FrameWrite::Gone => false,
            _ => true,
        }
    }
}

/// What became of a request for a sample.
#[derive(PartialEq, Debug)]
pub enum SampleRequest {
    /// The virtual camera is shut down.
    Shutdown,
    /// A frame was kept for it.
    Deliver(Delivery),
    /// A frame was kept, but there is no event queue to hand it over by: it is lost.
    Lost,
    /// It waits for the next frame.
    Queued,
}

pub enum SampleRequestView {
    Shutdown,
    Deliver(DeliveryView),
    Lost,
    Queued,
}

impl View for SampleRequest {
    type V = SampleRequestView;

    open spec fn view(&self) -> SampleRequestView {
        match self {
            SampleRequest::Shutdown => SampleRequestView::Shutdown,
            SampleRequest::Deliver(d) => SampleRequestView::Deliver(d@),
            SampleRequest::Lost => SampleRequestView::Lost,
            SampleRequest::Queued => SampleRequestView::Queued,
        }
    }
}

#[derive(Debug)]
pub struct SharedInner {
    /// The frame that is kept.
    pub latest_frame: Option<Vec<u8>>,
    /// The tokens of the requests that wait, the oldest first.
    pub pending_tokens: VecDeque<Option<u64>>,
    /// Whether there is an event queue to hand samples over by.
    pub has_event_queue: bool,
    pub stream_started: bool,
    /// When the next sample is due.
    pub sample_time: i64,
}

/// What the frame reader and the pipeline share.
#[derive(Debug)]
pub struct StreamShared {
    pub inner: SharedInner,
    /// Whether the virtual camera is in use.
    pub running: bool,
    pub width: u32,
    pub height: u32,
}

#[verifier::ext_equal]
pub struct SharedView {
    pub latest_frame: Option<Seq<u8>>,
    pub pending_tokens: Seq<Option<u64>>,
    pub has_event_queue: bool,
    pub stream_started: bool,
    pub sample_time: int,
    pub running: bool,
    pub width: u32,
    pub height: u32,
}

impl View for StreamShared {
    type V = SharedView;

    open spec fn view(&self) -> SharedView {
        SharedView {
            latest_frame: match self.inner.latest_frame {
                Some(frame) => Some(frame@),
                None => None,
            },
            pending_tokens: self.inner.pending_tokens@,
            has_event_queue: self.inner.has_event_queue,
            stream_started: self.inner.stream_started,
            sample_time: self.inner.sample_time as int,
            running: self.running,
            width: self.width,
            height: self.height,
        }
    }
}

impl SharedView {
    pub open spec fn initial(width: u32, height: u32, has_event_queue: bool) -> SharedView {
        SharedView {
            latest_frame: None,
            pending_tokens: Seq::empty(),
            has_event_queue,
            stream_started: false,
            sample_time: 0,
            running: true,
            width,
            height,
        }
    }

    /// What becomes of a frame, and what is shared afterwards.
    pub open spec fn write(self, frame: Seq<u8>) -> (SharedView, FrameWriteView) {
        if !self.running {
            (self, FrameWriteView::Gone)
        } else if self.pending_tokens.len() == 0 {
            (SharedView { latest_frame: Some(frame), ..self }, FrameWriteView::Kept)
        } else {
            let served = SharedView {
                pending_tokens: self.pending_tokens.drop_first(),
                sample_time: self.sample_time + SAMPLE_DURATION,
                ..self
            };
            if self.has_event_queue {
                (
                    served,
                    FrameWriteView::Deliver(
                        DeliveryView { data: frame, sample_time: self.sample_time },
                    ),
                )
            } else {
                (SharedView { latest_frame: Some(frame), ..served }, FrameWriteView::Kept)
            }
        }
    }

    /// What becomes of a request, and what is shared afterwards.
    pub open spec fn request(self, token: Option<u64>) -> (SharedView, SampleRequestView) {
        if !self.running {
            (self, SampleRequestView::Shutdown)
        } else {
            match self.latest_frame {
                None => (
                    SharedView { pending_tokens: self.pending_tokens.push(token), ..self },
                    SampleRequestView::Queued,
                ),
                Some(frame) => (
                    SharedView {
                        latest_frame: None,
                        sample_time: self.sample_time + SAMPLE_DURATION,
                        ..self
                    },
                    if self.has_event_queue {
                        SampleRequestView::Deliver(
                            DeliveryView { data: frame, sample_time: self.sample_time },
                        )
                    } else {
                        SampleRequestView::Lost
                    },
                ),
            }
        }
    }
}

impl StreamShared {
    /// Nothing is shared yet. `has_event_queue` says whether the stream's event queue was made
    /// beforehand or comes with the start of the stream.
    pub fn new(width: u32, height: u32, has_event_queue: bool) -> (r: StreamShared)
        ensures
            r@ == SharedView::initial(width, height, has_event_queue),
    {
        StreamShared {
            inner: SharedInner {
                latest_frame: None,
                pending_tokens: VecDeque::new(),
                has_event_queue,
                stream_started: false,
                sample_time: 0,
            },
            running: true,
            width,
            height,
        }
    }

    /// The pipeline starts the stream; from now on there is an event queue.
    pub fn start(&mut self)
        ensures
            final(self)@ == (SharedView {
                has_event_queue: true,
                stream_started: true,
                ..old(self)@
            }),
    {
        self.inner.has_event_queue = true;
        self.inner.stream_started = true;
    }

    /// The virtual camera is no longer in use.
    pub fn shutdown(&mut self)
        ensures
            final(self)@ == (SharedView { running: false, ..old(self)@ }),
    {
        self.running = false;
    }

    /// Takes one NV12 frame from the frame reader.
    pub fn write_frame(&mut self, nv12: &[u8]) -> (r: FrameWrite)
        requires
            old(self)@.running && old(self)@.pending_tokens.len() > 0 ==> old(self)@.sample_time
                + SAMPLE_DURATION <= i64::MAX,
        ensures
            (final(self)@, r@) == old(self)@.write(nv12@),
    {
        if !self.running {
            return FrameWrite::Gone;
        }
        let ghost before = self@;
        let frame = slice_to_vec(nv12);
        if let Some(_token) = self.inner.pending_tokens.pop_front() {
            let sample_time: i64 = self.inner.sample_time;
            self.inner.sample_time = sample_time + SAMPLE_DURATION;
            assert(self.inner.pending_tokens@ =~= before.pending_tokens.drop_first());
            if self.inner.has_event_queue {
                return FrameWrite::Deliver(Delivery { data: frame, sample_time });
            }
        }
        self.inner.latest_frame = Some(frame);
        FrameWrite::Kept
    }

    /// Takes a request for a sample from the pipeline.
    pub fn request_sample(&mut self, token: Option<u64>) -> (r: SampleRequest)
        requires
            old(self)@.running && old(self)@.latest_frame is Some ==> old(self)@.sample_time
                + SAMPLE_DURATION <= i64::MAX,
        ensures
            (final(self)@, r@) == old(self)@.request(token),
    {
        if !self.running {
            return SampleRequest::Shutdown;
        }
        match self.inner.latest_frame.take() {
            Some(data) => {
                let sample_time: i64 = self.inner.sample_time;
                self.inner.sample_time = sample_time + SAMPLE_DURATION;
                if self.inner.has_event_queue {
                    SampleRequest::Deliver(Delivery { data, sample_time })
                } else {
                    SampleRequest::Lost
                }
            },
            None => {
                self.inner.pending_tokens.push_back(token);
                SampleRequest::Queued
            },
        }
    }
}

// ── What the pipeline can rely on ────────────────────────────────────────────
/// Something that happens to a stream in use.
pub enum StreamOp {
    Write(Seq<u8>),
    Request(Option<u64>),
}

/// A stream together with what went through it.
pub struct History {
    pub shared: SharedView,
    /// The samples that were handed over, the first one first.
    pub delivered: Seq<DeliveryView>,
    /// How many requests came.
    pub requests: nat,
}

impl History {
    pub open spec fn initial(width: u32, height: u32) -> History {
        History {
            shared: SharedView::initial(width, height, true),
            delivered: Seq::empty(),
            requests: 0,
        }
    }

    pub open spec fn after(self, op: StreamOp) -> History {
        match op {
            StreamOp::Write(frame) => {
                let (shared, outcome) = self.shared.write(frame);
                History {
                    shared,
                    delivered: match outcome {
                        FrameWriteView::Deliver(d) => self.delivered.push(d),
                        _ => self.delivered,
                    },
                    ..self
                }
            },
            StreamOp::Request(token) => {
                let (shared, outcome) = self.shared.request(token);
                History {
                    shared,
                    delivered: match outcome {
                        SampleRequestView::Deliver(d) => self.delivered.push(d),
                        _ => self.delivered,
                    },
                    requests: self.requests + 1,
                }
            },
        }
    }

    /// After the first `n` of `ops`.
    pub open spec fn after_first(self, ops: Seq<StreamOp>, n: nat) -> History
        decreases n,
    {
        if n == 0 {
            self
        } else {
            self.after_first(ops, (n - 1) as nat).after(ops[n - 1])
        }
    }
}

/// Every request gets one sample, and no sample comes without a request: those that got none yet
/// are the ones that wait. No frame is kept while a request waits. The samples are one sample's
/// length apart, the first one at zero.
pub proof fn samples_answer_requests_one_by_one(
    width: u32,
    height: u32,
    ops: Seq<StreamOp>,
    n: nat,
)
    requires
        n <= ops.len(),
    ensures
        ({
            let now = History::initial(width, height).after_first(ops, n);
            &&& now.shared.running && now.shared.has_event_queue
            &&& now.requests == now.delivered.len() + now.shared.pending_tokens.len()
            &&& now.shared.latest_frame is Some ==> now.shared.pending_tokens.len() == 0
            &&& now.shared.sample_time == now.delivered.len() * SAMPLE_DURATION
            &&& forall|k: int|
                0 <= k < now.delivered.len() ==> (#[trigger] now.delivered[k]).sample_time == k
                    * SAMPLE_DURATION
        }),
    decreases n,
{
    if n > 0 {
        samples_answer_requests_one_by_one(width, height, ops, (n - 1) as nat);
    }
}

/// A request gets the newest frame: those that were written before it and not asked for are
/// dropped. The next request gets nothing and waits.
pub proof fn the_newest_frame_is_delivered(
    shared: SharedView,
    older: Seq<u8>,
    newer: Seq<u8>,
    token: Option<u64>,
    next_token: Option<u64>,
)
    requires
        shared.running,
        shared.has_event_queue,
        shared.pending_tokens.len() == 0,
    ensures
        ({
            let (first, first_write) = shared.write(older);
            let (second, second_write) = first.write(newer);
            let (served, answer) = second.request(token);
            let (waiting, next_answer) = served.request(next_token);
            &&& first_write is Kept
            &&& second_write is Kept
            &&& answer == SampleRequestView::Deliver(
                DeliveryView { data: newer, sample_time: shared.sample_time },
            )
            &&& served == (SharedView {
                latest_frame: None,
                sample_time: shared.sample_time + SAMPLE_DURATION,
                ..shared
            })
            &&& next_answer is Queued
            &&& waiting == (SharedView { pending_tokens: seq![next_token], ..served })
        }),
{
    assert(shared.pending_tokens.push(next_token) =~= seq![next_token]);
}

/// A camera takes a frame exactly while it runs, and neither frames nor requests change whether it
/// does.
pub proof fn a_frame_is_taken_while_the_camera_runs(
    shared: SharedView,
    frame: Seq<u8>,
    token: Option<u64>,
)
    ensures
        shared.write(frame).1 is Gone <==> !shared.running,
        shared.request(token).1 is Shutdown <==> !shared.running,
        shared.write(frame).0.running == shared.running,
        shared.request(token).0.running == shared.running,
{
}

/// A camera that was shut down takes no frame and answers no request, however many come, and nothing
/// changes in it.
pub proof fn a_camera_shut_down_stays_so(
    history: History,
    ops: Seq<StreamOp>,
    n: nat,
    frame: Seq<u8>,
    token: Option<u64>,
)
    requires
        n <= ops.len(),
        !history.shared.running,
    ensures
        ({
            let now = history.after_first(ops, n);
            &&& now.shared == history.shared
            &&& now.delivered == history.delivered
            &&& now.shared.write(frame) == (history.shared, FrameWriteView::Gone)
            &&& now.shared.request(token) == (history.shared, SampleRequestView::Shutdown)
        }),
    decreases n,
{
    if n > 0 {
        a_camera_shut_down_stays_so(history, ops, (n - 1) as nat, frame, token);
    }
}

/// A sample lasts as long as the frame rate says.
pub proof fn a_sample_lasts_one_frame()
    ensures
        SAMPLE_DURATION as int == HNS_PER_SEC as int * OUTPUT_FPS_D as int / OUTPUT_FPS_N as int,
{
}

/// A frame goes to the request that waits longest, at once and as it is; where none waits it is kept
/// in place of the one before. Without an event queue the waiting request is used up and the frame is
/// kept all the same.
pub proof fn a_waiting_request_gets_the_next_frame(shared: SharedView, frame: Seq<u8>)
    requires
        shared.running,
    ensures
        ({
            let (after, outcome) = shared.write(frame);
            &&& shared.pending_tokens.len() == 0 ==> outcome is Kept && after == (SharedView {
                latest_frame: Some(frame),
                ..shared
            })
            &&& shared.pending_tokens.len() > 0 ==> {
                &&& after.pending_tokens == shared.pending_tokens.skip(1)
                &&& after.sample_time == shared.sample_time + 333_333
                &&& shared.has_event_queue ==> outcome == FrameWriteView::Deliver(
                    DeliveryView { data: frame, sample_time: shared.sample_time },
                ) && after.latest_frame == shared.latest_frame
                &&& !shared.has_event_queue ==> outcome is Kept && after.latest_frame == Some(
                    frame,
                )
            }
            &&& after.has_event_queue == shared.has_event_queue
            &&& after.stream_started == shared.stream_started
            &&& after.width == shared.width && after.height == shared.height
        }),
{
    assert(shared.pending_tokens.len() > 0 ==> shared.pending_tokens.drop_first()
        =~= shared.pending_tokens.skip(1));
}

/// A request gets the frame that is kept, which is then gone; where none is kept it waits behind the
/// others. Without an event queue the frame is lost.
pub proof fn a_request_takes_the_frame_that_is_kept(shared: SharedView, token: Option<u64>)
    requires
        shared.running,
    ensures
        ({
            let (after, outcome) = shared.request(token);
            &&& shared.latest_frame is None ==> outcome is Queued && after == (SharedView {
                pending_tokens: shared.pending_tokens.push(token),
                ..shared
            })
            &&& shared.latest_frame is Some ==> {
                &&& after == (SharedView {
                    latest_frame: None,
                    sample_time: shared.sample_time + 333_333,
                    ..shared
                })
                &&& shared.has_event_queue ==> outcome == SampleRequestView::Deliver(
                    DeliveryView {
                        data: shared.latest_frame->0,
                        sample_time: shared.sample_time,
                    },
                )
                &&& !shared.has_event_queue ==> outcome is Lost
            }
        }),
{
}

/// A stream begins with nothing kept, nobody waiting and the clock at zero.
pub proof fn a_stream_begins_empty(width: u32, height: u32, has_event_queue: bool)
    ensures
        ({
            let shared = SharedView::initial(width, height, has_event_queue);
            &&& shared.latest_frame is None
            &&& shared.pending_tokens.len() == 0
            &&& shared.sample_time == 0
            &&& shared.running && !shared.stream_started
            &&& shared.has_event_queue == has_event_queue
            &&& shared.width == width && shared.height == height
        }),
{
}

/// The views of what is shared and delivered hold all of it as it is.
pub proof fn views_keep_what_is_shared(
    shared: StreamShared,
    delivery: Delivery,
    write: FrameWrite,
    request: SampleRequest,
)
    ensures
        shared.inner.latest_frame matches Some(frame) ==> shared@.latest_frame == Some(frame@),
        shared.inner.latest_frame is None ==> shared@.latest_frame is None,
        shared@.pending_tokens == shared.inner.pending_tokens@,
        shared@.has_event_queue == shared.inner.has_event_queue,
        shared@.stream_started == shared.inner.stream_started,
        shared@.sample_time == shared.inner.sample_time,
        shared@.running == shared.running,
        shared@.width == shared.width,
        shared@.height == shared.height,
        delivery@.data == delivery.data@,
        delivery@.sample_time == delivery.sample_time,
        write@ is Gone <==> write is Gone,
        write@ is Kept <==> write is Kept,
        write matches FrameWrite::Deliver(d) ==> write@ == FrameWriteView::Deliver(d@),
        request@ is Shutdown <==> request is Shutdown,
        request@ is Lost <==> request is Lost,
        request@ is Queued <==> request is Queued,
        request matches SampleRequest::Deliver(d) ==> request@ == SampleRequestView::Deliver(d@),
{
}

} // verus!
