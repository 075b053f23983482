//! The frame reader: every frame that FFmpeg writes goes to the virtual camera, every so many go
//! to the window's preview.
//!
//! Like the engine, the reader touches nothing outside: [`FrameReader::step`] takes what the last
//! request brought and says what to do next.
use vstd::prelude::*;

verus! {

/// Bytes of one `w` x `h` yuv420p frame.
pub fn frame_bytes(w: u32, h: u32) -> (r: usize)
    requires
        w * h * 3 <= u32::MAX,
    ensures
        r == w * h * 3 / 2,
{
    (w * h * 3 / 2) as usize
}

/// Every how many frames a preview is shown.
pub open spec fn preview_interval(stream_fps: u32, preview_fps: u32) -> int {
    if preview_fps >= stream_fps {
        1
    } else if preview_fps == 0 {
        stream_fps as int
    } else {
        stream_fps as int / preview_fps as int
    }
}

/// Every how many frames a preview is shown, so that about `preview_fps` of `stream_fps` frames
/// are.
pub fn preview_every(stream_fps: u32, preview_fps: u32) -> (r: usize)
    ensures
        r == preview_interval(stream_fps, preview_fps),
        r >= 1,
{
    proof {
        preview_rate_is_met(stream_fps, preview_fps);
    }
    if preview_fps >= stream_fps {
        1
    } else if preview_fps == 0 {
        stream_fps as usize
    } else {
        (stream_fps / preview_fps) as usize
    }
}

/// The preview is not slower than asked for, as far as the stream is fast enough.
pub proof fn preview_rate_is_met(stream_fps: u32, preview_fps: u32)
    ensures
        preview_interval(stream_fps, preview_fps) >= 1,
        preview_fps <= stream_fps && stream_fps > 0 ==> preview_interval(stream_fps, preview_fps)
            * preview_fps <= stream_fps,
{
    if 0 < preview_fps < stream_fps {
        let (s, p) = (stream_fps as int, preview_fps as int);
        vstd::arithmetic::div_mod::lemma_fundamental_div_mod(s, p);
        vstd::arithmetic::div_mod::lemma_div_non_zero(s, p);
        assert(p * (s / p) == (s / p) * p) by (nonlinear_arith);
    } else if preview_fps == stream_fps {
        assert(1 * preview_fps == preview_fps);
    }
}

/// What became of a preview that was offered to the window.
#[derive(Clone, Copy, PartialEq, Eq, Structural, Debug)]
pub enum Offer {
    Sent,
    /// The window is slow: the preview was dropped.
    Full,
    /// The window is gone.
    Disconnected,
}

/// What the reader waits for.
#[derive(Clone, Copy, PartialEq, Eq, Structural, Debug)]
pub enum ReaderRequest {
    /// Read the next frame.
    Read,
    /// Write the frame to the virtual camera.
    Write,
    /// Open the virtual camera anew.
    Open,
    /// Convert the frame to a preview and offer it to the window.
    Preview,
    /// Nothing: the reader is done.
    Stop,
}

/// What a request brought.
#[derive(Clone, Copy, PartialEq, Eq, Structural, Debug)]
pub enum ReaderEvent {
    /// A frame was read, or FFmpeg wrote no more.
    Read(bool),
    /// The frame was written, or that failed.
    Written(bool),
    /// The virtual camera was opened, or that failed.
    Opened(bool),
    Offered(Offer),
}

impl ReaderEvent {
    /// Whether the event is an answer to this request.
    pub open spec fn is_answer(self, request: ReaderRequest) -> bool {
        match request {
            ReaderRequest::Read => self is Read,
            ReaderRequest::Write => self is Written,
            ReaderRequest::Open => self is Opened,
            ReaderRequest::Preview => self is Offered,
            ReaderRequest::Stop => false,
        }
    }

    /// Whether the event is an answer to this request.
    pub fn answers(&self, request: ReaderRequest) -> (r: bool)
        ensures
            r == self.is_answer(request),
    {
        match (request, self) {
            (ReaderRequest::Read, ReaderEvent::Read(_)) => true,
            (ReaderRequest::Write, ReaderEvent::Written(_)) => true,
            (ReaderRequest::Open, ReaderEvent::Opened(_)) => true,
            (ReaderRequest::Preview, ReaderEvent::Offered(_)) => true,
            _ => false,
        }
    }
}

#[derive(Clone, Copy, PartialEq, Eq, Structural, Debug)]
pub struct FrameReader {
    /// Whether the virtual camera is open.
    pub sink_open: bool,
    /// Every how many frames a preview is shown.
    pub preview_every: usize,
    /// Frames that were read and dealt with.
    pub frame_count: usize,
    /// The request that the next event has to answer.
    pub awaiting: ReaderRequest,
}

impl FrameReader {
    pub open spec fn wf(self) -> bool {
        self.preview_every >= 1
    }

    pub open spec fn waiting_for(self, request: ReaderRequest) -> FrameReader {
        FrameReader { awaiting: request, ..self }
    }

    /// The frame is dealt with; a preview of every `preview_every`th one follows.
    pub open spec fn counted(self) -> FrameReader {
        FrameReader {
            frame_count: (self.frame_count + 1) as usize,
            awaiting: if (self.frame_count as int + 1) % (self.preview_every as int) == 0 {
                ReaderRequest::Preview
            } else {
                ReaderRequest::Read
            },
            ..self
        }
    }

    /// Whether a frame is dealt with when `event` comes: it was written, or there is nowhere to write
    /// it.
    pub open spec fn counts(self, event: ReaderEvent) -> bool {
        match event {
            ReaderEvent::Read(ok) => ok && !self.sink_open,
            ReaderEvent::Written(ok) => ok,
            ReaderEvent::Opened(_) => true,
            ReaderEvent::Offered(_) => false,
        }
    }

    /// What the reader does when `event` comes.
    pub open spec fn after(self, event: ReaderEvent) -> FrameReader {
        match event {
            ReaderEvent::Read(false) => self.waiting_for(ReaderRequest::Stop),
            ReaderEvent::Read(true) => if self.sink_open {
                self.waiting_for(ReaderRequest::Write)
            } else {
                self.counted()
            },
            ReaderEvent::Written(false) => self.waiting_for(ReaderRequest::Open),
            ReaderEvent::Written(true) => self.counted(),
            ReaderEvent::Opened(ok) => FrameReader { sink_open: ok, ..self }.counted(),
            ReaderEvent::Offered(Offer::Disconnected) => self.waiting_for(ReaderRequest::Stop),
            ReaderEvent::Offered(_) => self.waiting_for(ReaderRequest::Read),
        }
    }

    /// A reader of a stream of `stream_fps` frames per second, of which the preview is to show
    /// `preview_fps`. `sink_open` says whether the virtual camera could be opened.
    pub fn new(stream_fps: u32, preview_fps: u32, sink_open: bool) -> (r: FrameReader)
        ensures
            r == (FrameReader {
                sink_open,
                preview_every: preview_interval(stream_fps, preview_fps) as usize,
                frame_count: 0,
                awaiting: ReaderRequest::Read,
            }),
            r.preview_every == preview_interval(stream_fps, preview_fps),
            r.wf(),
    {
        FrameReader {
            sink_open,
            preview_every: preview_every(stream_fps, preview_fps),
            frame_count: 0,
            awaiting: ReaderRequest::Read,
        }
    }

    fn count(&mut self)
        requires
            old(self).wf(),
            old(self).frame_count < usize::MAX,
        ensures
            *final(self) == old(self).counted(),
    {
        self.frame_count = self.frame_count + 1;
        self.awaiting =
        if self.frame_count % self.preview_every == 0 {
            ReaderRequest::Preview
        } else {
            ReaderRequest::Read
        };
    }

    /// Takes the answer to the last request and says what to do next.
    pub fn step(&mut self, event: ReaderEvent) -> (r: ReaderRequest)
        requires
            old(self).wf(),
            event.is_answer(old(self).awaiting),
            old(self).counts(event) ==> old(self).frame_count < usize::MAX,
        ensures
            *final(self) == old(self).after(event),
            final(self).wf(),
            r == final(self).awaiting,
    {
        match event {
            ReaderEvent::Read(true) => {
                if self.sink_open {
                    self.awaiting = ReaderRequest::Write;
                } else {
                    self.count();
                }
            },
            ReaderEvent::Read(false) => {
                self.awaiting = ReaderRequest::Stop;
            },
            ReaderEvent::Written(true) => {
                self.count();
            },
            ReaderEvent::Written(false) => {
                self.awaiting = ReaderRequest::Open;
            },
            ReaderEvent::Opened(ok) => {
                self.sink_open = ok;
                self.count();
            },
            ReaderEvent::Offered(offer) => {
                self.awaiting =
                match offer {
                    Offer::Disconnected => ReaderRequest::Stop,
                    _ => ReaderRequest::Read,
                };
            },
        }
        self.awaiting
    }
}

// ── What the frames can rely on ──────────────────────────────────────────────
/// While the virtual camera is open, a frame that is read goes there first. One that cannot be
/// written leads to a new attempt to open the camera.
pub proof fn a_frame_goes_to_the_camera_first(reader: FrameReader)
    requires
        reader.sink_open,
    ensures
        reader.after(ReaderEvent::Read(true)).awaiting == ReaderRequest::Write,
        reader.after(ReaderEvent::Written(false)).awaiting == ReaderRequest::Open,
        reader.after(ReaderEvent::Written(true)).sink_open,
{
}

/// The reader ends exactly when FFmpeg writes no more or the window is gone. A slow window, a
/// camera that cannot be opened and a frame that cannot be written do not end it.
pub proof fn the_reader_ends_with_its_stream_or_window(reader: FrameReader, event: ReaderEvent)
    requires
        reader.wf(),
        event.is_answer(reader.awaiting),
    ensures
        reader.after(event).awaiting == ReaderRequest::Stop <==> (event == ReaderEvent::Read(false)
            || event == ReaderEvent::Offered(Offer::Disconnected)),
{
}

impl FrameReader {
    /// After the first `n` of `events`.
    pub open spec fn after_first(self, events: Seq<ReaderEvent>, n: nat) -> FrameReader
        decreases n,
    {
        if n == 0 {
            self
        } else {
            self.after_first(events, (n - 1) as nat).after(events[n - 1])
        }
    }

    /// How many previews are asked for in the course of the first `n` of `events`.
    pub open spec fn previews(self, events: Seq<ReaderEvent>, n: nat) -> nat
        decreases n,
    {
        if n == 0 {
            0
        } else {
            self.previews(events, (n - 1) as nat) + if self.after_first(events, n).awaiting
                == ReaderRequest::Preview {
                1nat
            } else {
                0
            }
        }
    }
}

/// How many frames were read in the course of the first `n` of `events`.
pub open spec fn frames_read(events: Seq<ReaderEvent>, n: nat) -> nat
    decreases n,
{
    if n == 0 {
        0
    } else {
        frames_read(events, (n - 1) as nat) + if events[n - 1] == ReaderEvent::Read(true) {
            1nat
        } else {
            0
        }
    }
}

/// What was written to the virtual camera in the course of the first `n` of `events`, where FFmpeg
/// writes `frames`: each time the frame that was read last.
pub open spec fn frames_written(frames: Seq<Seq<u8>>, events: Seq<ReaderEvent>, n: nat) -> Seq<
    Seq<u8>,
>
    decreases n,
{
    if n == 0 {
        seq![]
    } else {
        let before = frames_written(frames, events, (n - 1) as nat);
        if events[n - 1] == ReaderEvent::Written(true) {
            before.push(frames[frames_read(events, (n - 1) as nat) - 1])
        } else {
            before
        }
    }
}

impl FrameReader {
    /// Whether `written` is what the camera is due of the first `read` of `frames`: all of them, but
    /// for the last one while it is about to be written.
    pub open spec fn is_served(self, frames: Seq<Seq<u8>>, read: nat, written: Seq<Seq<u8>>) -> bool {
        &&& self.sink_open
        &&& self.awaiting != ReaderRequest::Open
        &&& self.awaiting == ReaderRequest::Write ==> read > 0 && written == frames.take(read - 1)
        &&& self.awaiting != ReaderRequest::Write ==> written == frames.take(read as int)
    }
}

proof fn lemma_one_event(
    before: FrameReader,
    frames: Seq<Seq<u8>>,
    read: nat,
    written: Seq<Seq<u8>>,
    event: ReaderEvent,
)
    requires
        before.is_served(frames, read, written),
        event.is_answer(before.awaiting),
        event != ReaderEvent::Written(false),
        read <= frames.len(),
    ensures
        ({
            let read_now = if event == ReaderEvent::Read(true) {
                read + 1
            } else {
                read
            };
            let written_now = if event == ReaderEvent::Written(true) {
                written.push(frames[read - 1])
            } else {
                written
            };
            before.after(event).is_served(frames, read_now, written_now)
        }),
{
    if event == ReaderEvent::Written(true) {
        assert(frames.take(read - 1).push(frames[read - 1]) =~= frames.take(read as int));
    }
}

/// A virtual camera that is open and takes every write gets all the frames that are read,
/// unchanged, in order, each once, whatever the rate of the preview is and whether or not the
/// window takes it. Whenever the reader is not about to write, none is outstanding.
pub proof fn an_open_camera_gets_every_frame(
    reader: FrameReader,
    frames: Seq<Seq<u8>>,
    events: Seq<ReaderEvent>,
    n: nat,
)
    requires
        n <= events.len(),
        reader.sink_open,
        reader.awaiting == ReaderRequest::Read,
        frames_read(events, n) <= frames.len(),
        forall|k: int|
            0 <= k < n ==> (#[trigger] events[k]).is_answer(
                reader.after_first(events, k as nat).awaiting,
            ),
        forall|k: int| 0 <= k < n ==> #[trigger] events[k] != ReaderEvent::Written(false),
    ensures
        reader.after_first(events, n).is_served(
            frames,
            frames_read(events, n),
            frames_written(frames, events, n),
        ),
    decreases n,
{
    if n == 0 {
        assert(frames.take(0) =~= seq![]);
    } else {
        let m = (n - 1) as nat;
        an_open_camera_gets_every_frame(reader, frames, events, m);
        let event = events[n - 1];
        let before = reader.after_first(events, m);
        assert(event.is_answer(before.awaiting));
        lemma_one_event(
            before,
            frames,
            frames_read(events, m),
            frames_written(frames, events, m),
            event,
        );
    }
}

/// Of the frames that were dealt with so far, one in `preview_every` was shown.
pub proof fn previews_are_the_share_asked_for(
    stream_fps: u32,
    preview_fps: u32,
    reader: FrameReader,
    events: Seq<ReaderEvent>,
    n: nat,
)
    requires
        n <= events.len(),
        n <= usize::MAX,
        reader.preview_every == preview_interval(stream_fps, preview_fps),
        reader.frame_count == 0,
        reader.awaiting == ReaderRequest::Read,
        forall|k: int|
            0 <= k < n ==> (#[trigger] events[k]).is_answer(
                reader.after_first(events, k as nat).awaiting,
            ),
    ensures
        ({
            let now = reader.after_first(events, n);
            &&& now.preview_every == reader.preview_every
            &&& now.frame_count <= n
            &&& reader.previews(events, n) == now.frame_count as int / now.preview_every as int
        }),
    decreases n,
{
    preview_rate_is_met(stream_fps, preview_fps);
    if n == 0 {
        vstd::arithmetic::div_mod::lemma_div_basics(reader.preview_every as int);
    } else {
        previews_are_the_share_asked_for(
            stream_fps,
            preview_fps,
            reader,
            events,
            (n - 1) as nat,
        );
        let before = reader.after_first(events, (n - 1) as nat);
        let event = events[n - 1];
        assert(event.is_answer(before.awaiting));
        lemma_next_quotient(before.frame_count as int, before.preview_every as int);
    }
}

proof fn lemma_next_quotient(c: int, e: int)
    requires
        c >= 0,
        e >= 1,
    ensures
        (c + 1) / e == c / e + if (c + 1) % e == 0 {
            1int
        } else {
            0
        },
{
    vstd::arithmetic::div_mod::lemma_fundamental_div_mod(c, e);
    let (q, r) = (c / e, c % e);
    assert(0 <= r < e) by {
        vstd::arithmetic::div_mod::lemma_mod_bound(c, e);
    }
    assert(e * (q + 1) == e * q + e) by (nonlinear_arith);
    assert(e * q == q * e && (q + 1) * e == e * (q + 1)) by (nonlinear_arith);
    if r + 1 == e {
        vstd::arithmetic::div_mod::lemma_fundamental_div_mod_converse(c + 1, e, q + 1, 0);
    } else {
        vstd::arithmetic::div_mod::lemma_fundamental_div_mod_converse(c + 1, e, q, r + 1);
    }
}

/// The preview is as fast as asked for and hardly faster: with one frame more between previews it
/// would be slower. It is never faster than the stream, and where none is asked for there is one
/// preview in a second's frames.
pub proof fn the_preview_is_hardly_faster_than_asked(stream_fps: u32, preview_fps: u32)
    ensures
        preview_fps >= stream_fps ==> preview_interval(stream_fps, preview_fps) == 1,
        0 < preview_fps < stream_fps ==> preview_interval(stream_fps, preview_fps) * preview_fps
            <= stream_fps < (preview_interval(stream_fps, preview_fps) + 1) * preview_fps,
        preview_fps == 0 < stream_fps ==> preview_interval(stream_fps, preview_fps) == stream_fps,
{
    if 0 < preview_fps < stream_fps {
        let (s, p) = (stream_fps as int, preview_fps as int);
        vstd::arithmetic::div_mod::lemma_fundamental_div_mod(s, p);
        vstd::arithmetic::div_mod::lemma_mod_bound(s, p);
        assert(p * (s / p) == (s / p) * p) by (nonlinear_arith);
        assert((s / p + 1) * p == (s / p) * p + p) by (nonlinear_arith);
    }
}

proof fn lemma_one_count(before: FrameReader, event: ReaderEvent)
    requires
        event.is_answer(before.awaiting),
        before.frame_count < usize::MAX,
    ensures
        ({
            let now = before.after(event);
            let due = before.frame_count + if before.awaiting == ReaderRequest::Write
                || before.awaiting == ReaderRequest::Open {
                1int
            } else {
                0
            };
            let read = due + if event == ReaderEvent::Read(true) {
                1int
            } else {
                0
            };
            &&& now.preview_every == before.preview_every
            &&& read == now.frame_count + if now.awaiting == ReaderRequest::Write || now.awaiting
                == ReaderRequest::Open {
                1int
            } else {
                0
            }
            &&& now.awaiting == ReaderRequest::Preview ==> now.frame_count as int
                % now.preview_every as int == 0
            &&& before.frame_count < now.frame_count && now.frame_count as int
                % now.preview_every as int == 0 ==> now.awaiting == ReaderRequest::Preview
        }),
{
}

/// Each frame that is read counts once, as soon as it was written, could not be written or had
/// nowhere to go. A preview is made right after a frame counts, and exactly if the count is a
/// multiple of `preview_every`.
pub proof fn every_frame_counts_once(reader: FrameReader, events: Seq<ReaderEvent>, n: nat)
    requires
        n <= events.len(),
        n <= usize::MAX,
        reader.frame_count == 0,
        reader.awaiting == ReaderRequest::Read,
        forall|k: int|
            0 <= k < n ==> (#[trigger] events[k]).is_answer(
                reader.after_first(events, k as nat).awaiting,
            ),
    ensures
        ({
            let now = reader.after_first(events, n);
            &&& now.preview_every == reader.preview_every
            &&& now.frame_count <= n
            &&& frames_read(events, n) == now.frame_count + if now.awaiting == ReaderRequest::Write
                || now.awaiting == ReaderRequest::Open {
                1int
            } else {
                0
            }
            &&& now.awaiting == ReaderRequest::Preview ==> now.frame_count as int
                % now.preview_every as int == 0
            &&& n > 0 && reader.after_first(events, (n - 1) as nat).frame_count < now.frame_count
                && now.frame_count as int % now.preview_every as int == 0 ==> now.awaiting
                == ReaderRequest::Preview
        }),
    decreases n,
{
    if n > 0 {
        let m = (n - 1) as nat;
        every_frame_counts_once(reader, events, m);
        let before = reader.after_first(events, m);
        let event = events[n - 1];
        assert(event.is_answer(before.awaiting));
        lemma_one_count(before, event);
    }
}

/// A camera that is closed gets no frame until it was opened anew, which is tried only when a frame
/// could not be written. Whether it is open is what the last attempt said.
pub proof fn a_camera_is_open_as_the_last_attempt_said(reader: FrameReader, event: ReaderEvent)
    ensures
        reader.after(event).sink_open == match event {
            ReaderEvent::Opened(ok) => ok,
            _ => reader.sink_open,
        },
        event == ReaderEvent::Read(true) && !reader.sink_open ==> reader.after(event).awaiting
            != ReaderRequest::Write && reader.after(event).awaiting != ReaderRequest::Open,
        reader.after(event).awaiting == ReaderRequest::Open ==> event == ReaderEvent::Written(
            false,
        ),
        reader.after(event).awaiting == ReaderRequest::Write ==> event == ReaderEvent::Read(true),
        reader.after(event).awaiting == ReaderRequest::Preview ==> !(event is Offered),
{
}

/// The count of frames goes up by one exactly with the events that deal with a frame.
pub proof fn the_count_goes_up_with_each_frame(reader: FrameReader, event: ReaderEvent)
    requires
        reader.frame_count < usize::MAX,
    ensures
        reader.counts(event) ==> reader.after(event).frame_count == reader.frame_count + 1,
        !reader.counts(event) ==> reader.after(event).frame_count == reader.frame_count,
{
}

} // verus!
