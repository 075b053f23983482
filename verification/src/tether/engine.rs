//! The engine of the tethered program. It works in turns like [`crate::engine`], whose effects and
//! states of the window it shares.
use vstd::prelude::*;
use vstd::string::*;

pub use crate::engine::Status;

use crate::engine::{
    add_effect, force_immediate_check, no_effects, show, Effect, EffectView, StatusView,
    DEVICE_CHECK_INTERVAL, FORCE_CHECK_WINDOW, SPAWN_FAIL_DELAY,
};
use crate::tether::config::{Config, ConfigView};

verus! {

/// Pause, in milliseconds, before an FFmpeg that came to its end is started anew.
pub const RESPAWN_DELAY: u64 = 2000;

/// What the user asks of the engine.
#[derive(PartialEq, Debug)]
pub enum EngineCmd {
    Start,
    Stop,
    /// Replaces the configuration. A running FFmpeg is restarted.
    UpdateConfig(Config),
}

pub enum EngineCmdView {
    Start,
    Stop,
    UpdateConfig(ConfigView),
}

impl View for EngineCmd {
    type V = EngineCmdView;

    open spec fn view(&self) -> EngineCmdView {
        match self {
            EngineCmd::Start => EngineCmdView::Start,
            EngineCmd::Stop => EngineCmdView::Stop,
            EngineCmd::UpdateConfig(c) => EngineCmdView::UpdateConfig(c@),
        }
    }
}

/// What the window reads on every repaint.
#[derive(PartialEq, Debug)]
pub struct AppState {
    pub status: Status,
}

/// Replaces what the window says.
pub fn set_status(state: &mut AppState, s: Status)
    ensures
        final(state).status == s,
{
    state.status = s;
}

// ── Turns ────────────────────────────────────────────────────────────────────
/// What the engine waits for.
#[derive(Clone, Copy, PartialEq, Eq, Debug)]
pub enum Request {
    /// The next command of the user that has come already, if any.
    Command,
    /// Whether a device is connected.
    DeviceConnected,
    /// Forward this port, and say whether that went well.
    Forward(u16),
    /// Whether FFmpeg has come to its end.
    FfmpegExited,
    /// Start FFmpeg with the engine's configuration.
    Spawn,
    /// Sleep until the next round.
    Tick,
}

/// What a request brought.
#[derive(PartialEq, Debug)]
pub enum Event {
    Command(Option<EngineCmd>),
    DeviceConnected(bool),
    Forwarded(bool),
    FfmpegExited(bool),
    /// The process number of the new FFmpeg, or `None` where it could not be started.
    Spawned(Option<u32>),
    Ticked,
}

pub enum EventView {
    Command(Option<EngineCmdView>),
    DeviceConnected(bool),
    Forwarded(bool),
    FfmpegExited(bool),
    Spawned(Option<u32>),
    Ticked,
}

impl View for Event {
    type V = EventView;

    open spec fn view(&self) -> EventView {
        match self {
            Event::Command(Some(c)) => EventView::Command(Some(c@)),
            Event::Command(None) => EventView::Command(None),
            Event::DeviceConnected(c) => EventView::DeviceConnected(*c),
            Event::Forwarded(ok) => EventView::Forwarded(*ok),
            Event::FfmpegExited(e) => EventView::FfmpegExited(*e),
            Event::Spawned(pid) => EventView::Spawned(*pid),
            Event::Ticked => EventView::Ticked,
        }
    }
}

impl EventView {
    /// Whether the event is an answer to this request.
    pub open spec fn answers(self, request: Request) -> bool {
        match request {
            Request::Command => self is Command,
            Request::DeviceConnected => self is DeviceConnected,
            Request::Forward(_) => self is Forwarded,
            Request::FfmpegExited => self is FfmpegExited,
            Request::Spawn => self is Spawned,
            Request::Tick => self is Ticked,
        }
    }
}

impl Event {
    /// Whether the event is an answer to this request.
    pub fn answers(&self, request: Request) -> (r: bool)
        ensures
            r == self@.answers(request),
    {
        match (request, self) {
            (Request::Command, Event::Command(_)) => true,
            (Request::DeviceConnected, Event::DeviceConnected(_)) => true,
            (Request::Forward(_), Event::Forwarded(_)) => true,
            (Request::FfmpegExited, Event::FfmpegExited(_)) => true,
            (Request::Spawn, Event::Spawned(_)) => true,
            (Request::Tick, Event::Ticked) => true,
            _ => false,
        }
    }
}

/// Effects to carry out in order, then a request.
#[derive(PartialEq, Debug)]
pub struct Turn {
    pub effects: Vec<Effect>,
    pub next: Request,
}

pub struct TurnView {
    pub effects: Seq<EffectView>,
    pub next: Request,
}

impl View for Turn {
    type V = TurnView;

    open spec fn view(&self) -> TurnView {
        TurnView { effects: self.effects.deep_view(), next: self.next }
    }
}

// ── The engine ───────────────────────────────────────────────────────────────
#[derive(Debug)]
pub struct Engine {
    pub config: Config,
    /// Whether the user wants a stream.
    pub active: bool,
    /// Whether an FFmpeg is held. It may have come to its end by itself.
    pub ffmpeg_running: bool,
    /// Whether the phone's port is forwarded.
    pub device_ready: bool,
    /// When the phone was last looked for.
    pub last_check: i64,
    /// The request that the next event has to answer.
    pub awaiting: Request,
}

pub struct EngineView {
    pub config: ConfigView,
    pub active: bool,
    pub ffmpeg_running: bool,
    pub device_ready: bool,
    pub last_check: int,
    pub awaiting: Request,
}

impl View for Engine {
    type V = EngineView;

    open spec fn view(&self) -> EngineView {
        EngineView {
            config: self.config@,
            active: self.active,
            ffmpeg_running: self.ffmpeg_running,
            device_ready: self.device_ready,
            last_check: self.last_check as int,
            awaiting: self.awaiting,
        }
    }
}

impl EngineView {
    /// The engine before its first event.
    pub open spec fn initial(config: ConfigView, now: int) -> EngineView {
        EngineView {
            config,
            active: false,
            ffmpeg_running: false,
            device_ready: false,
            last_check: now - FORCE_CHECK_WINDOW,
            awaiting: Request::Command,
        }
    }

    /// The next device check is due at once.
    pub open spec fn check_forced(self, now: int) -> EngineView {
        EngineView { last_check: now - FORCE_CHECK_WINDOW, ..self }
    }

    /// Whether the phone is to be looked for again.
    pub open spec fn check_due(self, now: int) -> bool {
        now - self.last_check >= DEVICE_CHECK_INTERVAL
    }

    pub open spec fn after_start(self, now: int) -> EngineView {
        EngineView { active: true, ..self }.check_forced(now)
    }

    pub open spec fn after_stop(self) -> EngineView {
        EngineView { active: false, ffmpeg_running: false, device_ready: false, ..self }
    }

    pub open spec fn stop_effects(self) -> Seq<EffectView> {
        seq![EffectView::KillFfmpeg] + (if self.device_ready {
            seq![EffectView::RemoveForward(self.config.adb_port)]
        } else {
            seq![]
        }) + seq![EffectView::SetStatus(StatusView::Idle)]
    }

    /// Whether a new configuration gives up a phone that is in reach.
    pub open spec fn gives_up(self, new: ConfigView) -> bool {
        new.adb_port != self.config.adb_port && self.device_ready
    }

    pub open spec fn after_update(self, new: ConfigView, now: int) -> EngineView {
        let updated = EngineView { config: new, ffmpeg_running: false, ..self };
        if self.gives_up(new) {
            EngineView { device_ready: false, ..updated }.check_forced(now)
        } else {
            updated
        }
    }

    pub open spec fn update_effects(self, new: ConfigView) -> Seq<EffectView> {
        (if self.ffmpeg_running {
            seq![EffectView::KillFfmpeg, EffectView::SetStatus(StatusView::Connecting)]
        } else {
            seq![]
        }) + (if self.gives_up(new) {
            seq![EffectView::RemoveForward(self.config.adb_port)]
        } else {
            seq![]
        })
    }

    /// After the phone was looked for. One that has just come is not ready yet: its port has to be
    /// forwarded first.
    pub open spec fn after_check(self, connected: bool) -> EngineView {
        if !connected && self.device_ready {
            EngineView { ffmpeg_running: false, device_ready: false, ..self }
        } else {
            self
        }
    }

    pub open spec fn check_effects(self, connected: bool) -> Seq<EffectView> {
        if connected {
            seq![]
        } else if self.device_ready {
            seq![
                EffectView::KillFfmpeg,
                EffectView::RemoveForward(self.config.adb_port),
                EffectView::SetStatus(StatusView::WaitingDevice),
            ]
        } else {
            seq![EffectView::SetStatus(StatusView::WaitingDevice)]
        }
    }

    pub open spec fn after_forward(self, ok: bool) -> EngineView {
        EngineView { device_ready: self.device_ready || ok, ..self }
    }

    pub open spec fn forward_effects(ok: bool) -> Seq<EffectView> {
        if ok {
            seq![]
        } else {
            seq![EffectView::SetStatus(StatusView::Error("ADB forward falló"@))]
        }
    }

    pub open spec fn exit_effects() -> Seq<EffectView> {
        seq![
            EffectView::KillFfmpeg,
            EffectView::SetStatus(StatusView::Connecting),
            EffectView::Sleep(RESPAWN_DELAY),
        ]
    }

    pub open spec fn after_spawn(self, pid: Option<u32>) -> EngineView {
        EngineView { ffmpeg_running: self.ffmpeg_running || pid is Some, ..self }
    }

    pub open spec fn spawn_effects(pid: Option<u32>) -> Seq<EffectView> {
        match pid {
            Some(_) => seq![EffectView::SetStatus(StatusView::Streaming)],
            None => seq![
                EffectView::SetStatus(StatusView::Error("No se pudo iniciar FFmpeg"@)),
                EffectView::Sleep(SPAWN_FAIL_DELAY),
            ],
        }
    }

    /// Carries out `effects`, then waits for `next`.
    pub open spec fn turn(self, effects: Seq<EffectView>, next: Request) -> (EngineView, TurnView) {
        (EngineView { awaiting: next, ..self }, TurnView { effects, next })
    }

    /// The rest of a round, once the phone was looked for: see to FFmpeg.
    pub open spec fn mind_ffmpeg(self, effects: Seq<EffectView>) -> (EngineView, TurnView) {
        if !self.device_ready {
            self.turn(effects, Request::Tick)
        } else if self.ffmpeg_running {
            self.turn(effects, Request::FfmpegExited)
        } else {
            self.turn(
                effects.push(EffectView::SetStatus(StatusView::Connecting)),
                Request::Spawn,
            )
        }
    }

    /// Whether `event` makes the next device check due at once.
    pub open spec fn forces_check(self, event: EventView) -> bool {
        match event {
            EventView::Command(Some(EngineCmdView::Start)) => true,
            EventView::Command(Some(EngineCmdView::UpdateConfig(new))) => self.gives_up(new),
            _ => false,
        }
    }

    /// What the engine does when `event` comes at `now`.
    pub open spec fn step(self, event: EventView, now: int) -> (EngineView, TurnView) {
        match event {
            EventView::Command(Some(EngineCmdView::Start)) => self.after_start(now).turn(
                seq![EffectView::SetStatus(StatusView::WaitingDevice)],
                Request::Command,
            ),
            EventView::Command(Some(EngineCmdView::Stop)) => self.after_stop().turn(
                self.stop_effects(),
                Request::Command,
            ),
            EventView::Command(Some(EngineCmdView::UpdateConfig(new))) => self.after_update(
                new,
                now,
            ).turn(self.update_effects(new), Request::Command),
            EventView::Command(None) => if !self.active {
                self.turn(seq![], Request::Tick)
            } else if self.check_due(now) {
                EngineView { last_check: now, ..self }.turn(seq![], Request::DeviceConnected)
            } else {
                self.mind_ffmpeg(seq![])
            },
            EventView::DeviceConnected(connected) => if connected && !self.device_ready {
                self.turn(seq![], Request::Forward(self.config.adb_port))
            } else {
                self.after_check(connected).mind_ffmpeg(self.check_effects(connected))
            },
            EventView::Forwarded(ok) => self.after_forward(ok).mind_ffmpeg(
                Self::forward_effects(ok),
            ),
            EventView::FfmpegExited(exited) => if exited {
                EngineView { ffmpeg_running: false, ..self }.mind_ffmpeg(Self::exit_effects())
            } else {
                self.turn(seq![], Request::Tick)
            },
            EventView::Spawned(pid) => self.after_spawn(pid).turn(
                Self::spawn_effects(pid),
                Request::Tick,
            ),
            EventView::Ticked => self.turn(seq![], Request::Command),
        }
    }
}

impl Engine {
    /// An engine that does nothing until the user starts it.
    pub fn new(config: Config, now: i64) -> (r: Engine)
        requires
            now - FORCE_CHECK_WINDOW >= i64::MIN,
        ensures
            r@ == EngineView::initial(config@, now as int),
    {
        Engine {
            config,
            active: false,
            ffmpeg_running: false,
            device_ready: false,
            last_check: now - FORCE_CHECK_WINDOW,
            awaiting: Request::Command,
        }
    }

    fn on_start(&mut self, now: i64) -> (r: Vec<Effect>)
        requires
            now - FORCE_CHECK_WINDOW >= i64::MIN,
        ensures
            final(self)@ == old(self)@.after_start(now as int),
            r.deep_view() == seq![EffectView::SetStatus(StatusView::WaitingDevice)],
    {
        self.active = true;
        force_immediate_check(&mut self.last_check, now);
        let mut effects = no_effects();
        show(&mut effects, Status::WaitingDevice);
        assert(effects.deep_view() =~= seq![EffectView::SetStatus(StatusView::WaitingDevice)]);
        effects
    }

    fn on_stop(&mut self) -> (r: Vec<Effect>)
        ensures
            final(self)@ == old(self)@.after_stop(),
            r.deep_view() == old(self)@.stop_effects(),
    {
        let mut effects = no_effects();
        self.active = false;
        add_effect(&mut effects, Effect::KillFfmpeg);
        self.ffmpeg_running = false;
        if self.device_ready {
            add_effect(&mut effects, Effect::RemoveForward(self.config.adb_port));
        }
        self.device_ready = false;
        show(&mut effects, Status::Idle);
        assert(effects.deep_view() =~= old(self)@.stop_effects());
        effects
    }

    fn on_update_config(&mut self, new_cfg: Config, now: i64) -> (r: Vec<Effect>)
        requires
            old(self)@.gives_up(new_cfg@) ==> now - FORCE_CHECK_WINDOW >= i64::MIN,
        ensures
            final(self)@ == old(self)@.after_update(new_cfg@, now as int),
            r.deep_view() == old(self)@.update_effects(new_cfg@),
    {
        let old_port: u16 = self.config.adb_port;
        let port_changed: bool = new_cfg.adb_port != old_port;
        self.config = new_cfg;
        let mut effects = no_effects();
        if self.ffmpeg_running {
            add_effect(&mut effects, Effect::KillFfmpeg);
            self.ffmpeg_running = false;
            show(&mut effects, Status::Connecting);
        }
        if port_changed && self.device_ready {
            // The forward that stands was made for the old port.
            add_effect(&mut effects, Effect::RemoveForward(old_port));
            self.device_ready = false;
            force_immediate_check(&mut self.last_check, now);
        }
        assert(effects.deep_view() =~= old(self)@.update_effects(new_cfg@));
        effects
    }

    fn on_checked(&mut self, connected: bool) -> (r: Vec<Effect>)
        ensures
            final(self)@ == old(self)@.after_check(connected),
            r.deep_view() == old(self)@.check_effects(connected),
    {
        let mut effects = no_effects();
        if !connected && self.device_ready {
            add_effect(&mut effects, Effect::KillFfmpeg);
            self.ffmpeg_running = false;
            add_effect(&mut effects, Effect::RemoveForward(self.config.adb_port));
            self.device_ready = false;
            show(&mut effects, Status::WaitingDevice);
        } else if !connected {
            show(&mut effects, Status::WaitingDevice);
        }
        assert(effects.deep_view() =~= old(self)@.check_effects(connected));
        effects
    }

    fn on_forwarded(&mut self, ok: bool) -> (r: Vec<Effect>)
        ensures
            final(self)@ == old(self)@.after_forward(ok),
            r.deep_view() == EngineView::forward_effects(ok),
    {
        let mut effects = no_effects();
        if ok {
            self.device_ready = true;
        } else {
            show(&mut effects, Status::Error("ADB forward falló".to_string()));
        }
        assert(effects.deep_view() =~= EngineView::forward_effects(ok));
        effects
    }

    fn on_spawned(&mut self, pid: Option<u32>) -> (r: Vec<Effect>)
        ensures
            final(self)@ == old(self)@.after_spawn(pid),
            r.deep_view() == EngineView::spawn_effects(pid),
    {
        let mut effects = no_effects();
        if pid.is_some() {
            self.ffmpeg_running = true;
            show(&mut effects, Status::Streaming);
        } else {
            show(&mut effects, Status::Error("No se pudo iniciar FFmpeg".to_string()));
            add_effect(&mut effects, Effect::Sleep(SPAWN_FAIL_DELAY));
        }
        assert(effects.deep_view() =~= EngineView::spawn_effects(pid));
        effects
    }

    fn turn(&mut self, effects: Vec<Effect>, next: Request) -> (r: Turn)
        ensures
            (final(self)@, r@) == old(self)@.turn(effects.deep_view(), next),
    {
        self.awaiting = next;
        Turn { effects, next }
    }

    fn mind_ffmpeg(&mut self, effects: Vec<Effect>) -> (r: Turn)
        ensures
            (final(self)@, r@) == old(self)@.mind_ffmpeg(effects.deep_view()),
    {
        if !self.device_ready {
            self.turn(effects, Request::Tick)
        } else if self.ffmpeg_running {
            self.turn(effects, Request::FfmpegExited)
        } else {
            let mut effects = effects;
            show(&mut effects, Status::Connecting);
            self.turn(effects, Request::Spawn)
        }
    }

    /// Takes the answer to the last request and says what to do next.
    pub fn step(&mut self, event: Event, now: i64) -> (r: Turn)
        requires
            event@.answers(old(self)@.awaiting),
            old(self)@.forces_check(event@) ==> now - FORCE_CHECK_WINDOW >= i64::MIN,
        ensures
            (final(self)@, r@) == old(self)@.step(event@, now as int),
    {
        match event {
            Event::Command(Some(EngineCmd::Start)) => {
                let effects = self.on_start(now);
                self.turn(effects, Request::Command)
            },
            Event::Command(Some(EngineCmd::Stop)) => {
                let effects = self.on_stop();
                self.turn(effects, Request::Command)
            },
            Event::Command(Some(EngineCmd::UpdateConfig(new_cfg))) => {
                let effects = self.on_update_config(new_cfg, now);
                self.turn(effects, Request::Command)
            },
            Event::Command(None) => {
                if !self.active {
                    self.turn(no_effects(), Request::Tick)
                } else if (now as i128) - (self.last_check as i128)
                    >= DEVICE_CHECK_INTERVAL as i128 {
                    self.last_check = now;
                    self.turn(no_effects(), Request::DeviceConnected)
                } else {
                    self.mind_ffmpeg(no_effects())
                }
            },
            Event::DeviceConnected(connected) => {
                if connected && !self.device_ready {
                    let port: u16 = self.config.adb_port;
                    self.turn(no_effects(), Request::Forward(port))
                } else {
                    let effects = self.on_checked(connected);
                    self.mind_ffmpeg(effects)
                }
            },
            Event::Forwarded(ok) => {
                let effects = self.on_forwarded(ok);
                self.mind_ffmpeg(effects)
            },
            Event::FfmpegExited(exited) => {
                if exited {
                    let mut effects = no_effects();
                    add_effect(&mut effects, Effect::KillFfmpeg);
                    self.ffmpeg_running = false;
                    show(&mut effects, Status::Connecting);
                    add_effect(&mut effects, Effect::Sleep(RESPAWN_DELAY));
                    assert(effects.deep_view() =~= EngineView::exit_effects());
                    self.mind_ffmpeg(effects)
                } else {
                    self.turn(no_effects(), Request::Tick)
                }
            },
            Event::Spawned(pid) => {
                let effects = self.on_spawned(pid);
                self.turn(effects, Request::Tick)
            },
            Event::Ticked => self.turn(no_effects(), Request::Command),
        }
    }
}

/// The views of what goes into the engine and comes out of it hold all of it as it is.
pub proof fn views_keep_what_is_exchanged(command: EngineCmd, event: Event, turn: Turn)
    ensures
        command@ is Start <==> command is Start,
        command@ is Stop <==> command is Stop,
        command matches EngineCmd::UpdateConfig(c) ==> command@ == EngineCmdView::UpdateConfig(c@),
        event matches Event::Command(Some(c)) ==> event@ == EventView::Command(Some(c@)),
        event == Event::Command(None) ==> event@ == EventView::Command(None),
        event matches Event::DeviceConnected(c) ==> event@ == EventView::DeviceConnected(c),
        event matches Event::Forwarded(ok) ==> event@ == EventView::Forwarded(ok),
        event matches Event::FfmpegExited(e) ==> event@ == EventView::FfmpegExited(e),
        event matches Event::Spawned(pid) ==> event@ == EventView::Spawned(pid),
        event@ is Ticked <==> event is Ticked,
        turn@.next == turn.next,
        turn@.effects.len() == turn.effects@.len(),
        forall|i: int|
            0 <= i < turn.effects@.len() ==> #[trigger] turn@.effects[i]
                == turn.effects@[i].deep_view(),
{
}

/// The view of an engine holds everything that it knows as it is.
pub proof fn a_view_keeps_the_engine(engine: Engine)
    ensures
        engine@.config == engine.config@,
        engine@.active == engine.active,
        engine@.ffmpeg_running == engine.ffmpeg_running,
        engine@.device_ready == engine.device_ready,
        engine@.last_check == engine.last_check,
        engine@.awaiting == engine.awaiting,
{
}

} // verus!
