//! The engine: decides when to look for the phone, when to run FFmpeg, and what to show.
//!
//! The engine itself touches nothing outside. Each [`Turn`] lists effects to carry out in order
//! and one request; what the request brings is handed to [`Engine::step`] as the next event.
//! Times are nanoseconds of a steady clock with any origin.
use vstd::prelude::*;
use vstd::string::*;

use crate::config::{Config, ConfigView, ConnectionMode};
use crate::discovery;
use crate::discovery::{DiscoveredDevice, DiscoveredDeviceView};

verus! {

// ── Public types ─────────────────────────────────────────────────────────────
/// What the window says about the stream.
#[derive(PartialEq, Debug)]
pub enum Status {
    Idle,
    WaitingDevice,
    Connecting,
    Streaming,
    Error(String),
}

pub enum StatusView {
    Idle,
    WaitingDevice,
    Connecting,
    Streaming,
    Error(Seq<char>),
}

impl View for Status {
    type V = StatusView;

    open spec fn view(&self) -> StatusView {
        match self {
            Status::Idle => StatusView::Idle,
            Status::WaitingDevice => StatusView::WaitingDevice,
            Status::Connecting => StatusView::Connecting,
            Status::Streaming => StatusView::Streaming,
            Status::Error(e) => StatusView::Error(e@),
        }
    }
}

impl Clone for Status {
    fn clone(&self) -> (r: Self)
        ensures
            r@ == self@,
    {
        match self {
            Status::Idle => Status::Idle,
            Status::WaitingDevice => Status::WaitingDevice,
            Status::Connecting => Status::Connecting,
            Status::Streaming => Status::Streaming,
            Status::Error(e) => Status::Error(e.clone()),
        }
    }
}

impl StatusView {
    /// The words for it in the window.
    pub open spec fn words(self) -> Seq<char> {
        match self {
            StatusView::Idle => "Detenido"@,
            StatusView::WaitingDevice => "Esperando dispositivo…"@,
            StatusView::Connecting => "Conectando…"@,
            StatusView::Streaming => "● Transmitiendo"@,
            StatusView::Error(e) => "Error: "@ + e,
        }
    }
}

impl Status {
    /// The words for it in the window.
    pub fn words(&self) -> (r: String)
        ensures
            r@ == self@.words(),
    {
        match self {
            Status::Idle => "Detenido".to_string(),
            Status::WaitingDevice => "Esperando dispositivo…".to_string(),
            Status::Connecting => "Conectando…".to_string(),
            Status::Streaming => "● Transmitiendo".to_string(),
            Status::Error(e) => {
                let mut out: String = "Error: ".to_string();
                out.append(e.as_str());
                out
            },
        }
    }
}

/// What the user asks of the engine.
#[derive(PartialEq, Debug)]
pub enum EngineCmd {
    Start,
    Stop,
    /// Replace the configuration; a running FFmpeg is killed and started anew.
    UpdateConfig(Config),
}

pub enum EngineCmdView {
    Start,
    Stop,
    UpdateConfig(ConfigView),
}

impl View for EngineCmd {
    type V = EngineCmdView;

    open spec fn view(&self) -> EngineCmdView {
        match self {
            EngineCmd::Start => EngineCmdView::Start,
            EngineCmd::Stop => EngineCmdView::Stop,
            EngineCmd::UpdateConfig(c) => EngineCmdView::UpdateConfig(c@),
        }
    }
}

/// What the window reads of the engine whenever it is drawn.
#[derive(PartialEq, Debug)]
pub struct AppState {
    pub status: Status,
    /// Address of the phone in use over WiFi. `None` over USB, or while no phone is known.
    pub discovered_ip: Option<String>,
}

pub struct AppStateView {
    pub status: StatusView,
    pub discovered_ip: Option<Seq<char>>,
}

pub open spec fn text_view(text: Option<String>) -> Option<Seq<char>> {
    match text {
        Some(s) => Some(s@),
        None => None,
    }
}

fn copy_text(text: &Option<String>) -> (r: Option<String>)
    ensures
        text_view(r) == text_view(*text),
{
    match text {
        Some(s) => Some(s.clone()),
        None => None,
    }
}

impl View for AppState {
    type V = AppStateView;

    open spec fn view(&self) -> AppStateView {
        AppStateView { status: self.status@, discovered_ip: text_view(self.discovered_ip) }
    }
}

impl AppState {
    /// What the window reads before the engine has run.
    pub fn new() -> (r: AppState)
        ensures
            r@ == (AppStateView { status: StatusView::Idle, discovered_ip: None }),
    {
        AppState { status: Status::Idle, discovered_ip: None }
    }
}

/// Shows another status.
pub fn set_status(state: &mut AppState, s: Status)
    ensures
        final(state)@ == (AppStateView { status: s@, ..old(state)@ }),
{
    state.status = s;
}

/// Shows another address of the phone.
pub fn set_discovered_ip(state: &mut AppState, ip: Option<String>)
    ensures
        final(state)@ == (AppStateView { discovered_ip: text_view(ip), ..old(state)@ }),
{
    state.discovered_ip = ip;
}

/// Notes the process that has to be killed if the program ends now.
pub fn store_pid(ffmpeg_pid: &mut Option<u32>, pid: Option<u32>)
    ensures
        *final(ffmpeg_pid) == pid,
{
    *ffmpeg_pid = pid;
}

// ── Timing ───────────────────────────────────────────────────────────────────
/// How far back the last device check is dated to make the next one due at once.
pub const FORCE_CHECK_WINDOW: i64 = 60_000_000_000;

/// Nanoseconds between device checks.
pub const DEVICE_CHECK_INTERVAL: i64 = 2_000_000_000;

/// Milliseconds of sleep at the end of each round.
pub const LOOP_TICK: u64 = 200;

/// Milliseconds between the end of one FFmpeg and the start of the next.
pub const RESPAWN_DELAY: u64 = 500;

/// Milliseconds of sleep after FFmpeg could not be started.
pub const SPAWN_FAIL_DELAY: u64 = 2000;

// ── Effects, requests, events ────────────────────────────────────────────────
/// Something to carry out that needs no answer.
#[derive(PartialEq, Debug)]
pub enum Effect {
    /// Kill the FFmpeg that is held, if any, and wait for its end.
    KillFfmpeg,
    StorePid(Option<u32>),
    /// Drop the forwarding of this port.
    RemoveForward(u16),
    SetStatus(Status),
    SetDiscoveredIp(Option<String>),
    /// Sleep for so many milliseconds.
    Sleep(u64),
}

pub enum EffectView {
    KillFfmpeg,
    StorePid(Option<u32>),
    RemoveForward(u16),
    SetStatus(StatusView),
    SetDiscoveredIp(Option<Seq<char>>),
    Sleep(u64),
}

impl DeepView for Effect {
    type V = EffectView;

    open spec fn deep_view(&self) -> EffectView {
        match self {
            Effect::KillFfmpeg => EffectView::KillFfmpeg,
            Effect::StorePid(pid) => EffectView::StorePid(*pid),
            Effect::RemoveForward(port) => EffectView::RemoveForward(*port),
            Effect::SetStatus(s) => EffectView::SetStatus(s@),
            Effect::SetDiscoveredIp(ip) => EffectView::SetDiscoveredIp(text_view(*ip)),
            Effect::Sleep(ms) => EffectView::Sleep(*ms),
        }
    }
}

/// What the engine waits for.
#[derive(PartialEq, Debug)]
pub enum Request {
    /// The next command of the user that has come already, if any.
    Command,
    /// Whether a device is connected over USB.
    DeviceConnected,
    /// Forward this port, and say whether that went well.
    Forward(u16),
    /// What the phone announced last.
    Beacon,
    /// Whether FFmpeg has come to its end.
    FfmpegExited,
    /// Start FFmpeg on the stream at this host and port.
    Spawn(String, u16),
    /// Sleep until the next round.
    Tick,
}

pub enum RequestView {
    Command,
    DeviceConnected,
    Forward(u16),
    Beacon,
    FfmpegExited,
    Spawn(Seq<char>, u16),
    Tick,
}

impl View for Request {
    type V = RequestView;

    open spec fn view(&self) -> RequestView {
        match self {
            Request::Command => RequestView::Command,
            Request::DeviceConnected => RequestView::DeviceConnected,
            Request::Forward(port) => RequestView::Forward(*port),
            Request::Beacon => RequestView::Beacon,
            Request::FfmpegExited => RequestView::FfmpegExited,
            Request::Spawn(host, port) => RequestView::Spawn(host@, *port),
            Request::Tick => RequestView::Tick,
        }
    }
}

/// What a request brought.
#[derive(PartialEq, Debug)]
pub enum Event {
    Command(Option<EngineCmd>),
    DeviceConnected(bool),
    Forwarded(bool),
    Beacon(Option<DiscoveredDevice>),
    FfmpegExited(bool),
    /// The process number of the new FFmpeg, or `None` where it could not be started.
    Spawned(Option<u32>),
    Ticked,
}

pub enum EventView {
    Command(Option<EngineCmdView>),
    DeviceConnected(bool),
    Forwarded(bool),
    Beacon(Option<DiscoveredDeviceView>),
    FfmpegExited(bool),
    Spawned(Option<u32>),
    Ticked,
}

impl View for Event {
    type V = EventView;

    open spec fn view(&self) -> EventView {
        match self {
            Event::Command(Some(c)) => EventView::Command(Some(c@)),
            Event::Command(None) => EventView::Command(None),
            Event::DeviceConnected(c) => EventView::DeviceConnected(*c),
            Event::Forwarded(ok) => EventView::Forwarded(*ok),
            Event::Beacon(d) => EventView::Beacon(discovery::device_view(*d)),
            Event::FfmpegExited(e) => EventView::FfmpegExited(*e),
            Event::Spawned(pid) => EventView::Spawned(*pid),
            Event::Ticked => EventView::Ticked,
        }
    }
}

impl EventView {
    /// Whether the event is an answer to this request.
    pub open spec fn answers(self, request: RequestView) -> bool {
        match request {
            RequestView::Command => self is Command,
            RequestView::DeviceConnected => self is DeviceConnected,
            RequestView::Forward(_) => self is Forwarded,
            RequestView::Beacon => self is Beacon,
            RequestView::FfmpegExited => self is FfmpegExited,
            RequestView::Spawn(_, _) => self is Spawned,
            RequestView::Tick => self is Ticked,
        }
    }
}

impl Event {
    /// Whether the event is an answer to this request.
    pub fn answers(&self, request: &Request) -> (r: bool)
        ensures
            r == self@.answers(request@),
    {
        match (request, self) {
            (Request::Command, Event::Command(_)) => true,
            (Request::DeviceConnected, Event::DeviceConnected(_)) => true,
            (Request::Forward(_), Event::Forwarded(_)) => true,
            (Request::Beacon, Event::Beacon(_)) => true,
            (Request::FfmpegExited, Event::FfmpegExited(_)) => true,
            (Request::Spawn(_, _), Event::Spawned(_)) => true,
            (Request::Tick, Event::Ticked) => true,
            _ => false,
        }
    }
}

/// Effects to carry out in order, then a request.
#[derive(PartialEq, Debug)]
pub struct Turn {
    pub effects: Vec<Effect>,
    pub next: Request,
}

pub struct TurnView {
    pub effects: Seq<EffectView>,
    pub next: RequestView,
}

impl View for Turn {
    type V = TurnView;

    open spec fn view(&self) -> TurnView {
        TurnView { effects: self.effects.deep_view(), next: self.next@ }
    }
}

// ── The phone's address ──────────────────────────────────────────────────────
/// The phone's address over WiFi: the one that the user entered, else the one of an announcement
/// that still counts.
pub open spec fn wifi_target(
    config: ConfigView,
    discovered: Option<DiscoveredDeviceView>,
    now: int,
) -> Option<Seq<char>> {
    if config.wifi_ip.len() > 0 {
        Some(config.wifi_ip)
    } else {
        match discovered {
            Some(d) if d.is_fresh(now) => Some(d.ip),
            _ => None,
        }
    }
}

/// The phone's address over WiFi. An address that the user entered goes before announcements.
pub fn resolve_wifi_ip(config: &Config, discovered: &Option<DiscoveredDevice>, now: i64) -> (r:
    Option<String>)
    ensures
        text_view(r) == wifi_target(config@, discovery::device_view(*discovered), now as int),
{
    if !config.wifi_ip.as_str().is_empty() {
        return Some(config.wifi_ip.clone());
    }
    match discovered {
        Some(d) => {
            if d.is_fresh(now) {
                Some(d.ip.clone())
            } else {
                None
            }
        },
        None => None,
    }
}

// ── The engine ───────────────────────────────────────────────────────────────
/// Where the stream stands.
#[derive(Debug)]
pub struct StreamState {
    /// Whether an FFmpeg is held. It may have come to its end by itself.
    pub ffmpeg_running: bool,
    /// Whether the phone can be reached.
    pub device_ready: bool,
    /// Address that FFmpeg connects to over WiFi.
    pub wifi_target_ip: Option<String>,
    /// When the phone was last looked for.
    pub last_check: i64,
}

#[derive(Debug)]
pub struct Engine {
    pub config: Config,
    /// Whether the user wants a stream.
    pub active: bool,
    pub stream: StreamState,
    /// The request that the next event has to answer.
    pub awaiting: Request,
}

pub struct EngineView {
    pub config: ConfigView,
    pub active: bool,
    pub ffmpeg_running: bool,
    pub device_ready: bool,
    pub wifi_target_ip: Option<Seq<char>>,
    pub last_check: int,
    pub awaiting: RequestView,
}

impl View for Engine {
    type V = EngineView;

    open spec fn view(&self) -> EngineView {
        EngineView {
            config: self.config@,
            active: self.active,
            ffmpeg_running: self.stream.ffmpeg_running,
            device_ready: self.stream.device_ready,
            wifi_target_ip: text_view(self.stream.wifi_target_ip),
            last_check: self.stream.last_check as int,
            awaiting: self.awaiting@,
        }
    }
}

impl EngineView {
    /// The engine before its first event.
    pub open spec fn initial(config: ConfigView, now: int) -> EngineView {
        EngineView {
            config,
            active: false,
            ffmpeg_running: false,
            device_ready: false,
            wifi_target_ip: None,
            last_check: now - FORCE_CHECK_WINDOW,
            awaiting: RequestView::Command,
        }
    }

    /// The next device check is due at once.
    pub open spec fn check_forced(self, now: int) -> EngineView {
        EngineView { last_check: now - FORCE_CHECK_WINDOW, ..self }
    }

    /// Whether the phone is to be looked for again.
    pub open spec fn check_due(self, now: int) -> bool {
        now - self.last_check >= DEVICE_CHECK_INTERVAL
    }

    /// The connection that `device_ready` and `wifi_target_ip` spoke of is gone.
    pub open spec fn disconnected(self) -> EngineView {
        EngineView { device_ready: false, wifi_target_ip: None, ..self }
    }

    pub open spec fn after_start(self, now: int) -> EngineView {
        EngineView { active: true, ..self }.check_forced(now)
    }

    pub open spec fn after_stop(self) -> EngineView {
        EngineView { active: false, ffmpeg_running: false, ..self }.disconnected()
    }

    pub open spec fn stop_effects(self) -> Seq<EffectView> {
        seq![EffectView::KillFfmpeg, EffectView::StorePid(None)] + (if self.device_ready
            && self.config.connection_mode == ConnectionMode::Usb {
            seq![EffectView::RemoveForward(self.config.adb_port)]
        } else {
            seq![]
        }) + seq![EffectView::SetStatus(StatusView::Idle), EffectView::SetDiscoveredIp(None)]
    }

    /// Whether a new configuration makes the present connection useless.
    pub open spec fn reconnects(self, new: ConfigView) -> bool {
        new.connection_mode != self.config.connection_mode || new.adb_port != self.config.adb_port
    }

    pub open spec fn after_update(self, new: ConfigView, now: int) -> EngineView {
        let updated = EngineView { config: new, ffmpeg_running: false, ..self };
        if self.reconnects(new) {
            updated.disconnected().check_forced(now)
        } else {
            updated
        }
    }

    pub open spec fn update_effects(self, new: ConfigView) -> Seq<EffectView> {
        (if self.ffmpeg_running {
            seq![
                EffectView::KillFfmpeg,
                EffectView::StorePid(None),
                EffectView::SetStatus(StatusView::Connecting),
            ]
        } else {
            seq![]
        }) + (if new.connection_mode != self.config.connection_mode || (self.reconnects(new)
            && new.connection_mode == ConnectionMode::Usb) {
            seq![EffectView::RemoveForward(self.config.adb_port)]
        } else {
            seq![]
        }) + (if self.config.connection_mode == ConnectionMode::Wifi && new.connection_mode
            == ConnectionMode::Usb {
            seq![EffectView::SetDiscoveredIp(None)]
        } else {
            seq![]
        })
    }

    /// After the phone was looked for over USB. One that has just come is not ready yet: its port
    /// has to be forwarded first.
    pub open spec fn after_usb_check(self, connected: bool) -> EngineView {
        if !connected && self.device_ready {
            EngineView { ffmpeg_running: false, device_ready: false, ..self }
        } else {
            self
        }
    }

    pub open spec fn usb_check_effects(self, connected: bool) -> Seq<EffectView> {
        if connected {
            seq![]
        } else if self.device_ready {
            seq![
                EffectView::KillFfmpeg,
                EffectView::StorePid(None),
                EffectView::RemoveForward(self.config.adb_port),
                EffectView::SetStatus(StatusView::WaitingDevice),
            ]
        } else {
            seq![EffectView::SetStatus(StatusView::WaitingDevice)]
        }
    }

    pub open spec fn after_forward(self, ok: bool) -> EngineView {
        EngineView { device_ready: self.device_ready || ok, ..self }
    }

    pub open spec fn forward_effects(ok: bool) -> Seq<EffectView> {
        if ok {
            seq![]
        } else {
            seq![EffectView::SetStatus(StatusView::Error("ADB forward falló"@))]
        }
    }

    /// After the phone was looked for over WiFi and `target` found.
    pub open spec fn after_wifi_check(self, target: Option<Seq<char>>) -> EngineView {
        match target {
            Some(ip) => if self.device_ready {
                self
            } else {
                EngineView { device_ready: true, wifi_target_ip: target, ..self }
            },
            None => if self.device_ready {
                EngineView { ffmpeg_running: false, ..self }.disconnected()
            } else {
                self
            },
        }
    }

    pub open spec fn wifi_check_effects(self, target: Option<Seq<char>>) -> Seq<EffectView> {
        seq![EffectView::SetDiscoveredIp(target)] + (if target is Some {
            seq![]
        } else if self.device_ready {
            seq![
                EffectView::KillFfmpeg,
                EffectView::StorePid(None),
                EffectView::SetStatus(StatusView::WaitingDevice),
            ]
        } else {
            seq![EffectView::SetStatus(StatusView::WaitingDevice)]
        })
    }

    pub open spec fn exit_effects() -> Seq<EffectView> {
        seq![
            EffectView::KillFfmpeg,
            EffectView::StorePid(None),
            EffectView::SetStatus(StatusView::Connecting),
            EffectView::Sleep(RESPAWN_DELAY),
        ]
    }

    pub open spec fn after_spawn(self, pid: Option<u32>) -> EngineView {
        EngineView { ffmpeg_running: self.ffmpeg_running || pid is Some, ..self }
    }

    pub open spec fn spawn_effects(pid: Option<u32>) -> Seq<EffectView> {
        match pid {
            Some(_) => seq![
                EffectView::StorePid(pid),
                EffectView::SetStatus(StatusView::Streaming),
            ],
            None => seq![
                EffectView::StorePid(None),
                EffectView::SetStatus(StatusView::Error("No se pudo iniciar FFmpeg"@)),
                EffectView::Sleep(SPAWN_FAIL_DELAY),
            ],
        }
    }

    /// Host that FFmpeg connects to.
    pub open spec fn stream_host(self) -> Seq<char> {
        match self.config.connection_mode {
            ConnectionMode::Usb => "localhost"@,
            ConnectionMode::Wifi => match self.wifi_target_ip {
                Some(ip) => ip,
                None => Seq::empty(),
            },
        }
    }

    /// Carries out `effects`, then waits for `next`.
    pub open spec fn turn(self, effects: Seq<EffectView>, next: RequestView) -> (
        EngineView,
        TurnView,
    ) {
        (EngineView { awaiting: next, ..self }, TurnView { effects, next })
    }

    /// The rest of a round, once the phone was looked for: see to FFmpeg.
    pub open spec fn mind_ffmpeg(self, effects: Seq<EffectView>) -> (EngineView, TurnView) {
        if !self.device_ready {
            self.turn(effects, RequestView::Tick)
        } else if self.ffmpeg_running {
            self.turn(effects, RequestView::FfmpegExited)
        } else {
            self.turn(
                effects.push(EffectView::SetStatus(StatusView::Connecting)),
                RequestView::Spawn(self.stream_host(), self.config.adb_port),
            )
        }
    }

    /// Whether `event` makes the next device check due at once.
    pub open spec fn forces_check(self, event: EventView) -> bool {
        match event {
            EventView::Command(Some(EngineCmdView::Start)) => true,
            EventView::Command(Some(EngineCmdView::UpdateConfig(new))) => self.reconnects(new),
            _ => false,
        }
    }

    /// What the engine does when `event` comes at `now`.
    pub open spec fn step(self, event: EventView, now: int) -> (EngineView, TurnView) {
        match event {
            EventView::Command(Some(EngineCmdView::Start)) => self.after_start(now).turn(
                seq![EffectView::SetStatus(StatusView::WaitingDevice)],
                RequestView::Command,
            ),
            EventView::Command(Some(EngineCmdView::Stop)) => self.after_stop().turn(
                self.stop_effects(),
                RequestView::Command,
            ),
            EventView::Command(Some(EngineCmdView::UpdateConfig(new))) => self.after_update(
                new,
                now,
            ).turn(self.update_effects(new), RequestView::Command),
            EventView::Command(None) => if !self.active {
                self.turn(seq![], RequestView::Tick)
            } else if self.check_due(now) {
                EngineView { last_check: now, ..self }.turn(
                    seq![],
                    match self.config.connection_mode {
                        ConnectionMode::Usb => RequestView::DeviceConnected,
                        ConnectionMode::Wifi => RequestView::Beacon,
                    },
                )
            } else {
                self.mind_ffmpeg(seq![])
            },
            EventView::DeviceConnected(connected) => if connected && !self.device_ready {
                self.turn(seq![], RequestView::Forward(self.config.adb_port))
            } else {
                self.after_usb_check(connected).mind_ffmpeg(self.usb_check_effects(connected))
            },
            EventView::Forwarded(ok) => self.after_forward(ok).mind_ffmpeg(
                Self::forward_effects(ok),
            ),
            EventView::Beacon(discovered) => {
                let target = wifi_target(self.config, discovered, now);
                self.after_wifi_check(target).mind_ffmpeg(self.wifi_check_effects(target))
            },
            EventView::FfmpegExited(exited) => if exited {
                EngineView { ffmpeg_running: false, ..self }.mind_ffmpeg(Self::exit_effects())
            } else {
                self.turn(seq![], RequestView::Tick)
            },
            EventView::Spawned(pid) => self.after_spawn(pid).turn(
                Self::spawn_effects(pid),
                RequestView::Tick,
            ),
            EventView::Ticked => self.turn(seq![], RequestView::Command),
        }
    }
}

/// Makes the next device check due at once.
pub fn force_immediate_check(last_check: &mut i64, now: i64)
    requires
        now - FORCE_CHECK_WINDOW >= i64::MIN,
    ensures
        *final(last_check) == now - FORCE_CHECK_WINDOW,
{
    *last_check = now - FORCE_CHECK_WINDOW;
}

fn clear_ffmpeg(effects: &mut Vec<Effect>, ffmpeg_running: &mut bool)
    ensures
        final(effects).deep_view() == old(effects).deep_view() + seq![
            EffectView::KillFfmpeg,
            EffectView::StorePid(None),
        ],
        !*final(ffmpeg_running),
{
    let ghost before = effects.deep_view();
    effects.push(Effect::KillFfmpeg);
    effects.push(Effect::StorePid(None));
    *ffmpeg_running = false;
    assert(effects.deep_view() =~= before + seq![
        EffectView::KillFfmpeg,
        EffectView::StorePid(None),
    ]);
}

pub(crate) fn show(effects: &mut Vec<Effect>, status: Status)
    ensures
        final(effects).deep_view() == old(effects).deep_view().push(
            EffectView::SetStatus(status@),
        ),
{
    let ghost before = effects.deep_view();
    effects.push(Effect::SetStatus(status));
    assert(effects.deep_view() =~= before.push(EffectView::SetStatus(status@)));
}

pub(crate) fn add_effect(effects: &mut Vec<Effect>, effect: Effect)
    ensures
        final(effects).deep_view() == old(effects).deep_view().push(effect.deep_view()),
{
    let ghost before = effects.deep_view();
    effects.push(effect);
    assert(effects.deep_view() =~= before.push(effect.deep_view()));
}

pub(crate) fn no_effects() -> (r: Vec<Effect>)
    ensures
        r.deep_view() == Seq::<EffectView>::empty(),
{
    let r: Vec<Effect> = Vec::new();
    assert(r.deep_view() =~= Seq::<EffectView>::empty());
    r
}

impl Engine {
    /// An engine that does nothing until the user starts it.
    pub fn new(config: Config, now: i64) -> (r: Engine)
        requires
            now - FORCE_CHECK_WINDOW >= i64::MIN,
        ensures
            r@ == EngineView::initial(config@, now as int),
    {
        Engine {
            config,
            active: false,
            stream: StreamState {
                ffmpeg_running: false,
                device_ready: false,
                wifi_target_ip: None,
                last_check: now - FORCE_CHECK_WINDOW,
            },
            awaiting: Request::Command,
        }
    }

    /// The user wants a stream.
    pub fn on_start(&mut self, now: i64) -> (r: Vec<Effect>)
        requires
            now - FORCE_CHECK_WINDOW >= i64::MIN,
        ensures
            final(self)@ == old(self)@.after_start(now as int),
            r.deep_view() == seq![EffectView::SetStatus(StatusView::WaitingDevice)],
    {
        self.active = true;
        force_immediate_check(&mut self.stream.last_check, now);
        let mut effects = no_effects();
        show(&mut effects, Status::WaitingDevice);
        assert(effects.deep_view() =~= seq![EffectView::SetStatus(StatusView::WaitingDevice)]);
        effects
    }

    /// The user wants no stream any more.
    pub fn on_stop(&mut self) -> (r: Vec<Effect>)
        ensures
            final(self)@ == old(self)@.after_stop(),
            r.deep_view() == old(self)@.stop_effects(),
    {
        let mut effects = no_effects();
        self.active = false;
        clear_ffmpeg(&mut effects, &mut self.stream.ffmpeg_running);
        if self.stream.device_ready && self.config.connection_mode == ConnectionMode::Usb {
            add_effect(&mut effects, Effect::RemoveForward(self.config.adb_port));
        }
        self.stream.device_ready = false;
        self.stream.wifi_target_ip = None;
        show(&mut effects, Status::Idle);
        add_effect(&mut effects, Effect::SetDiscoveredIp(None));
        assert(effects.deep_view() =~= old(self)@.stop_effects());
        effects
    }

    /// The user has chosen otherwise.
    pub fn on_update_config(&mut self, new_cfg: Config, now: i64) -> (r: Vec<Effect>)
        requires
            old(self)@.reconnects(new_cfg@) ==> now - FORCE_CHECK_WINDOW >= i64::MIN,
        ensures
            final(self)@ == old(self)@.after_update(new_cfg@, now as int),
            r.deep_view() == old(self)@.update_effects(new_cfg@),
    {
        let mode_changed: bool = new_cfg.connection_mode != self.config.connection_mode;
        let port_changed: bool = new_cfg.adb_port != self.config.adb_port;
        let old_port: u16 = self.config.adb_port;
        self.config = new_cfg;

        let mut effects = no_effects();
        if self.stream.ffmpeg_running {
            clear_ffmpeg(&mut effects, &mut self.stream.ffmpeg_running);
            show(&mut effects, Status::Connecting);
        }
        if mode_changed || port_changed {
            if mode_changed || self.config.connection_mode == ConnectionMode::Usb {
                add_effect(&mut effects, Effect::RemoveForward(old_port));
            }
            // The window shows an address over WiFi only.
            if mode_changed && self.config.connection_mode == ConnectionMode::Usb {
                add_effect(&mut effects, Effect::SetDiscoveredIp(None));
            }
            self.stream.device_ready = false;
            self.stream.wifi_target_ip = None;
            force_immediate_check(&mut self.stream.last_check, now);
        }
        assert(effects.deep_view() =~= old(self)@.update_effects(new_cfg@));
        effects
    }

    /// The phone was looked for over USB. Where it has just come, forwarding its port is up to the
    /// caller.
    pub fn poll_usb(&mut self, connected: bool) -> (r: Vec<Effect>)
        ensures
            final(self)@ == old(self)@.after_usb_check(connected),
            r.deep_view() == old(self)@.usb_check_effects(connected),
    {
        let mut effects = no_effects();
        if !connected && self.stream.device_ready {
            clear_ffmpeg(&mut effects, &mut self.stream.ffmpeg_running);
            add_effect(&mut effects, Effect::RemoveForward(self.config.adb_port));
            self.stream.device_ready = false;
            show(&mut effects, Status::WaitingDevice);
        } else if !connected {
            show(&mut effects, Status::WaitingDevice);
        }
        assert(effects.deep_view() =~= old(self)@.usb_check_effects(connected));
        effects
    }

    /// The phone's port was forwarded, or that failed.
    pub fn on_forwarded(&mut self, ok: bool) -> (r: Vec<Effect>)
        ensures
            final(self)@ == old(self)@.after_forward(ok),
            r.deep_view() == EngineView::forward_effects(ok),
    {
        let mut effects = no_effects();
        if ok {
            self.stream.device_ready = true;
        } else {
            show(&mut effects, Status::Error("ADB forward falló".to_string()));
        }
        assert(effects.deep_view() =~= EngineView::forward_effects(ok));
        effects
    }

    /// The phone was looked for over WiFi: `target` is its address, if it is known.
    pub fn poll_wifi(&mut self, target: Option<String>) -> (r: Vec<Effect>)
        ensures
            final(self)@ == old(self)@.after_wifi_check(text_view(target)),
            r.deep_view() == old(self)@.wifi_check_effects(text_view(target)),
    {
        let mut effects = no_effects();
        add_effect(&mut effects, Effect::SetDiscoveredIp(copy_text(&target)));
        match target {
            Some(ip) => {
                if !self.stream.device_ready {
                    self.stream.wifi_target_ip = Some(ip);
                    self.stream.device_ready = true;
                }
            },
            None => {
                if self.stream.device_ready {
                    clear_ffmpeg(&mut effects, &mut self.stream.ffmpeg_running);
                    self.stream.wifi_target_ip = None;
                    self.stream.device_ready = false;
                }
                show(&mut effects, Status::WaitingDevice);
            },
        }
        assert(effects.deep_view() =~= old(self)@.wifi_check_effects(text_view(target)));
        effects
    }

    /// FFmpeg was started, or that failed.
    pub fn on_spawned(&mut self, pid: Option<u32>) -> (r: Vec<Effect>)
        ensures
            final(self)@ == old(self)@.after_spawn(pid),
            r.deep_view() == EngineView::spawn_effects(pid),
    {
        let mut effects = no_effects();
        add_effect(&mut effects, Effect::StorePid(pid));
        if pid.is_some() {
            self.stream.ffmpeg_running = true;
            show(&mut effects, Status::Streaming);
        } else {
            show(&mut effects, Status::Error("No se pudo iniciar FFmpeg".to_string()));
            add_effect(&mut effects, Effect::Sleep(SPAWN_FAIL_DELAY));
        }
        assert(effects.deep_view() =~= EngineView::spawn_effects(pid));
        effects
    }

    /// Host that FFmpeg connects to.
    pub fn stream_host(&self) -> (r: String)
        ensures
            r@ == self@.stream_host(),
    {
        match self.config.connection_mode {
            ConnectionMode::Usb => "localhost".to_string(),
            ConnectionMode::Wifi => match &self.stream.wifi_target_ip {
                Some(ip) => ip.clone(),
                None => String::new(),
            },
        }
    }

    fn turn(&mut self, effects: Vec<Effect>, next: Request) -> (r: Turn)
        ensures
            (final(self)@, r@) == old(self)@.turn(effects.deep_view(), next@),
    {
        self.awaiting =
        match &next {
            Request::Command => Request::Command,
            Request::DeviceConnected => Request::DeviceConnected,
            Request::Forward(port) => Request::Forward(*port),
            Request::Beacon => Request::Beacon,
            Request::FfmpegExited => Request::FfmpegExited,
            Request::Spawn(host, port) => Request::Spawn(host.clone(), *port),
            Request::Tick => Request::Tick,
        };
        Turn { effects, next }
    }

    /// Sees to FFmpeg: asks after one that is held, starts one where none is.
    pub fn try_spawn_ffmpeg(&mut self, effects: Vec<Effect>) -> (r: Turn)
        ensures
            (final(self)@, r@) == old(self)@.mind_ffmpeg(effects.deep_view()),
    {
        if !self.stream.device_ready {
            self.turn(effects, Request::Tick)
        } else if self.stream.ffmpeg_running {
            self.turn(effects, Request::FfmpegExited)
        } else {
            let mut effects = effects;
            show(&mut effects, Status::Connecting);
            let host = self.stream_host();
            let port: u16 = self.config.adb_port;
            self.turn(effects, Request::Spawn(host, port))
        }
    }

    /// Takes the answer to the last request and says what to do next.
    pub fn step(&mut self, event: Event, now: i64) -> (r: Turn)
        requires
            event@.answers(old(self)@.awaiting),
            old(self)@.forces_check(event@) ==> now - FORCE_CHECK_WINDOW >= i64::MIN,
        ensures
            (final(self)@, r@) == old(self)@.step(event@, now as int),
    {
        match event {
            Event::Command(Some(EngineCmd::Start)) => {
                let effects = self.on_start(now);
                self.turn(effects, Request::Command)
            },
            Event::Command(Some(EngineCmd::Stop)) => {
                let effects = self.on_stop();
                self.turn(effects, Request::Command)
            },
            Event::Command(Some(EngineCmd::UpdateConfig(new_cfg))) => {
                let effects = self.on_update_config(new_cfg, now);
                self.turn(effects, Request::Command)
            },
            Event::Command(None) => {
                if !self.active {
                    self.turn(no_effects(), Request::Tick)
                } else if (now as i128) - (self.stream.last_check as i128)
                    >= DEVICE_CHECK_INTERVAL as i128 {
                    self.stream.last_check = now;
                    match self.config.connection_mode {
                        ConnectionMode::Usb => self.turn(no_effects(), Request::DeviceConnected),
                        ConnectionMode::Wifi => self.turn(no_effects(), Request::Beacon),
                    }
                } else {
                    self.try_spawn_ffmpeg(no_effects())
                }
            },
            Event::DeviceConnected(connected) => {
                if connected && !self.stream.device_ready {
                    let port: u16 = self.config.adb_port;
                    self.turn(no_effects(), Request::Forward(port))
                } else {
                    let effects = self.poll_usb(connected);
                    self.try_spawn_ffmpeg(effects)
                }
            },
            Event::Forwarded(ok) => {
                let effects = self.on_forwarded(ok);
                self.try_spawn_ffmpeg(effects)
            },
            Event::Beacon(discovered) => {
                let target = resolve_wifi_ip(&self.config, &discovered, now);
                let effects = self.poll_wifi(target);
                self.try_spawn_ffmpeg(effects)
            },
            Event::FfmpegExited(exited) => {
                if exited {
                    let mut effects = no_effects();
                    clear_ffmpeg(&mut effects, &mut self.stream.ffmpeg_running);
                    show(&mut effects, Status::Connecting);
                    add_effect(&mut effects, Effect::Sleep(RESPAWN_DELAY));
                    assert(effects.deep_view() =~= EngineView::exit_effects());
                    self.try_spawn_ffmpeg(effects)
                } else {
                    self.turn(no_effects(), Request::Tick)
                }
            },
            Event::Spawned(pid) => {
                let effects = self.on_spawned(pid);
                self.turn(effects, Request::Tick)
            },
            Event::Ticked => self.turn(no_effects(), Request::Command),
        }
    }
}

/// Each status has words of its own, and an error says which one it is.
pub proof fn every_status_has_its_words(error: Seq<char>)
    ensures
        StatusView::Idle.words() == "Detenido"@,
        StatusView::WaitingDevice.words() == "Esperando dispositivo…"@,
        StatusView::Connecting.words() == "Conectando…"@,
        StatusView::Streaming.words() == "● Transmitiendo"@,
        StatusView::Error(error).words() == "Error: "@ + error,
{
}

/// A round of the engine takes a fifth of a second of sleep, the phone is looked for every two
/// seconds, and a look that is forced is due whatever the clock says.
pub proof fn the_rounds_are_short_against_the_looks()
    ensures
        LOOP_TICK == 200,
        DEVICE_CHECK_INTERVAL == 2_000_000_000,
        FORCE_CHECK_WINDOW >= DEVICE_CHECK_INTERVAL,
{
}

/// The views of what goes into the engine and comes out of it hold all of it as it is.
pub proof fn views_keep_what_is_exchanged(
    status: Status,
    command: EngineCmd,
    effect: Effect,
    request: Request,
    event: Event,
    turn: Turn,
)
    ensures
        status@ is Idle <==> status is Idle,
        status@ is WaitingDevice <==> status is WaitingDevice,
        status@ is Connecting <==> status is Connecting,
        status@ is Streaming <==> status is Streaming,
        status matches Status::Error(e) ==> status@ == StatusView::Error(e@),
        command@ is Start <==> command is Start,
        command@ is Stop <==> command is Stop,
        command matches EngineCmd::UpdateConfig(c) ==> command@ == EngineCmdView::UpdateConfig(c@),
        effect.deep_view() is KillFfmpeg <==> effect is KillFfmpeg,
        effect matches Effect::StorePid(pid) ==> effect.deep_view() == EffectView::StorePid(pid),
        effect matches Effect::RemoveForward(port) ==> effect.deep_view()
            == EffectView::RemoveForward(port),
        effect matches Effect::SetStatus(s) ==> effect.deep_view() == EffectView::SetStatus(s@),
        effect matches Effect::SetDiscoveredIp(Some(ip)) ==> effect.deep_view()
            == EffectView::SetDiscoveredIp(Some(ip@)),
        effect == Effect::SetDiscoveredIp(None) ==> effect.deep_view()
            == EffectView::SetDiscoveredIp(None),
        effect matches Effect::Sleep(ms) ==> effect.deep_view() == EffectView::Sleep(ms),
        request@ is Command <==> request is Command,
        request@ is DeviceConnected <==> request is DeviceConnected,
        request matches Request::Forward(port) ==> request@ == RequestView::Forward(port),
        request@ is Beacon <==> request is Beacon,
        request@ is FfmpegExited <==> request is FfmpegExited,
        request matches Request::Spawn(host, port) ==> request@ == RequestView::Spawn(host@, port),
        request@ is Tick <==> request is Tick,
        event matches Event::Command(Some(c)) ==> event@ == EventView::Command(Some(c@)),
        event == Event::Command(None) ==> event@ == EventView::Command(None),
        event matches Event::DeviceConnected(c) ==> event@ == EventView::DeviceConnected(c),
        event matches Event::Forwarded(ok) ==> event@ == EventView::Forwarded(ok),
        event matches Event::Beacon(Some(d)) ==> event@ == EventView::Beacon(Some(d@)),
        event == Event::Beacon(None) ==> event@ == EventView::Beacon(None),
        event matches Event::FfmpegExited(e) ==> event@ == EventView::FfmpegExited(e),
        event matches Event::Spawned(pid) ==> event@ == EventView::Spawned(pid),
        event@ is Ticked <==> event is Ticked,
        turn@.next == turn.next@,
        turn@.effects.len() == turn.effects@.len(),
        forall|i: int|
            0 <= i < turn.effects@.len() ==> #[trigger] turn@.effects[i]
                == turn.effects@[i].deep_view(),
{
}

/// The view of an engine holds everything that it knows as it is.
pub proof fn a_view_keeps_the_engine(engine: Engine)
    ensures
        engine@.config == engine.config@,
        engine@.active == engine.active,
        engine@.ffmpeg_running == engine.stream.ffmpeg_running,
        engine@.device_ready == engine.stream.device_ready,
        engine.stream.wifi_target_ip matches Some(ip) ==> engine@.wifi_target_ip == Some(ip@),
        engine.stream.wifi_target_ip is None ==> engine@.wifi_target_ip is None,
        engine@.last_check == engine.stream.last_check,
        engine@.awaiting == engine.awaiting@,
{
}

} // verus!
