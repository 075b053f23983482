//! The window: colours and words, what its controls do, and what happens when it closes.
use vstd::prelude::*;
use vstd::string::*;

use crate::config::{Config, ConfigView, ConnectionMode, ZOOM_ONE_BITS};
use crate::engine::{EngineCmd, EngineCmdView, Status, StatusView};
use crate::outside::System;
use crate::text;
use crate::text::push_dec;

verus! {

// ── Colours and words ────────────────────────────────────────────────────────
/// The colours of the window (Catppuccin Mocha).
#[derive(Clone, Copy, PartialEq, Eq, Structural, Debug)]
pub enum Shade {
    Base,
    Mantle,
    Surface0,
    Text,
    Green,
    Yellow,
    Red,
    Peach,
    Overlay,
    Blue,
}

impl Shade {
    /// Red, green and blue.
    pub open spec fn components(self) -> (u8, u8, u8) {
        match self {
            Shade::Base => (30, 30, 46),
            Shade::Mantle => (24, 24, 37),
            Shade::Surface0 => (49, 50, 68),
            Shade::Text => (205, 214, 244),
            Shade::Green => (166, 227, 161),
            Shade::Yellow => (249, 226, 175),
            Shade::Red => (243, 139, 168),
            Shade::Peach => (250, 179, 135),
            Shade::Overlay => (108, 112, 134),
            Shade::Blue => (137, 180, 250),
        }
    }

    /// Red, green and blue.
    pub fn rgb(self) -> (r: (u8, u8, u8))
        ensures
            r == self.components(),
    {
        match self {
            Shade::Base => (30, 30, 46),
            Shade::Mantle => (24, 24, 37),
            Shade::Surface0 => (49, 50, 68),
            Shade::Text => (205, 214, 244),
            Shade::Green => (166, 227, 161),
            Shade::Yellow => (249, 226, 175),
            Shade::Red => (243, 139, 168),
            Shade::Peach => (250, 179, 135),
            Shade::Overlay => (108, 112, 134),
            Shade::Blue => (137, 180, 250),
        }
    }
}

/// The colour of a status in the header.
pub fn status_color(s: &Status) -> (r: Shade)
    ensures
        r == match s@ {
            StatusView::Streaming => Shade::Green,
            StatusView::WaitingDevice => Shade::Yellow,
            StatusView::Connecting => Shade::Yellow,
            StatusView::Error(_) => Shade::Red,
            StatusView::Idle => Shade::Text,
        },
{
    match s {
        Status::Streaming => Shade::Green,
        Status::WaitingDevice => Shade::Yellow,
        Status::Connecting => Shade::Yellow,
        Status::Error(_) => Shade::Red,
        Status::Idle => Shade::Text,
    }
}

/// Colours of a button that can be selected.
#[derive(PartialEq, Eq, Debug)]
pub struct ButtonColors<T> {
    pub background: T,
    pub label: T,
    pub border: T,
}

/// Colours of a selectable button out of a given palette. A selected button is framed in the colour
/// of its label.
pub fn selectable_btn<T: Copy>(
    selected: bool,
    selected_bg: T,
    idle_bg: T,
    selected_fg: T,
    idle_fg: T,
    border: T,
) -> (r: ButtonColors<T>)
    ensures
        r == if selected {
            ButtonColors { background: selected_bg, label: selected_fg, border: selected_fg }
        } else {
            ButtonColors { background: idle_bg, label: idle_fg, border }
        },
{
    if selected {
        ButtonColors { background: selected_bg, label: selected_fg, border: selected_fg }
    } else {
        ButtonColors { background: idle_bg, label: idle_fg, border }
    }
}

/// Colours of the selectable buttons of this window.
pub fn selector_colors(selected: bool) -> (r: ButtonColors<Shade>)
    ensures
        r == if selected {
            ButtonColors {
                background: Shade::Surface0,
                label: Shade::Text,
                border: Shade::Text,
            }
        } else {
            ButtonColors {
                background: Shade::Mantle,
                label: Shade::Overlay,
                border: Shade::Surface0,
            }
        },
{
    selectable_btn(
        selected,
        Shade::Surface0,
        Shade::Mantle,
        Shade::Text,
        Shade::Overlay,
        Shade::Surface0,
    )
}

/// Label of the button that turns the picture by so many degrees.
pub fn rotation_label(degrees: u32) -> (r: String)
    ensures
        r@ == text::dec(degrees as nat) + "°"@,
{
    let mut out = String::new();
    push_dec(&mut out, degrees as u64);
    out.append("°");
    assert(out@ =~= text::dec(degrees as nat) + "°"@);
    out
}

/// What stands in the address field while it is empty.
pub fn ip_hint(discovered: &Option<String>) -> (r: String)
    ensures
        r@ == match *discovered {
            Some(ip) => ip@ + "  (auto)"@,
            None => "Buscando…"@,
        },
{
    match discovered {
        Some(ip) => {
            let mut out = ip.clone();
            out.append("  (auto)");
            out
        },
        None => "Buscando…".to_string(),
    }
}

/// What stands on the canvas while there is no picture.
pub fn canvas_message(started: bool) -> (r: String)
    ensures
        r@ == if started {
            "Esperando stream del teléfono…"@
        } else {
            "Presiona ▶ Iniciar para comenzar"@
        },
{
    if started {
        "Esperando stream del teléfono…".to_string()
    } else {
        "Presiona ▶ Iniciar para comenzar".to_string()
    }
}

// ── Controls ─────────────────────────────────────────────────────────────────
/// The lowest frame rate that can be chosen.
pub const FPS_MIN: u32 = 5;

/// The highest frame rate that can be chosen.
pub const FPS_MAX: u32 = 30;

/// Bit pattern of the single-precision number 4: the strongest zoom that can be chosen.
pub const ZOOM_MAX_BITS: u32 = 0x4080_0000;

/// The angles, in degrees, that the picture can be turned by.
pub open spec fn angles() -> Seq<u32> {
    seq![0, 90, 180, 270]
}

/// The angles, in degrees, that the picture can be turned by: one button each, in this order.
pub fn rotations() -> (r: [u32; 4])
    ensures
        r@ == angles(),
{
    let r: [u32; 4] = [0, 90, 180, 270];
    assert(r@ =~= angles());
    r
}

/// Something that the user did to a control.
#[derive(PartialEq, Debug)]
pub enum PanelEvent {
    /// The frame rate slider was moved to this value.
    FpsMoved(u32),
    /// The frame rate slider was let go.
    FpsReleased,
    RotationChosen(u32),
    ModeChosen(ConnectionMode),
    /// The address field holds this text now.
    IpEdited(String),
    /// The address field lost the focus.
    IpLeft,
    /// The address was cleared by its button.
    IpCleared,
    /// The zoom slider was moved to this value.
    ZoomMoved(u32),
    /// The button for no zoom was pressed.
    ZoomReset,
    StartPressed,
    StopPressed,
    ExitPressed,
}

pub enum PanelEventView {
    FpsMoved(u32),
    FpsReleased,
    RotationChosen(u32),
    ModeChosen(ConnectionMode),
    IpEdited(Seq<char>),
    IpLeft,
    IpCleared,
    ZoomMoved(u32),
    ZoomReset,
    StartPressed,
    StopPressed,
    ExitPressed,
}

impl DeepView for PanelEvent {
    type V = PanelEventView;

    open spec fn deep_view(&self) -> PanelEventView {
        match self {
            PanelEvent::FpsMoved(fps) => PanelEventView::FpsMoved(*fps),
            PanelEvent::FpsReleased => PanelEventView::FpsReleased,
            PanelEvent::RotationChosen(deg) => PanelEventView::RotationChosen(*deg),
            PanelEvent::ModeChosen(mode) => PanelEventView::ModeChosen(*mode),
            PanelEvent::IpEdited(ip) => PanelEventView::IpEdited(ip@),
            PanelEvent::IpLeft => PanelEventView::IpLeft,
            PanelEvent::IpCleared => PanelEventView::IpCleared,
            PanelEvent::ZoomMoved(bits) => PanelEventView::ZoomMoved(*bits),
            PanelEvent::ZoomReset => PanelEventView::ZoomReset,
            PanelEvent::StartPressed => PanelEventView::StartPressed,
            PanelEvent::StopPressed => PanelEventView::StopPressed,
            PanelEvent::ExitPressed => PanelEventView::ExitPressed,
        }
    }
}

/// Something that the window has to carry out.
#[derive(PartialEq, Debug)]
pub enum PanelEffect {
    /// Send a command to the engine.
    Send(EngineCmd),
    /// Write the configuration to its file.
    SaveConfig,
    /// Close the window.
    Close,
    /// Kill this process.
    KillPid(u32),
    /// Drop the forwarding of this port.
    RemoveForward(u16),
}

pub enum PanelEffectView {
    Send(EngineCmdView),
    SaveConfig,
    Close,
    KillPid(u32),
    RemoveForward(u16),
}

impl DeepView for PanelEffect {
    type V = PanelEffectView;

    open spec fn deep_view(&self) -> PanelEffectView {
        match self {
            PanelEffect::Send(c) => PanelEffectView::Send(c@),
            PanelEffect::SaveConfig => PanelEffectView::SaveConfig,
            PanelEffect::Close => PanelEffectView::Close,
            PanelEffect::KillPid(pid) => PanelEffectView::KillPid(*pid),
            PanelEffect::RemoveForward(port) => PanelEffectView::RemoveForward(*port),
        }
    }
}

/// What changed in the configuration while the controls were drawn once.
#[derive(Clone, Copy, PartialEq, Eq, Structural, Debug)]
pub struct ConfigUpdate {
    /// Something that the stream depends on.
    pub stream_relevant: bool,
    /// The zoom.
    pub zoom_only: bool,
}

/// What the window knows.
#[derive(PartialEq, Debug)]
pub struct Panel {
    pub config: Config,
    /// Whether the user wants a stream.
    pub started: bool,
    /// Whether a picture is shown.
    pub preview_shown: bool,
}

pub struct PanelView {
    pub config: ConfigView,
    pub started: bool,
    pub preview_shown: bool,
}

impl View for Panel {
    type V = PanelView;

    open spec fn view(&self) -> PanelView {
        PanelView {
            config: self.config@,
            started: self.started,
            preview_shown: self.preview_shown,
        }
    }
}

impl PanelView {
    /// The window after the user did something to a control.
    pub open spec fn after(self, event: PanelEventView) -> PanelView {
        match event {
            PanelEventView::FpsMoved(fps) => PanelView {
                config: ConfigView { fps, ..self.config },
                ..self
            },
            PanelEventView::RotationChosen(rotation) => PanelView {
                config: ConfigView { rotation, ..self.config },
                ..self
            },
            PanelEventView::ModeChosen(connection_mode) => PanelView {
                config: ConfigView { connection_mode, ..self.config },
                ..self
            },
            PanelEventView::IpEdited(wifi_ip) => PanelView {
                config: ConfigView { wifi_ip, ..self.config },
                ..self
            },
            PanelEventView::IpCleared => PanelView {
                config: ConfigView { wifi_ip: Seq::empty(), ..self.config },
                ..self
            },
            PanelEventView::ZoomMoved(zoom_bits) => PanelView {
                config: ConfigView { zoom_bits, ..self.config },
                ..self
            },
            PanelEventView::ZoomReset => PanelView {
                config: ConfigView { zoom_bits: ZOOM_ONE_BITS, ..self.config },
                ..self
            },
            PanelEventView::StartPressed => PanelView { started: true, ..self },
            PanelEventView::StopPressed => PanelView {
                started: false,
                preview_shown: false,
                ..self
            },
            PanelEventView::FpsReleased | PanelEventView::IpLeft | PanelEventView::ExitPressed => {
                self
            },
        }
    }

    /// Whether the window offers the user to do this: the sliders have their ranges, there is one
    /// button per angle, the address field is there over WiFi only and its button only while it
    /// holds something, and of the buttons to start and to stop there is the one that makes sense.
    /// Positive single-precision numbers are ordered as their bit patterns are.
    pub open spec fn offers(self, event: PanelEventView) -> bool {
        match event {
            PanelEventView::FpsMoved(fps) => FPS_MIN <= fps <= FPS_MAX,
            PanelEventView::RotationChosen(rotation) => angles().contains(rotation),
            PanelEventView::IpEdited(_) => self.config.connection_mode == ConnectionMode::Wifi,
            PanelEventView::IpLeft => self.config.connection_mode == ConnectionMode::Wifi,
            PanelEventView::IpCleared => self.config.connection_mode == ConnectionMode::Wifi
                && self.config.wifi_ip.len() > 0,
            PanelEventView::ZoomMoved(bits) => ZOOM_ONE_BITS <= bits <= ZOOM_MAX_BITS,
            PanelEventView::StartPressed => !self.started,
            PanelEventView::StopPressed => self.started,
            PanelEventView::FpsReleased => true,
            PanelEventView::ModeChosen(_) => true,
            PanelEventView::ZoomReset => true,
            PanelEventView::ExitPressed => true,
        }
    }

    /// Whether frame rate, angle and zoom are such as can be chosen.
    pub open spec fn is_within_ranges(self) -> bool {
        &&& FPS_MIN <= self.config.fps <= FPS_MAX
        &&& angles().contains(self.config.rotation)
        &&& ZOOM_ONE_BITS <= self.config.zoom_bits <= ZOOM_MAX_BITS
    }

    /// The window after the first `n` of `events`.
    pub open spec fn after_first(self, events: Seq<PanelEventView>, n: nat) -> PanelView
        decreases n,
    {
        if n == 0 {
            self
        } else {
            self.after_first(events, (n - 1) as nat).after(events[n - 1])
        }
    }
}

impl PanelEventView {
    /// Whether the stream depends on what the user did.
    pub open spec fn is_stream_relevant(self) -> bool {
        match self {
            PanelEventView::FpsReleased => true,
            PanelEventView::RotationChosen(_) => true,
            PanelEventView::ModeChosen(_) => true,
            PanelEventView::IpLeft => true,
            PanelEventView::IpCleared => true,
            _ => false,
        }
    }

    /// Whether the user changed the zoom.
    pub open spec fn is_zoom(self) -> bool {
        self is ZoomMoved || self is ZoomReset
    }

    /// What the buttons do at once.
    pub open spec fn effects(self) -> Seq<PanelEffectView> {
        match self {
            PanelEventView::StartPressed => seq![PanelEffectView::Send(EngineCmdView::Start)],
            PanelEventView::StopPressed => seq![PanelEffectView::Send(EngineCmdView::Stop)],
            PanelEventView::ExitPressed => seq![
                PanelEffectView::Send(EngineCmdView::Stop),
                PanelEffectView::Close,
            ],
            _ => seq![],
        }
    }
}

/// What the buttons among the first `n` of `events` do, in order.
pub open spec fn button_effects(events: Seq<PanelEventView>, n: nat) -> Seq<PanelEffectView>
    decreases n,
{
    if n == 0 {
        seq![]
    } else {
        button_effects(events, (n - 1) as nat) + events[n - 1].effects()
    }
}

/// What changed in the course of the first `n` of `events`.
pub open spec fn update_of(events: Seq<PanelEventView>, n: nat) -> ConfigUpdate
    decreases n,
{
    if n == 0 {
        ConfigUpdate { stream_relevant: false, zoom_only: false }
    } else {
        let before = update_of(events, (n - 1) as nat);
        ConfigUpdate {
            stream_relevant: before.stream_relevant || events[n - 1].is_stream_relevant(),
            zoom_only: before.zoom_only || events[n - 1].is_zoom(),
        }
    }
}

impl PanelView {
    /// What follows a change: it is saved, and the engine learns of it if the stream depends on it
    /// and is wanted.
    pub open spec fn update_effects(self, update: ConfigUpdate) -> Seq<PanelEffectView> {
        if !(update.stream_relevant || update.zoom_only) {
            seq![]
        } else if update.stream_relevant && self.started {
            seq![
                PanelEffectView::SaveConfig,
                PanelEffectView::Send(EngineCmdView::UpdateConfig(self.config)),
            ]
        } else {
            seq![PanelEffectView::SaveConfig]
        }
    }

    /// What happens when the window closes. The engine may be asleep, so its FFmpeg is killed from
    /// here; a forwarded port exists over USB only.
    pub open spec fn exit_effects(self, ffmpeg_pid: Option<u32>) -> Seq<PanelEffectView> {
        seq![PanelEffectView::Send(EngineCmdView::Stop)] + (match ffmpeg_pid {
            Some(pid) => seq![PanelEffectView::KillPid(pid)],
            None => seq![],
        }) + (if self.config.connection_mode == ConnectionMode::Usb {
            seq![PanelEffectView::RemoveForward(self.config.adb_port)]
        } else {
            seq![]
        }) + seq![PanelEffectView::SaveConfig]
    }
}

impl Panel {
    /// The window with a configuration, before anything happened.
    pub fn new(config: Config) -> (r: Panel)
        ensures
            r@ == (PanelView { config: config@, started: false, preview_shown: false }),
    {
        Panel { config, started: false, preview_shown: false }
    }

    /// Whether the window offers the user to do this.
    pub fn offers(&self, event: &PanelEvent) -> (r: bool)
        ensures
            r == self@.offers(event.deep_view()),
    {
        match event {
            PanelEvent::FpsMoved(fps) => FPS_MIN <= *fps && *fps <= FPS_MAX,
            PanelEvent::RotationChosen(deg) => {
                let deg: u32 = *deg;
                proof {
                    assert(angles()[0] == 0 && angles()[1] == 90);
                    assert(angles()[2] == 180 && angles()[3] == 270);
                }
                deg == 0 || deg == 90 || deg == 180 || deg == 270
            },
            PanelEvent::IpEdited(_) => self.config.connection_mode == ConnectionMode::Wifi,
            PanelEvent::IpLeft => self.config.connection_mode == ConnectionMode::Wifi,
            PanelEvent::IpCleared => self.config.connection_mode == ConnectionMode::Wifi
                && !self.config.wifi_ip.as_str().is_empty(),
            PanelEvent::ZoomMoved(bits) => ZOOM_ONE_BITS <= *bits && *bits <= ZOOM_MAX_BITS,
            PanelEvent::StartPressed => !self.started,
            PanelEvent::StopPressed => self.started,
            PanelEvent::FpsReleased => true,
            PanelEvent::ModeChosen(_) => true,
            PanelEvent::ZoomReset => true,
            PanelEvent::ExitPressed => true,
        }
    }

    /// Takes the previews that came since the window was last drawn, the oldest first, and returns
    /// the one to show: the newest.
    pub fn refresh_preview(&mut self, frames: Vec<Vec<u8>>) -> (r: Option<Vec<u8>>)
        ensures
            final(self)@ == (PanelView {
                preview_shown: old(self)@.preview_shown || frames@.len() > 0,
                ..old(self)@
            }),
            r == if frames@.len() > 0 {
                Some(frames@.last())
            } else {
                None
            },
    {
        let mut frames = frames;
        let latest = frames.pop();
        if latest.is_some() {
            self.preview_shown = true;
        }
        latest
    }

    fn take(&mut self, event: &PanelEvent, update: &mut ConfigUpdate, effects: &mut Vec<PanelEffect>)
        ensures
            final(self)@ == old(self)@.after(event.deep_view()),
            final(effects).deep_view() == old(effects).deep_view() + event.deep_view().effects(),
            final(update).stream_relevant == (old(update).stream_relevant
                || event.deep_view().is_stream_relevant()),
            final(update).zoom_only == (old(update).zoom_only || event.deep_view().is_zoom()),
    {
        let ghost before = effects.deep_view();
        match event {
            PanelEvent::FpsMoved(fps) => {
                self.config.fps = *fps;
            },
            PanelEvent::FpsReleased => {
                update.stream_relevant = true;
            },
            PanelEvent::RotationChosen(deg) => {
                self.config.rotation = *deg;
                update.stream_relevant = true;
            },
            PanelEvent::ModeChosen(mode) => {
                self.config.connection_mode = *mode;
                update.stream_relevant = true;
            },
            PanelEvent::IpEdited(ip) => {
                self.config.wifi_ip = ip.clone();
            },
            PanelEvent::IpLeft => {
                update.stream_relevant = true;
            },
            PanelEvent::IpCleared => {
                self.config.wifi_ip = String::new();
                update.stream_relevant = true;
            },
            PanelEvent::ZoomMoved(bits) => {
                self.config.zoom_bits = *bits;
                update.zoom_only = true;
            },
            PanelEvent::ZoomReset => {
                self.config.zoom_bits = ZOOM_ONE_BITS;
                update.zoom_only = true;
            },
            PanelEvent::StartPressed => {
                self.started = true;
                effects.push(PanelEffect::Send(EngineCmd::Start));
            },
            PanelEvent::StopPressed => {
                self.started = false;
                self.preview_shown = false;
                effects.push(PanelEffect::Send(EngineCmd::Stop));
            },
            PanelEvent::ExitPressed => {
                effects.push(PanelEffect::Send(EngineCmd::Stop));
                effects.push(PanelEffect::Close);
            },
        }
        assert(effects.deep_view() =~= before + event.deep_view().effects());
    }

    /// Follows up on a change of the configuration.
    pub fn apply_config_update(&self, update: ConfigUpdate) -> (r: Vec<PanelEffect>)
        ensures
            r.deep_view() == self@.update_effects(update),
    {
        let mut effects: Vec<PanelEffect> = Vec::new();
        if update.stream_relevant || update.zoom_only {
            effects.push(PanelEffect::SaveConfig);
            if update.stream_relevant && self.started {
                effects.push(PanelEffect::Send(EngineCmd::UpdateConfig(self.config.clone())));
            }
        }
        assert(effects.deep_view() =~= self@.update_effects(update));
        effects
    }

    /// Takes all that the user did while the controls were drawn once, in order, and says what the
    /// window has to carry out.
    pub fn render_controls(&mut self, events: &Vec<PanelEvent>) -> (r: Vec<PanelEffect>)
        ensures
            final(self)@ == old(self)@.after_first(events.deep_view(), events@.len()),
            r.deep_view() == button_effects(events.deep_view(), events@.len())
                + final(self)@.update_effects(update_of(events.deep_view(), events@.len())),
    {
        let ghost did = events.deep_view();
        let ghost start = self@;
        let mut update = ConfigUpdate { stream_relevant: false, zoom_only: false };
        let mut effects: Vec<PanelEffect> = Vec::new();
        assert(effects.deep_view() =~= seq![]);
        let mut i: usize = 0;
        while i < events.len()
            invariant
                i <= events.len(),
                did == events.deep_view(),
                self@ == start.after_first(did, i as nat),
                update == update_of(did, i as nat),
                effects.deep_view() == button_effects(did, i as nat),
            decreases events.len() - i,
        {
            self.take(&events[i], &mut update, &mut effects);
            i += 1;
        }
        let mut follow_up = self.apply_config_update(update);
        let ghost first = effects.deep_view();
        let ghost second = follow_up.deep_view();
        effects.append(&mut follow_up);
        assert(effects.deep_view() =~= first + second);
        effects
    }

    /// The wheel was turned over the picture, and the zoom is this now.
    pub fn apply_scroll_zoom(&mut self, zoom_bits: u32) -> (r: Vec<PanelEffect>)
        ensures
            final(self)@ == old(self)@.after(PanelEventView::ZoomMoved(zoom_bits)),
            r.deep_view() == seq![PanelEffectView::SaveConfig],
    {
        self.config.zoom_bits = zoom_bits;
        let mut effects: Vec<PanelEffect> = Vec::new();
        effects.push(PanelEffect::SaveConfig);
        assert(effects.deep_view() =~= seq![PanelEffectView::SaveConfig]);
        effects
    }

    /// The window closes; `ffmpeg_pid` is the FFmpeg that the engine has noted.
    pub fn on_exit(&self, ffmpeg_pid: Option<u32>) -> (r: Vec<PanelEffect>)
        ensures
            r.deep_view() == self@.exit_effects(ffmpeg_pid),
    {
        let mut effects: Vec<PanelEffect> = Vec::new();
        effects.push(PanelEffect::Send(EngineCmd::Stop));
        if let Some(pid) = ffmpeg_pid {
            effects.push(PanelEffect::KillPid(pid));
        }
        if self.config.connection_mode == ConnectionMode::Usb {
            effects.push(PanelEffect::RemoveForward(self.config.adb_port));
        }
        effects.push(PanelEffect::SaveConfig);
        assert(effects.deep_view() =~= self@.exit_effects(ffmpeg_pid));
        effects
    }
}

// ── What the user relies on ──────────────────────────────────────────────────
/// Every change is saved, and saved once. The engine learns of it only while the user wants a
/// stream, only if the stream depends on it, and then it gets the configuration as it stands.
pub proof fn changes_are_saved_and_passed_on(panel: PanelView, update: ConfigUpdate)
    ensures
        ({
            let effects = panel.update_effects(update);
            &&& effects.contains(PanelEffectView::SaveConfig) <==> (update.stream_relevant
                || update.zoom_only)
            &&& forall|i: int, j: int|
                0 <= i < j < effects.len() ==> !(#[trigger] effects[i] is SaveConfig
                    && #[trigger] effects[j] is SaveConfig)
            &&& forall|i: int|
                0 <= i < effects.len() && #[trigger] effects[i] is Send ==> {
                    &&& update.stream_relevant
                    &&& panel.started
                    &&& effects[i] == PanelEffectView::Send(
                        EngineCmdView::UpdateConfig(panel.config),
                    )
                }
            &&& update.stream_relevant && panel.started ==> effects.contains(
                PanelEffectView::Send(EngineCmdView::UpdateConfig(panel.config)),
            )
        }),
{
    let effects = panel.update_effects(update);
    if update.stream_relevant || update.zoom_only {
        assert(effects[0] == PanelEffectView::SaveConfig);
    }
    if update.stream_relevant && panel.started {
        assert(effects[1] == PanelEffectView::Send(EngineCmdView::UpdateConfig(panel.config)));
    }
}

/// At every moment the window offers to start or to stop, and never both.
pub proof fn either_start_or_stop_is_offered(panel: PanelView)
    ensures
        panel.offers(PanelEventView::StartPressed) <==> !panel.started,
        panel.offers(PanelEventView::StopPressed) <==> panel.started,
        panel.offers(PanelEventView::StartPressed) <==> !panel.offers(PanelEventView::StopPressed),
{
}

/// Whatever the user does with the controls that the window offers, frame rate, angle and zoom stay
/// such as can be chosen.
pub proof fn offered_controls_keep_the_ranges(panel: PanelView, events: Seq<PanelEventView>, n: nat)
    requires
        n <= events.len(),
        panel.is_within_ranges(),
        forall|k: int|
            0 <= k < n ==> panel.after_first(events, k as nat).offers(#[trigger] events[k]),
    ensures
        panel.after_first(events, n).is_within_ranges(),
    decreases n,
{
    if n > 0 {
        offered_controls_keep_the_ranges(panel, events, (n - 1) as nat);
        assert(panel.after_first(events, (n - 1) as nat).offers(events[n - 1]));
    }
}

/// Zooming is the window's own affair: nothing that the user does to the zoom reaches the engine.
pub proof fn zooming_is_not_passed_on(panel: PanelView, events: Seq<PanelEventView>, n: nat)
    requires
        n <= events.len(),
        forall|i: int| 0 <= i < n ==> (#[trigger] events[i]).is_zoom(),
    ensures
        button_effects(events, n).len() == 0,
        !update_of(events, n).stream_relevant,
        forall|i: int|
            0 <= i < panel.update_effects(update_of(events, n)).len()
                ==> #[trigger] panel.update_effects(update_of(events, n))[i] is SaveConfig,
    decreases n,
{
    if n > 0 {
        zooming_is_not_passed_on(panel, events, (n - 1) as nat);
        assert(events[n - 1].is_zoom());
    }
}

/// Closing the window leaves no FFmpeg behind and no port forwarded, even if the engine never gets
/// to run again: the FFmpeg that runs is killed, and every port that is forwarded is given up. A
/// change that the engine has not taken yet is the one thing that can hide a port from the window.
pub proof fn closing_leaves_nothing_behind(panel: PanelView, system: System)
    requires
        system.is_sound(),
        system.engine.device_ready ==> panel.config.connection_mode
            == system.engine.config.connection_mode && panel.config.adb_port
            == system.engine.config.adb_port,
    ensures
        ({
            let effects = panel.exit_effects(system.outside.pid);
            &&& system.outside.child matches Some(pid) ==> effects.contains(
                PanelEffectView::KillPid(pid),
            )
            &&& forall|port: u16|
                system.outside.forwards.contains(port) ==> #[trigger] effects.contains(
                    PanelEffectView::RemoveForward(port),
                )
            &&& effects.contains(PanelEffectView::SaveConfig)
        }),
{
    reveal(System::is_sound);
    let effects = panel.exit_effects(system.outside.pid);
    if system.outside.child is Some {
        assert(effects[1] == PanelEffectView::KillPid(system.outside.child->0));
    }
    if panel.config.connection_mode == ConnectionMode::Usb {
        assert(effects[effects.len() - 2] == PanelEffectView::RemoveForward(
            panel.config.adb_port,
        ));
    }
    assert(effects.last() == PanelEffectView::SaveConfig);
}

/// A finished choice of the user: the frame rate slider let go, an angle or a way to the phone
/// chosen, the address left or cleared. Moving the slider and typing the address are not finished.
pub open spec fn is_finished_choice(event: PanelEventView) -> bool {
    event is FpsReleased || event is RotationChosen || event is ModeChosen || event is IpLeft
        || event is IpCleared
}

/// Everything that the window carries out after the controls were drawn once and the user did
/// `events`.
pub open spec fn carried_out(panel: PanelView, events: Seq<PanelEventView>) -> Seq<PanelEffectView> {
    button_effects(events, events.len()) + panel.after_first(events, events.len()).update_effects(
        update_of(events, events.len()),
    )
}

proof fn lemma_update_flags(events: Seq<PanelEventView>, n: nat)
    requires
        n <= events.len(),
    ensures
        update_of(events, n).stream_relevant <==> exists|k: int|
            0 <= k < n && is_finished_choice(#[trigger] events[k]),
        update_of(events, n).zoom_only <==> exists|k: int|
            0 <= k < n && (#[trigger] events[k] is ZoomMoved || events[k] is ZoomReset),
    decreases n,
{
    if n > 0 {
        let m = (n - 1) as nat;
        lemma_update_flags(events, m);
        let last = events[n - 1];
        if is_finished_choice(last) {
            assert(is_finished_choice(events[n - 1]));
        }
        if last is ZoomMoved || last is ZoomReset {
            assert(events[n - 1] is ZoomMoved || events[n - 1] is ZoomReset);
        }
        if exists|k: int| 0 <= k < m && is_finished_choice(#[trigger] events[k]) {
            let k = choose|k: int| 0 <= k < m && is_finished_choice(#[trigger] events[k]);
            assert(0 <= k < n && is_finished_choice(events[k]));
        }
        if exists|k: int|
            0 <= k < m && (#[trigger] events[k] is ZoomMoved || events[k] is ZoomReset) {
            let k = choose|k: int|
                0 <= k < m && (#[trigger] events[k] is ZoomMoved || events[k] is ZoomReset);
            assert(0 <= k < n && (events[k] is ZoomMoved || events[k] is ZoomReset));
        }
    }
}

proof fn lemma_buttons_save_nothing(events: Seq<PanelEventView>, n: nat)
    requires
        n <= events.len(),
    ensures
        forall|i: int|
            0 <= i < button_effects(events, n).len() ==> {
                let effect = #[trigger] button_effects(events, n)[i];
                ||| effect == PanelEffectView::Send(EngineCmdView::Start)
                ||| effect == PanelEffectView::Send(EngineCmdView::Stop)
                ||| effect == PanelEffectView::Close
            },
    decreases n,
{
    if n > 0 {
        lemma_buttons_save_nothing(events, (n - 1) as nat);
    }
}

/// A finished choice is saved, and passed on to the engine as the configuration stands while the
/// user wants a stream. A change of the zoom is saved. Nothing else is saved or passed on.
pub proof fn finished_choices_are_saved_and_passed_on(
    panel: PanelView,
    events: Seq<PanelEventView>,
)
    ensures
        ({
            let effects = carried_out(panel, events);
            let after = panel.after_first(events, events.len());
            let chosen = exists|k: int|
                0 <= k < events.len() && is_finished_choice(#[trigger] events[k]);
            let zoomed = exists|k: int|
                0 <= k < events.len() && (#[trigger] events[k] is ZoomMoved
                    || events[k] is ZoomReset);
            &&& effects.contains(PanelEffectView::SaveConfig) <==> chosen || zoomed
            &&& forall|config: ConfigView|
                #[trigger] effects.contains(
                    PanelEffectView::Send(EngineCmdView::UpdateConfig(config)),
                ) <==> chosen && after.started && config == after.config
        }),
{
    let n = events.len();
    lemma_update_flags(events, n);
    lemma_buttons_save_nothing(events, n);
    let buttons = button_effects(events, n);
    let after = panel.after_first(events, n);
    let update = update_of(events, n);
    let follow = after.update_effects(update);
    let effects = carried_out(panel, events);
    let save = PanelEffectView::SaveConfig;
    let send = PanelEffectView::Send(EngineCmdView::UpdateConfig(after.config));
    let b = buttons.len() as int;
    if update.stream_relevant || update.zoom_only {
        assert(effects[b] == save);
    }
    if update.stream_relevant && after.started {
        assert(effects[b + 1] == send);
    }
    if effects.contains(save) {
        let i = effects.index_of(save);
        assert(i >= b) by {
            if i < b {
                assert(buttons[i] == save);
            }
        }
        assert(follow[i - b] == save);
    }
    assert forall|config: ConfigView|
        #[trigger] effects.contains(
            PanelEffectView::Send(EngineCmdView::UpdateConfig(config)),
        ) implies update.stream_relevant && after.started && config == after.config by {
        let effect = PanelEffectView::Send(EngineCmdView::UpdateConfig(config));
        let i = effects.index_of(effect);
        assert(i >= b) by {
            if i < b {
                assert(buttons[i] == effect);
            }
        }
        assert(follow[i - b] == effect);
    }
}

proof fn lemma_unfinished_edits(panel: PanelView, events: Seq<PanelEventView>, n: nat)
    requires
        n <= events.len(),
        forall|k: int|
            0 <= k < n ==> !(#[trigger] events[k] is FpsMoved) && !(events[k] is IpEdited),
        forall|k: int| 0 <= k < n ==> !is_finished_choice(#[trigger] events[k]),
    ensures
        ({
            let after = panel.after_first(events, n);
            &&& after.config.fps == panel.config.fps
            &&& after.config.rotation == panel.config.rotation
            &&& after.config.connection_mode == panel.config.connection_mode
            &&& after.config.wifi_ip == panel.config.wifi_ip
        }),
    decreases n,
{
    if n > 0 {
        lemma_unfinished_edits(panel, events, (n - 1) as nat);
        assert(!is_finished_choice(events[n - 1]));
    }
}

/// Where nothing is in the middle of being edited, a change of the frame rate, the angle, the way to
/// the phone or its address never stays in the window: it is saved, and the engine learns of the new
/// configuration while the user wants a stream.
pub proof fn no_change_stays_in_the_window(panel: PanelView, events: Seq<PanelEventView>)
    requires
        forall|k: int|
            0 <= k < events.len() ==> !(#[trigger] events[k] is FpsMoved) && !(
            events[k] is IpEdited),
        ({
            let after = panel.after_first(events, events.len());
            ||| after.config.fps != panel.config.fps
            ||| after.config.rotation != panel.config.rotation
            ||| after.config.connection_mode != panel.config.connection_mode
            ||| after.config.wifi_ip != panel.config.wifi_ip
        }),
    ensures
        ({
            let after = panel.after_first(events, events.len());
            let effects = carried_out(panel, events);
            &&& effects.contains(PanelEffectView::SaveConfig)
            &&& after.started ==> effects.contains(
                PanelEffectView::Send(EngineCmdView::UpdateConfig(after.config)),
            )
        }),
{
    if forall|k: int| 0 <= k < events.len() ==> !is_finished_choice(#[trigger] events[k]) {
        lemma_unfinished_edits(panel, events, events.len());
    }
    finished_choices_are_saved_and_passed_on(panel, events);
}

/// Each control changes its own setting and no other: what the user did last is what stands, and all
/// the rest stays as it was.
pub proof fn each_control_changes_its_own_setting(
    panel: PanelView,
    events: Seq<PanelEventView>,
    n: nat,
)
    requires
        n < events.len(),
    ensures
        ({
            let before = panel.after_first(events, n);
            let after = panel.after_first(events, n + 1);
            let c = before.config;
            &&& panel.after_first(events, 0) == panel
            &&& after == match events[n as int] {
                PanelEventView::FpsMoved(fps) => PanelView {
                    config: ConfigView { fps, ..c },
                    ..before
                },
                PanelEventView::RotationChosen(rotation) => PanelView {
                    config: ConfigView { rotation, ..c },
                    ..before
                },
                PanelEventView::ModeChosen(connection_mode) => PanelView {
                    config: ConfigView { connection_mode, ..c },
                    ..before
                },
                PanelEventView::IpEdited(wifi_ip) => PanelView {
                    config: ConfigView { wifi_ip, ..c },
                    ..before
                },
                PanelEventView::IpCleared => PanelView {
                    config: ConfigView { wifi_ip: Seq::empty(), ..c },
                    ..before
                },
                PanelEventView::ZoomMoved(zoom_bits) => PanelView {
                    config: ConfigView { zoom_bits, ..c },
                    ..before
                },
                PanelEventView::ZoomReset => PanelView {
                    config: ConfigView { zoom_bits: 0x3f80_0000, ..c },
                    ..before
                },
                PanelEventView::StartPressed => PanelView { started: true, ..before },
                PanelEventView::StopPressed => PanelView {
                    started: false,
                    preview_shown: false,
                    ..before
                },
                PanelEventView::FpsReleased => before,
                PanelEventView::IpLeft => before,
                PanelEventView::ExitPressed => before,
            }
        }),
{
}

/// The buttons act in the order in which they are pressed: starting and stopping send one command
/// each, leaving stops and then closes the window, and nothing else sends or closes anything by
/// itself.
pub proof fn the_buttons_act_in_order(events: Seq<PanelEventView>, n: nat)
    requires
        n < events.len(),
    ensures
        button_effects(events, 0).len() == 0,
        ({
            let before = button_effects(events, n);
            let after = button_effects(events, n + 1);
            &&& events[n as int] is StartPressed ==> after == before.push(
                PanelEffectView::Send(EngineCmdView::Start),
            )
            &&& events[n as int] is StopPressed ==> after == before.push(
                PanelEffectView::Send(EngineCmdView::Stop),
            )
            &&& events[n as int] is ExitPressed ==> after == before.push(
                PanelEffectView::Send(EngineCmdView::Stop),
            ).push(PanelEffectView::Close)
            &&& !(events[n as int] is StartPressed) && !(events[n as int] is StopPressed) && !(
            events[n as int] is ExitPressed) ==> after == before
        }),
{
    let before = button_effects(events, n);
    let after = button_effects(events, n + 1);
    if events[n as int] is StartPressed {
        assert(after =~= before.push(PanelEffectView::Send(EngineCmdView::Start)));
    } else if events[n as int] is StopPressed {
        assert(after =~= before.push(PanelEffectView::Send(EngineCmdView::Stop)));
    } else if events[n as int] is ExitPressed {
        assert(after =~= before.push(PanelEffectView::Send(EngineCmdView::Stop)).push(
            PanelEffectView::Close,
        ));
    } else {
        assert(after =~= before);
    }
}

/// A change is first saved and then passed on, if it is; nothing else follows from it.
pub proof fn a_change_is_saved_before_it_is_passed_on(panel: PanelView, update: ConfigUpdate)
    ensures
        ({
            let effects = panel.update_effects(update);
            &&& effects.len() <= 2
            &&& effects.len() > 0 ==> effects[0] == PanelEffectView::SaveConfig
            &&& effects.len() > 1 ==> effects[1] == PanelEffectView::Send(
                EngineCmdView::UpdateConfig(panel.config),
            )
        }),
{
}

/// Closing the window stops the engine first, kills the FFmpeg that was noted, if any, gives the
/// forwarded port up over USB only, and saves the configuration last.
pub proof fn closing_goes_in_order(panel: PanelView, pid: Option<u32>)
    ensures
        ({
            let effects = panel.exit_effects(pid);
            let kills = pid is Some;
            let usb = panel.config.connection_mode == ConnectionMode::Usb;
            &&& effects.len() == 2 + (if kills {
                1int
            } else {
                0
            }) + (if usb {
                1int
            } else {
                0
            })
            &&& effects[0] == PanelEffectView::Send(EngineCmdView::Stop)
            &&& kills ==> effects[1] == PanelEffectView::KillPid(pid->0)
            &&& usb ==> effects[effects.len() - 2] == PanelEffectView::RemoveForward(
                panel.config.adb_port,
            )
            &&& effects.last() == PanelEffectView::SaveConfig
        }),
{
}

/// What the window offers: frame rates from 5 to 30, quarter turns, a zoom from one to four, an
/// address over WiFi only and its clearing only while there is one, and all other controls always.
pub proof fn the_controls_are_offered_within_their_ranges(
    panel: PanelView,
    fps: u32,
    rotation: u32,
    bits: u32,
    ip: Seq<char>,
    mode: ConnectionMode,
)
    ensures
        panel.offers(PanelEventView::FpsMoved(fps)) <==> 5 <= fps <= 30,
        panel.offers(PanelEventView::RotationChosen(rotation)) <==> rotation == 0 || rotation == 90
            || rotation == 180 || rotation == 270,
        panel.offers(PanelEventView::ZoomMoved(bits)) <==> 0x3f80_0000 <= bits <= 0x4080_0000,
        panel.offers(PanelEventView::IpEdited(ip)) <==> panel.config.connection_mode
            == ConnectionMode::Wifi,
        panel.offers(PanelEventView::IpLeft) <==> panel.config.connection_mode
            == ConnectionMode::Wifi,
        panel.offers(PanelEventView::IpCleared) <==> panel.config.connection_mode
            == ConnectionMode::Wifi && panel.config.wifi_ip.len() > 0,
        panel.offers(PanelEventView::FpsReleased),
        panel.offers(PanelEventView::ModeChosen(mode)),
        panel.offers(PanelEventView::ZoomReset),
        panel.offers(PanelEventView::ExitPressed),
        angles() == seq![0u32, 90, 180, 270],
{
    assert(angles()[0] == 0 && angles()[1] == 90);
    assert(angles()[2] == 180 && angles()[3] == 270);
}

/// The colours, as hexadecimal codes.
pub proof fn the_palette(shade: Shade)
    ensures
        ({
            let (r, g, b) = shade.components();
            r * 0x1_0000 + g * 0x100 + b == match shade {
                Shade::Base => 0x1e1e2eint,
                Shade::Mantle => 0x181825,
                Shade::Surface0 => 0x313244,
                Shade::Text => 0xcdd6f4,
                Shade::Green => 0xa6e3a1,
                Shade::Yellow => 0xf9e2af,
                Shade::Red => 0xf38ba8,
                Shade::Peach => 0xfab387,
                Shade::Overlay => 0x6c7086,
                Shade::Blue => 0x89b4fa,
            }
        }),
{
}

/// The views of what the user does and what the window carries out hold all of it as it is.
pub proof fn views_keep_what_is_done(event: PanelEvent, effect: PanelEffect, panel: Panel)
    ensures
        event matches PanelEvent::FpsMoved(fps) ==> event.deep_view() == PanelEventView::FpsMoved(
            fps,
        ),
        event matches PanelEvent::RotationChosen(deg) ==> event.deep_view()
            == PanelEventView::RotationChosen(deg),
        event matches PanelEvent::ModeChosen(mode) ==> event.deep_view()
            == PanelEventView::ModeChosen(mode),
        event matches PanelEvent::IpEdited(ip) ==> event.deep_view() == PanelEventView::IpEdited(
            ip@,
        ),
        event matches PanelEvent::ZoomMoved(bits) ==> event.deep_view()
            == PanelEventView::ZoomMoved(bits),
        event.deep_view() is FpsReleased <==> event is FpsReleased,
        event.deep_view() is IpLeft <==> event is IpLeft,
        event.deep_view() is IpCleared <==> event is IpCleared,
        event.deep_view() is ZoomReset <==> event is ZoomReset,
        event.deep_view() is StartPressed <==> event is StartPressed,
        event.deep_view() is StopPressed <==> event is StopPressed,
        event.deep_view() is ExitPressed <==> event is ExitPressed,
        effect matches PanelEffect::Send(c) ==> effect.deep_view() == PanelEffectView::Send(c@),
        effect.deep_view() is SaveConfig <==> effect is SaveConfig,
        effect.deep_view() is Close <==> effect is Close,
        effect matches PanelEffect::KillPid(pid) ==> effect.deep_view() == PanelEffectView::KillPid(
            pid,
        ),
        effect matches PanelEffect::RemoveForward(port) ==> effect.deep_view()
            == PanelEffectView::RemoveForward(port),
        panel@.config == panel.config@,
        panel@.started == panel.started,
        panel@.preview_shown == panel.preview_shown,
{
}

} // verus!
