//! What the engine's turns amount to outside, and what holds of it in every run.
use vstd::prelude::*;

use crate::config::{ConfigView, ConnectionMode};
use crate::discovery::DiscoveredDeviceView;
use crate::engine;
use crate::engine::{
    EffectView, EngineCmdView, EngineView, EventView, RequestView, StatusView,
};

verus! {

/// The outside, as far as the engine changes it.
#[verifier::ext_equal]
pub struct Outside {
    /// What the window says.
    pub status: StatusView,
    /// The phone's address that the window shows.
    pub discovered_ip: Option<Seq<char>>,
    /// The process to be killed if the program ends now.
    pub pid: Option<u32>,
    /// The FFmpeg process that was started and not killed yet.
    pub child: Option<u32>,
    /// The ports that were forwarded, and still are.
    pub forwards: Set<u16>,
}

impl Outside {
    /// Before the engine's first turn.
    pub open spec fn initial() -> Outside {
        Outside {
            status: StatusView::Idle,
            discovered_ip: None,
            pid: None,
            child: None,
            forwards: Set::empty(),
        }
    }

    /// After one effect.
    pub open spec fn after(self, effect: EffectView) -> Outside {
        match effect {
            EffectView::KillFfmpeg => Outside { child: None, ..self },
            EffectView::StorePid(pid) => Outside { pid, ..self },
            EffectView::RemoveForward(port) => Outside {
                forwards: self.forwards.remove(port),
                ..self
            },
            EffectView::SetStatus(status) => Outside { status, ..self },
            EffectView::SetDiscoveredIp(ip) => Outside { discovered_ip: ip, ..self },
            EffectView::Sleep(_) => self,
        }
    }

    /// After the first `n` of `effects`, in order.
    pub open spec fn after_first(self, effects: Seq<EffectView>, n: nat) -> Outside
        decreases n,
    {
        if n == 0 {
            self
        } else {
            self.after_first(effects, (n - 1) as nat).after(effects[n - 1])
        }
    }

    /// After all of `effects`, in order.
    pub open spec fn after_all(self, effects: Seq<EffectView>) -> Outside {
        self.after_first(effects, effects.len())
    }

    /// After a request was met in such a way that `event` came of it.
    pub open spec fn met(self, request: RequestView, event: EventView) -> Outside {
        match (request, event) {
            (RequestView::Forward(port), EventView::Forwarded(true)) => Outside {
                forwards: self.forwards.insert(port),
                ..self
            },
            (RequestView::Spawn(_, _), EventView::Spawned(Some(pid))) => Outside {
                child: Some(pid),
                ..self
            },
            _ => self,
        }
    }
}

/// The engine together with the outside that it acts on.
pub struct System {
    pub engine: EngineView,
    pub outside: Outside,
}

impl System {
    pub open spec fn initial(config: ConfigView, now: int) -> System {
        System { engine: EngineView::initial(config, now), outside: Outside::initial() }
    }

    /// The request that the engine waits for brings `event` at `now`, and the engine's turn is
    /// carried out.
    pub open spec fn next(self, event: EventView, now: int) -> System {
        let (engine, turn) = self.engine.step(event, now);
        System {
            engine,
            outside: self.outside.met(self.engine.awaiting, event).after_all(turn.effects),
        }
    }

    /// After the first `n` of `events`, each with the time at which it comes.
    pub open spec fn after(self, events: Seq<(EventView, int)>, n: nat) -> System
        decreases n,
    {
        if n == 0 {
            self
        } else {
            self.after(events, (n - 1) as nat).next(events[n - 1].0, events[n - 1].1)
        }
    }

    /// Whether each of the first `n` of `events` answers the request that the engine waits for
    /// when it comes.
    pub open spec fn run_is_proper(self, events: Seq<(EventView, int)>, n: nat) -> bool {
        forall|k: int|
            0 <= k < n ==> (#[trigger] events[k]).0.answers(
                self.after(events, k as nat).engine.awaiting,
            )
    }

    /// What holds between any two turns.
    #[verifier::opaque]
    pub open spec fn is_sound(self) -> bool {
        let e = self.engine;
        let o = self.outside;
        // The engine knows whether it holds an FFmpeg, and its number is noted for the exit.
        &&& e.ffmpeg_running == (o.child is Some)
        &&& o.pid == o.child
        // FFmpeg runs only while the phone is in reach, and the phone only counts as in reach
        // while the user wants a stream.
        &&& e.ffmpeg_running ==> e.device_ready
        &&& e.device_ready ==> e.active
        // The window speaks of a stream only while there is an FFmpeg, and is idle when the user
        // wants none.
        &&& o.status is Streaming ==> o.child is Some
        &&& !e.active ==> o.status is Idle && o.discovered_ip is None
        // Over WiFi, and only there, a phone in reach has an address.
        &&& (e.wifi_target_ip is Some) == (e.device_ready && e.config.connection_mode
            == ConnectionMode::Wifi)
        // The window shows an address over WiFi only.
        &&& e.config.connection_mode == ConnectionMode::Usb ==> o.discovered_ip is None
        // A port is forwarded exactly while a phone is in reach over USB, and it is the one of
        // the configuration.
        &&& o.forwards =~= if e.device_ready && e.config.connection_mode == ConnectionMode::Usb {
            set![e.config.adb_port]
        } else {
            Set::empty()
        }
        // What the engine waits for makes sense.
        &&& match e.awaiting {
            RequestView::Command => true,
            RequestView::Tick => true,
            RequestView::DeviceConnected => e.active && e.config.connection_mode
                == ConnectionMode::Usb,
            RequestView::Forward(port) => e.active && !e.device_ready && port == e.config.adb_port
                && e.config.connection_mode == ConnectionMode::Usb,
            RequestView::Beacon => e.active && e.config.connection_mode == ConnectionMode::Wifi,
            RequestView::FfmpegExited => e.ffmpeg_running,
            RequestView::Spawn(host, port) => e.device_ready && !e.ffmpeg_running && host
                == e.stream_host() && port == e.config.adb_port && o.status is Connecting,
        }
    }
}

/// The program starts sound.
pub proof fn initial_system_is_sound(config: ConfigView, now: int)
    ensures
        System::initial(config, now).is_sound(),
{
    reveal(System::is_sound);
}

proof fn lemma_commands_keep_soundness(system: System, command: EngineCmdView, now: int)
    requires
        system.is_sound(),
        system.engine.awaiting is Command,
    ensures
        system.next(EventView::Command(Some(command)), now).is_sound(),
{
    reveal(System::is_sound);
    reveal_with_fuel(Outside::after_first, 7);
}

proof fn lemma_checks_keep_soundness(system: System, event: EventView, now: int)
    requires
        system.is_sound(),
        event.answers(system.engine.awaiting),
        event is DeviceConnected || event is Forwarded || event is Beacon,
    ensures
        system.next(event, now).is_sound(),
{
    reveal(System::is_sound);
    reveal_with_fuel(Outside::after_first, 6);
}

proof fn lemma_rest_keeps_soundness(system: System, event: EventView, now: int)
    requires
        system.is_sound(),
        event.answers(system.engine.awaiting),
        match event {
            EventView::Command(None) => true,
            EventView::FfmpegExited(_) => true,
            EventView::Spawned(_) => true,
            EventView::Ticked => true,
            _ => false,
        },
    ensures
        system.next(event, now).is_sound(),
{
    reveal(System::is_sound);
    reveal_with_fuel(Outside::after_first, 6);
}

/// Whatever a request brings, the system stays sound.
pub proof fn every_turn_keeps_soundness(system: System, event: EventView, now: int)
    requires
        system.is_sound(),
        event.answers(system.engine.awaiting),
    ensures
        system.next(event, now).is_sound(),
{
    match event {
        EventView::Command(Some(command)) => {
            lemma_commands_keep_soundness(system, command, now);
        },
        EventView::DeviceConnected(_) | EventView::Forwarded(_) | EventView::Beacon(_) => {
            lemma_checks_keep_soundness(system, event, now);
        },
        _ => {
            lemma_rest_keeps_soundness(system, event, now);
        },
    }
}

/// The system is sound at every moment of every run.
pub proof fn every_run_is_sound(config: ConfigView, start: int, events: Seq<(EventView, int)>, n: nat)
    requires
        n <= events.len(),
        System::initial(config, start).run_is_proper(events, n),
    ensures
        System::initial(config, start).after(events, n).is_sound(),
    decreases n,
{
    if n == 0 {
        initial_system_is_sound(config, start);
    } else {
        every_run_is_sound(config, start, events, (n - 1) as nat);
        let before = System::initial(config, start).after(events, (n - 1) as nat);
        assert(events[n - 1].0.answers(before.engine.awaiting));
        every_turn_keeps_soundness(before, events[n - 1].0, events[n - 1].1);
    }
}

// ── What the user relies on ──────────────────────────────────────────────────
/// Stopping leaves nothing behind: no FFmpeg, no forwarded port, no process noted, and the window
/// as it was before the engine ever ran.
pub proof fn stop_leaves_nothing_behind(system: System, now: int)
    requires
        system.is_sound(),
    ensures
        system.next(EventView::Command(Some(EngineCmdView::Stop)), now).outside
            == Outside::initial(),
        !system.next(EventView::Command(Some(EngineCmdView::Stop)), now).engine.active,
        !system.next(EventView::Command(Some(EngineCmdView::Stop)), now).engine.device_ready,
{
    reveal(System::is_sound);
    reveal_with_fuel(Outside::after_first, 8);
    assert(system.next(EventView::Command(Some(EngineCmdView::Stop)), now).outside
        =~= Outside::initial());
}

/// While the user wants no stream, a round does nothing but sleep.
pub proof fn an_idle_engine_only_sleeps(engine: EngineView, now: int)
    requires
        !engine.active,
    ensures
        ({
            let (after, turn) = engine.step(EventView::Command(None), now);
            &&& turn.effects.len() == 0
            &&& turn.next is Tick
            &&& after == (EngineView { awaiting: RequestView::Tick, ..engine })
        }),
{
}

/// Where the window speaks of a stream, there is an FFmpeg, its number is noted, the phone is in
/// reach and the user wants it.
pub proof fn a_stream_shown_is_running(system: System)
    requires
        system.is_sound(),
        system.outside.status is Streaming,
    ensures
        system.outside.child is Some,
        system.outside.pid == system.outside.child,
        system.engine.active,
        system.engine.device_ready,
{
    reveal(System::is_sound);
}

/// FFmpeg is only ever started towards a phone in reach: over USB through a port that is
/// forwarded, over WiFi at an address that is known. None runs beside it.
pub proof fn ffmpeg_starts_towards_a_known_phone(system: System, host: Seq<char>, port: u16)
    requires
        system.is_sound(),
        system.engine.awaiting == RequestView::Spawn(host, port),
    ensures
        port == system.engine.config.adb_port,
        system.outside.child is None,
        system.outside.status is Connecting,
        system.engine.config.connection_mode == ConnectionMode::Usb ==> host == "localhost"@
            && system.outside.forwards.contains(port),
        system.engine.config.connection_mode == ConnectionMode::Wifi
            ==> system.engine.wifi_target_ip == Some(host),
{
    reveal(System::is_sound);
}

/// An address that the user entered is taken whatever was announced. Without one, an announcement
/// counts for five seconds and no longer.
pub proof fn an_entered_address_goes_first(
    config: ConfigView,
    discovered: Option<DiscoveredDeviceView>,
    now: int,
)
    ensures
        config.wifi_ip.len() > 0 ==> engine::wifi_target(config, discovered, now) == Some(
            config.wifi_ip,
        ),
        config.wifi_ip.len() == 0 ==> ((engine::wifi_target(config, discovered, now) is Some) <==> (
        discovered is Some && now - discovered->0.last_seen < 5_000_000_000)),
        config.wifi_ip.len() == 0 && engine::wifi_target(config, discovered, now) is Some
            ==> engine::wifi_target(config, discovered, now) == Some(discovered->0.ip),
{
}

/// Once started, the engine looks for the phone in its next round.
pub proof fn a_start_looks_for_the_phone_at_once(engine: EngineView, now: int, later: int)
    requires
        now <= later,
    ensures
        ({
            let (started, turn) = engine.step(
                EventView::Command(Some(EngineCmdView::Start)),
                now,
            );
            let (waiting, then) = started.step(EventView::Command(None), later);
            &&& turn.effects == seq![EffectView::SetStatus(StatusView::WaitingDevice)]
            &&& turn.next is Command
            &&& then.effects.len() == 0
            &&& then.next == match engine.config.connection_mode {
                ConnectionMode::Usb => RequestView::DeviceConnected,
                ConnectionMode::Wifi => RequestView::Beacon,
            }
        }),
{
}

/// A round looks for the phone exactly where the user wants a stream and the last look lies at
/// least two seconds back; the next interval starts then. Nothing else is done in that turn.
pub proof fn looks_for_the_phone_are_spaced(engine: EngineView, now: int)
    ensures
        ({
            let (after, turn) = engine.step(EventView::Command(None), now);
            let looks = turn.next is DeviceConnected || turn.next is Beacon;
            &&& looks <==> engine.active && now - engine.last_check >= 2_000_000_000
            &&& turn.next is DeviceConnected ==> engine.config.connection_mode
                == ConnectionMode::Usb
            &&& turn.next is Beacon ==> engine.config.connection_mode == ConnectionMode::Wifi
            &&& looks ==> turn.effects.len() == 0 && after == (EngineView {
                last_check: now,
                awaiting: turn.next,
                ..engine
            })
            &&& !looks ==> after.last_check == engine.last_check
        }),
{
}

/// A new configuration that keeps the connection restarts a running FFmpeg: the old process is
/// killed at once, and the next round in which no look for the phone is due starts a new one
/// towards the same phone. Where none runs, nothing happens but that the configuration is replaced.
pub proof fn an_update_restarts_ffmpeg(system: System, new: ConfigView, now: int, later: int)
    requires
        system.is_sound(),
        new.connection_mode == system.engine.config.connection_mode,
        new.adb_port == system.engine.config.adb_port,
    ensures
        ({
            let command = EventView::Command(Some(EngineCmdView::UpdateConfig(new)));
            let updated = system.next(command, now);
            let after = updated.next(EventView::Command(None), later);
            let host = match new.connection_mode {
                ConnectionMode::Usb => "localhost"@,
                ConnectionMode::Wifi => system.engine.wifi_target_ip->0,
            };
            &&& updated.engine == (EngineView {
                config: new,
                ffmpeg_running: false,
                awaiting: RequestView::Command,
                ..system.engine
            })
            &&& system.outside.child is Some ==> updated.outside == (Outside {
                status: StatusView::Connecting,
                child: None,
                pid: None,
                ..system.outside
            })
            &&& system.outside.child is None ==> updated.outside == system.outside
                && system.engine.step(command, now).1.effects.len() == 0
            &&& system.outside.child is Some && later - system.engine.last_check < 2_000_000_000
                ==> after.engine.awaiting == RequestView::Spawn(host, new.adb_port)
        }),
{
    reveal(System::is_sound);
    reveal_with_fuel(Outside::after_first, 8);
    let updated = system.next(EventView::Command(Some(EngineCmdView::UpdateConfig(new))), now);
    if system.outside.child is Some {
        assert(updated.outside =~= (Outside {
            status: StatusView::Connecting,
            child: None,
            pid: None,
            ..system.outside
        }));
    } else {
        assert(updated.outside =~= system.outside);
    }
}

/// A new configuration with another port or another way to the phone gives the old connection up:
/// FFmpeg is killed, no port stays forwarded, and while the user wants a stream the phone is looked
/// for in the next round, the new way.
pub proof fn a_reconnect_gives_the_old_connection_up(
    system: System,
    new: ConfigView,
    now: int,
    later: int,
)
    requires
        system.is_sound(),
        new.connection_mode != system.engine.config.connection_mode || new.adb_port
            != system.engine.config.adb_port,
        now <= later,
    ensures
        ({
            let updated = system.next(
                EventView::Command(Some(EngineCmdView::UpdateConfig(new))),
                now,
            );
            let after = updated.next(EventView::Command(None), later);
            &&& updated.engine.config == new
            &&& updated.engine.active == system.engine.active
            &&& !updated.engine.device_ready
            &&& updated.engine.awaiting is Command
            &&& updated.outside.child is None
            &&& updated.outside.pid is None
            &&& updated.outside.forwards == Set::<u16>::empty()
            &&& updated.outside.status == if system.outside.child is Some {
                StatusView::Connecting
            } else {
                system.outside.status
            }
            &&& updated.outside.discovered_ip == match new.connection_mode {
                ConnectionMode::Usb => None,
                ConnectionMode::Wifi => system.outside.discovered_ip,
            }
            &&& after.engine.awaiting == if !system.engine.active {
                RequestView::Tick
            } else if new.connection_mode == ConnectionMode::Usb {
                RequestView::DeviceConnected
            } else {
                RequestView::Beacon
            }
        }),
{
    reveal(System::is_sound);
    reveal_with_fuel(Outside::after_first, 8);
    let updated = system.next(EventView::Command(Some(EngineCmdView::UpdateConfig(new))), now);
    assert(updated.outside.forwards =~= Set::<u16>::empty());
}

/// Whether the phone's address is known over WiFi: the user entered one, or an announcement came
/// less than five seconds ago.
pub open spec fn phone_is_known(
    config: ConfigView,
    discovered: Option<DiscoveredDeviceView>,
    now: int,
) -> bool {
    config.wifi_ip.len() > 0 || (discovered is Some && now - discovered->0.last_seen
        < 5_000_000_000)
}

/// The phone's address over WiFi where it is known: the one that the user entered goes first.
pub open spec fn known_address(config: ConfigView, discovered: Option<DiscoveredDeviceView>) -> Seq<
    char,
> {
    if config.wifi_ip.len() > 0 {
        config.wifi_ip
    } else {
        discovered->0.ip
    }
}

/// A phone that is gone takes the stream with it: FFmpeg is killed, no port stays forwarded, and
/// the window says that the phone is waited for.
pub proof fn a_lost_phone_ends_the_stream(system: System, event: EventView, now: int)
    requires
        system.is_sound(),
        system.engine.awaiting is DeviceConnected || system.engine.awaiting is Beacon,
        event.answers(system.engine.awaiting),
        match event {
            EventView::DeviceConnected(connected) => !connected,
            EventView::Beacon(d) => !phone_is_known(system.engine.config, d, now),
            _ => false,
        },
    ensures
        ({
            let after = system.next(event, now);
            &&& after.outside == (Outside {
                status: StatusView::WaitingDevice,
                ..Outside::initial()
            })
            &&& !after.engine.device_ready
            &&& after.engine.active
            &&& after.engine.config == system.engine.config
            &&& after.engine.last_check == system.engine.last_check
            &&& after.engine.awaiting is Tick
        }),
{
    reveal(System::is_sound);
    reveal_with_fuel(Outside::after_first, 8);
    assert(system.next(event, now).outside =~= (Outside {
        status: StatusView::WaitingDevice,
        ..Outside::initial()
    }));
}

/// A stream whose phone is still there is left alone: a look that finds the phone neither kills nor
/// starts anything and changes no status, and FFmpeg is merely asked after. Over WiFi the window
/// shows the address that is known now.
pub proof fn a_healthy_stream_is_left_alone(system: System, event: EventView, now: int)
    requires
        system.is_sound(),
        system.outside.child is Some,
        event.answers(system.engine.awaiting),
        match event {
            EventView::DeviceConnected(connected) => connected,
            EventView::Beacon(d) => phone_is_known(system.engine.config, d, now),
            _ => false,
        },
    ensures
        ({
            let after = system.next(event, now);
            let effects = system.engine.step(event, now).1.effects;
            &&& after.engine == (EngineView {
                awaiting: RequestView::FfmpegExited,
                ..system.engine
            })
            &&& after.outside.child == system.outside.child
            &&& after.outside.pid == system.outside.pid
            &&& after.outside.status == system.outside.status
            &&& after.outside.forwards == system.outside.forwards
            &&& match event {
                EventView::Beacon(d) => effects == seq![
                    EffectView::SetDiscoveredIp(Some(known_address(system.engine.config, d))),
                ],
                _ => effects.len() == 0,
            }
        }),
{
    reveal(System::is_sound);
    reveal_with_fuel(Outside::after_first, 3);
    if let EventView::Beacon(d) = event {
        let effects = system.engine.step(event, now).1.effects;
        assert(effects =~= seq![
            EffectView::SetDiscoveredIp(Some(known_address(system.engine.config, d))),
        ]);
    }
}

/// Between two looks for the phone a running FFmpeg is only asked after, and as long as it runs
/// nothing else happens.
pub proof fn a_running_ffmpeg_is_only_asked_after(system: System, now: int, later: int)
    requires
        system.is_sound(),
        system.outside.child is Some,
        system.engine.awaiting is Command,
        now - system.engine.last_check < 2_000_000_000,
    ensures
        ({
            let asked = system.next(EventView::Command(None), now);
            let after = asked.next(EventView::FfmpegExited(false), later);
            &&& asked.engine == (EngineView {
                awaiting: RequestView::FfmpegExited,
                ..system.engine
            })
            &&& asked.outside == system.outside
            &&& system.engine.step(EventView::Command(None), now).1.effects.len() == 0
            &&& after.engine == (EngineView { awaiting: RequestView::Tick, ..system.engine })
            &&& after.outside == system.outside
            &&& asked.engine.step(EventView::FfmpegExited(false), later).1.effects.len() == 0
        }),
{
    reveal(System::is_sound);
    reveal_with_fuel(Outside::after_first, 2);
}

/// A phone that is found over WiFi is connected to at once: the window shows its address, and FFmpeg
/// is started towards that address and the configured port.
pub proof fn a_phone_found_over_wifi_is_connected_to(
    system: System,
    discovered: Option<DiscoveredDeviceView>,
    now: int,
)
    requires
        system.is_sound(),
        system.engine.awaiting is Beacon,
        !system.engine.device_ready,
        phone_is_known(system.engine.config, discovered, now),
    ensures
        ({
            let after = system.next(EventView::Beacon(discovered), now);
            let ip = known_address(system.engine.config, discovered);
            &&& after.outside == (Outside {
                status: StatusView::Connecting,
                discovered_ip: Some(ip),
                ..system.outside
            })
            &&& after.engine == (EngineView {
                device_ready: true,
                wifi_target_ip: Some(ip),
                awaiting: RequestView::Spawn(ip, system.engine.config.adb_port),
                ..system.engine
            })
        }),
{
    reveal(System::is_sound);
    reveal_with_fuel(Outside::after_first, 4);
}

/// A phone that is found over USB gets its port forwarded first. Where that goes well, FFmpeg is
/// started towards the forwarded port; where it fails, the window says so and the phone stays out
/// of reach until the next look.
pub proof fn a_phone_found_over_usb_is_connected_to(system: System, now: int, later: int)
    requires
        system.is_sound(),
        system.engine.awaiting is DeviceConnected,
        !system.engine.device_ready,
    ensures
        ({
            let port = system.engine.config.adb_port;
            let found = system.next(EventView::DeviceConnected(true), now);
            let forwarded = found.next(EventView::Forwarded(true), later);
            let failed = found.next(EventView::Forwarded(false), later);
            &&& found.outside == system.outside
            &&& found.engine == (EngineView {
                awaiting: RequestView::Forward(port),
                ..system.engine
            })
            &&& forwarded.outside == (Outside {
                status: StatusView::Connecting,
                forwards: system.outside.forwards.insert(port),
                ..system.outside
            })
            &&& forwarded.engine == (EngineView {
                device_ready: true,
                awaiting: RequestView::Spawn("localhost"@, port),
                ..system.engine
            })
            &&& failed.outside == (Outside {
                status: StatusView::Error("ADB forward falló"@),
                ..system.outside
            })
            &&& failed.engine == (EngineView { awaiting: RequestView::Tick, ..system.engine })
        }),
{
    reveal(System::is_sound);
    reveal_with_fuel(Outside::after_first, 3);
}

/// An FFmpeg that was started is noted by its number, and the window speaks of a stream.
pub proof fn a_started_ffmpeg_streams(system: System, pid: u32, now: int)
    requires
        system.is_sound(),
        system.engine.awaiting is Spawn,
    ensures
        ({
            let after = system.next(EventView::Spawned(Some(pid)), now);
            &&& after.outside == (Outside {
                status: StatusView::Streaming,
                child: Some(pid),
                pid: Some(pid),
                ..system.outside
            })
            &&& after.engine == (EngineView {
                ffmpeg_running: true,
                awaiting: RequestView::Tick,
                ..system.engine
            })
        }),
{
    reveal(System::is_sound);
    reveal_with_fuel(Outside::after_first, 4);
}

/// Starting touches nothing that runs: the user's wish is noted, and the window says that the phone
/// is waited for.
pub proof fn a_start_only_notes_the_wish(system: System, now: int)
    requires
        system.engine.awaiting is Command,
    ensures
        ({
            let after = system.next(EventView::Command(Some(EngineCmdView::Start)), now);
            &&& after.outside == (Outside {
                status: StatusView::WaitingDevice,
                ..system.outside
            })
            &&& after.engine == (EngineView {
                active: true,
                last_check: after.engine.last_check,
                ..system.engine
            })
            &&& now - after.engine.last_check >= 2_000_000_000
        }),
{
    reveal_with_fuel(Outside::after_first, 3);
}

/// An FFmpeg that came to its end is started anew towards the same phone, after half a second. By
/// then the old process is cleared away, none is noted, and the window says that the connection is
/// being made.
pub proof fn a_dead_ffmpeg_is_restarted(system: System, now: int)
    requires
        system.is_sound(),
        system.engine.awaiting is FfmpegExited,
    ensures
        ({
            let (engine, turn) = system.engine.step(EventView::FfmpegExited(true), now);
            let after = system.next(EventView::FfmpegExited(true), now);
            let gone = Outside {
                status: StatusView::Connecting,
                child: None,
                pid: None,
                ..system.outside
            };
            let host = match system.engine.config.connection_mode {
                ConnectionMode::Usb => "localhost"@,
                ConnectionMode::Wifi => system.engine.wifi_target_ip->0,
            };
            &&& turn.effects.len() > 3
            &&& turn.effects[3] == EffectView::Sleep(500)
            &&& system.outside.after_first(turn.effects, 3) == gone
            &&& after.outside == gone
            &&& after.engine == (EngineView {
                ffmpeg_running: false,
                awaiting: RequestView::Spawn(host, system.engine.config.adb_port),
                ..system.engine
            })
        }),
{
    reveal(System::is_sound);
    reveal_with_fuel(Outside::after_first, 8);
}

/// An FFmpeg that could not be started is tried again: the window says so for two seconds, the phone
/// stays in reach, and the next round in which no look for it is due starts FFmpeg.
pub proof fn a_failed_start_is_tried_again(system: System, now: int, later: int)
    requires
        system.is_sound(),
        system.engine.awaiting is Spawn,
    ensures
        ({
            let turn = system.engine.step(EventView::Spawned(None), now).1;
            let failed = system.next(EventView::Spawned(None), now);
            let ticked = failed.next(EventView::Ticked, now);
            let again = ticked.next(EventView::Command(None), later);
            let shown = Outside {
                status: StatusView::Error("No se pudo iniciar FFmpeg"@),
                ..system.outside
            };
            &&& turn.effects.len() > 0
            &&& turn.effects.last() == EffectView::Sleep(2000)
            &&& system.outside.after_first(turn.effects, (turn.effects.len() - 1) as nat) == shown
            &&& failed.outside == shown
            &&& failed.engine == (EngineView { awaiting: RequestView::Tick, ..system.engine })
            &&& later - system.engine.last_check < 2_000_000_000 ==> again.engine.awaiting
                == system.engine.awaiting
        }),
{
    reveal(System::is_sound);
    reveal_with_fuel(Outside::after_first, 8);
}

/// The engine pauses in the middle of a round only after trouble with FFmpeg: half a second after
/// its end, two seconds where it could not be started.
pub proof fn the_engine_pauses_only_after_trouble(
    engine: EngineView,
    event: EventView,
    now: int,
    i: int,
)
    requires
        0 <= i < engine.step(event, now).1.effects.len(),
        engine.step(event, now).1.effects[i] is Sleep,
    ensures
        event == EventView::FfmpegExited(true) || event == EventView::Spawned(None),
        event == EventView::FfmpegExited(true) ==> engine.step(event, now).1.effects[i]
            == EffectView::Sleep(500),
        event == EventView::Spawned(None) ==> engine.step(event, now).1.effects[i]
            == EffectView::Sleep(2000),
{
}

/// Only the user starts, stops and configures: whatever else comes, the engine keeps its wish and
/// its configuration. When the phone was last looked for changes only with a start, an update or the
/// beginning of a round. All commands that have come are taken before a round goes on, and a round
/// ends with a sleep, after which the next begins.
pub proof fn only_the_user_decides(engine: EngineView, event: EventView, now: int)
    ensures
        ({
            let (after, turn) = engine.step(event, now);
            &&& after.awaiting == turn.next
            &&& !(event matches EventView::Command(Some(_))) ==> after.active == engine.active
                && after.config == engine.config
            &&& !(event is Command) ==> after.last_check == engine.last_check
            &&& event matches EventView::Command(Some(_)) ==> turn.next is Command
            &&& event == EventView::Ticked ==> turn.effects.len() == 0 && after == (EngineView {
                awaiting: RequestView::Command,
                ..engine
            })
            &&& turn.next is Command ==> (event is Command || event is Ticked)
            &&& event == EventView::Command(Some(EngineCmdView::Stop)) ==> after == (EngineView {
                active: false,
                ffmpeg_running: false,
                device_ready: false,
                wifi_target_ip: None,
                awaiting: RequestView::Command,
                ..engine
            })
        }),
{
}

/// Every outcome of a request is an answer to it, and to no other kind of request.
pub proof fn every_outcome_is_an_answer(
    event: EventView,
    ok: bool,
    port: u16,
    host: Seq<char>,
    pid: Option<u32>,
    discovered: Option<DiscoveredDeviceView>,
    command: Option<EngineCmdView>,
)
    ensures
        EventView::Command(command).answers(RequestView::Command),
        EventView::DeviceConnected(ok).answers(RequestView::DeviceConnected),
        EventView::Forwarded(ok).answers(RequestView::Forward(port)),
        EventView::Beacon(discovered).answers(RequestView::Beacon),
        EventView::FfmpegExited(ok).answers(RequestView::FfmpegExited),
        EventView::Spawned(pid).answers(RequestView::Spawn(host, port)),
        EventView::Ticked.answers(RequestView::Tick),
        event.answers(RequestView::Command) ==> event is Command,
        event.answers(RequestView::DeviceConnected) ==> event is DeviceConnected,
        event.answers(RequestView::Forward(port)) ==> event is Forwarded,
        event.answers(RequestView::Beacon) ==> event is Beacon,
        event.answers(RequestView::FfmpegExited) ==> event is FfmpegExited,
        event.answers(RequestView::Spawn(host, port)) ==> event is Spawned,
        event.answers(RequestView::Tick) ==> event is Ticked,
{
}

/// A phone in reach without an FFmpeg gets one, in whatever round it is noticed: between two looks,
/// or after a look that still finds the phone.
pub proof fn a_phone_in_reach_gets_an_ffmpeg(system: System, event: EventView, now: int)
    requires
        system.is_sound(),
        system.engine.device_ready,
        system.outside.child is None,
        event.answers(system.engine.awaiting),
        match event {
            EventView::Command(command) => command is None && now - system.engine.last_check
                < 2_000_000_000,
            EventView::DeviceConnected(connected) => connected,
            EventView::Beacon(d) => phone_is_known(system.engine.config, d, now),
            _ => false,
        },
    ensures
        ({
            let after = system.next(event, now);
            let host = match system.engine.config.connection_mode {
                ConnectionMode::Usb => "localhost"@,
                ConnectionMode::Wifi => system.engine.wifi_target_ip->0,
            };
            &&& after.engine == (EngineView {
                awaiting: RequestView::Spawn(host, system.engine.config.adb_port),
                ..system.engine
            })
            &&& after.outside == (Outside {
                status: StatusView::Connecting,
                discovered_ip: match event {
                    EventView::Beacon(d) => Some(known_address(system.engine.config, d)),
                    _ => system.outside.discovered_ip,
                },
                ..system.outside
            })
        }),
{
    reveal(System::is_sound);
    reveal_with_fuel(Outside::after_first, 3);
}

/// Between two looks a phone that is out of reach is simply waited for.
pub proof fn a_phone_out_of_reach_is_waited_for(system: System, now: int)
    requires
        system.is_sound(),
        !system.engine.device_ready,
        system.engine.awaiting is Command,
        now - system.engine.last_check < 2_000_000_000,
    ensures
        ({
            let after = system.next(EventView::Command(None), now);
            &&& after.engine == (EngineView { awaiting: RequestView::Tick, ..system.engine })
            &&& after.outside == system.outside
            &&& system.engine.step(EventView::Command(None), now).1.effects.len() == 0
        }),
{
    reveal(System::is_sound);
}

/// A look for the phone is forced by a start, and by an update exactly if it changes the port or the
/// way to the phone. It is dated a minute back.
pub proof fn what_forces_a_look(engine: EngineView, event: EventView, new: ConfigView, now: int)
    ensures
        engine.forces_check(EventView::Command(Some(EngineCmdView::Start))),
        engine.forces_check(EventView::Command(Some(EngineCmdView::UpdateConfig(new)))) <==> (
        new.connection_mode != engine.config.connection_mode || new.adb_port
            != engine.config.adb_port),
        engine.forces_check(event) ==> event is Command && engine.step(event, now).0.last_check
            == now - 60_000_000_000,
        !engine.forces_check(event) && event != EventView::Command(None) ==> engine.step(
            event,
            now,
        ).0.last_check == engine.last_check,
{
}

} // verus!
