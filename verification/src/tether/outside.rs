//! What the turns of the tethered engine amount to outside, and what holds of it in every run.
use vstd::prelude::*;

use crate::engine::{EffectView, StatusView};
use crate::outside::Outside;
use crate::tether::config::ConfigView;
use crate::tether::engine::{EngineCmdView, EngineView, EventView, Request};

verus! {

/// The engine together with the outside that it acts on.
pub struct System {
    pub engine: EngineView,
    pub outside: Outside,
}

/// The outside after a request was met in such a way that `event` came of it.
pub open spec fn met(outside: Outside, request: Request, event: EventView) -> Outside {
    match (request, event) {
        (Request::Forward(port), EventView::Forwarded(true)) => Outside {
            forwards: outside.forwards.insert(port),
            ..outside
        },
        (Request::Spawn, EventView::Spawned(Some(pid))) => Outside { child: Some(pid), ..outside },
        _ => outside,
    }
}

impl System {
    pub open spec fn initial(config: ConfigView, now: int) -> System {
        System { engine: EngineView::initial(config, now), outside: Outside::initial() }
    }

    /// The request that the engine waits for brings `event` at `now`, and the engine's turn is
    /// carried out.
    pub open spec fn next(self, event: EventView, now: int) -> System {
        let (engine, turn) = self.engine.step(event, now);
        System {
            engine,
            outside: met(self.outside, self.engine.awaiting, event).after_all(turn.effects),
        }
    }

    /// After the first `n` of `events`, each with the time at which it comes.
    pub open spec fn after(self, events: Seq<(EventView, int)>, n: nat) -> System
        decreases n,
    {
        if n == 0 {
            self
        } else {
            self.after(events, (n - 1) as nat).next(events[n - 1].0, events[n - 1].1)
        }
    }

    /// Whether each of the first `n` of `events` answers the request that the engine waits for
    /// when it comes.
    pub open spec fn run_is_proper(self, events: Seq<(EventView, int)>, n: nat) -> bool {
        forall|k: int|
            0 <= k < n ==> (#[trigger] events[k]).0.answers(
                self.after(events, k as nat).engine.awaiting,
            )
    }

    /// What holds between any two turns.
    #[verifier::opaque]
    pub open spec fn is_sound(self) -> bool {
        let e = self.engine;
        let o = self.outside;
        // The engine knows whether it holds an FFmpeg.
        &&& e.ffmpeg_running == (o.child is Some)
        // FFmpeg runs only while the phone is in reach, and the phone only counts as in reach
        // while the user wants a stream.
        &&& e.ffmpeg_running ==> e.device_ready
        &&& e.device_ready ==> e.active
        // The window speaks of a stream only while there is an FFmpeg, and is idle when the user
        // wants none.
        &&& o.status is Streaming ==> o.child is Some
        &&& !e.active ==> o.status is Idle
        // A port is forwarded exactly while a phone is in reach, and it is the one of the
        // configuration.
        &&& self.forwards_only_its_port()
        // No process is noted and no address shown.
        &&& o.pid is None
        &&& o.discovered_ip is None
        // What the engine waits for makes sense.
        &&& match e.awaiting {
            Request::Command => true,
            Request::Tick => true,
            Request::DeviceConnected => e.active,
            Request::Forward(port) => e.active && !e.device_ready && port == e.config.adb_port,
            Request::FfmpegExited => e.ffmpeg_running,
            Request::Spawn => e.device_ready && !e.ffmpeg_running && o.status is Connecting,
        }
    }

    /// Whether exactly the port of the configuration is forwarded, and only while a phone is in
    /// reach.
    pub open spec fn forwards_only_its_port(self) -> bool {
        self.outside.forwards =~= if self.engine.device_ready {
            set![self.engine.config.adb_port]
        } else {
            Set::empty()
        }
    }
}

/// The program starts sound.
pub proof fn initial_system_is_sound(config: ConfigView, now: int)
    ensures
        System::initial(config, now).is_sound(),
{
    reveal(System::is_sound);
}

/// Whatever a request brings, the system stays sound.
pub proof fn every_turn_keeps_soundness(system: System, event: EventView, now: int)
    requires
        system.is_sound(),
        event.answers(system.engine.awaiting),
    ensures
        system.next(event, now).is_sound(),
{
    reveal(System::is_sound);
    reveal_with_fuel(Outside::after_first, 6);
}

/// The system is sound at every moment of every run.
pub proof fn every_run_is_sound(config: ConfigView, start: int, events: Seq<(EventView, int)>, n: nat)
    requires
        n <= events.len(),
        System::initial(config, start).run_is_proper(events, n),
    ensures
        System::initial(config, start).after(events, n).is_sound(),
    decreases n,
{
    if n == 0 {
        initial_system_is_sound(config, start);
    } else {
        every_run_is_sound(config, start, events, (n - 1) as nat);
        let before = System::initial(config, start).after(events, (n - 1) as nat);
        assert(events[n - 1].0.answers(before.engine.awaiting));
        every_turn_keeps_soundness(before, events[n - 1].0, events[n - 1].1);
    }
}

/// At every moment of every run, exactly the port of the configuration is forwarded while a phone
/// is in reach, and none otherwise.
pub proof fn a_run_forwards_only_its_port(
    config: ConfigView,
    start: int,
    events: Seq<(EventView, int)>,
    n: nat,
)
    requires
        n <= events.len(),
        System::initial(config, start).run_is_proper(events, n),
    ensures
        System::initial(config, start).after(events, n).forwards_only_its_port(),
{
    every_run_is_sound(config, start, events, n);
    reveal(System::is_sound);
}

// ── What the user relies on ──────────────────────────────────────────────────
/// Stopping leaves nothing behind: no FFmpeg, no forwarded port, and the window as it was before
/// the engine ever ran.
pub proof fn stop_leaves_nothing_behind(system: System, now: int)
    requires
        system.is_sound(),
    ensures
        system.next(EventView::Command(Some(EngineCmdView::Stop)), now).outside
            == Outside::initial(),
        !system.next(EventView::Command(Some(EngineCmdView::Stop)), now).engine.active,
        !system.next(EventView::Command(Some(EngineCmdView::Stop)), now).engine.device_ready,
{
    reveal(System::is_sound);
    reveal_with_fuel(Outside::after_first, 6);
    assert(system.next(EventView::Command(Some(EngineCmdView::Stop)), now).outside
        =~= Outside::initial());
}

/// While the user wants no stream, a round does nothing but sleep.
pub proof fn an_idle_engine_only_sleeps(engine: EngineView, now: int)
    requires
        !engine.active,
    ensures
        ({
            let (after, turn) = engine.step(EventView::Command(None), now);
            &&& turn.effects.len() == 0
            &&& turn.next is Tick
            &&& after == (EngineView { awaiting: Request::Tick, ..engine })
        }),
{
}

/// Where the window speaks of a stream, there is an FFmpeg, the phone's port is forwarded, and the
/// user wants it.
pub proof fn a_stream_shown_is_running(system: System)
    requires
        system.is_sound(),
        system.outside.status is Streaming,
    ensures
        system.outside.child is Some,
        system.outside.forwards.contains(system.engine.config.adb_port),
        system.engine.active,
{
    reveal(System::is_sound);
}

/// FFmpeg is only ever started while the port of the configuration is forwarded, and none runs
/// beside it.
pub proof fn ffmpeg_starts_towards_a_known_phone(system: System)
    requires
        system.is_sound(),
        system.engine.awaiting is Spawn,
    ensures
        system.outside.child is None,
        system.outside.status is Connecting,
        system.outside.forwards.contains(system.engine.config.adb_port),
{
    reveal(System::is_sound);
}

/// Once started, the engine looks for the phone in its next round.
pub proof fn a_start_looks_for_the_phone_at_once(engine: EngineView, now: int, later: int)
    requires
        now <= later,
    ensures
        ({
            let (started, turn) = engine.step(EventView::Command(Some(EngineCmdView::Start)), now);
            let (waiting, then) = started.step(EventView::Command(None), later);
            &&& turn.effects == seq![EffectView::SetStatus(StatusView::WaitingDevice)]
            &&& turn.next is Command
            &&& then.effects.len() == 0
            &&& then.next is DeviceConnected
        }),
{
}

/// Starting touches nothing that runs: the user's wish is noted, and the window says that the phone
/// is waited for.
pub proof fn a_start_only_notes_the_wish(system: System, now: int)
    requires
        system.engine.awaiting is Command,
    ensures
        ({
            let after = system.next(EventView::Command(Some(EngineCmdView::Start)), now);
            &&& after.outside == (Outside {
                status: StatusView::WaitingDevice,
                ..system.outside
            })
            &&& after.engine == (EngineView {
                active: true,
                last_check: after.engine.last_check,
                ..system.engine
            })
        }),
{
    reveal_with_fuel(Outside::after_first, 3);
}

/// A round looks for the phone exactly where the user wants a stream and the last look lies at
/// least two seconds back; the next interval starts then. Nothing else is done in that turn.
pub proof fn looks_for_the_phone_are_spaced(engine: EngineView, now: int)
    ensures
        ({
            let (after, turn) = engine.step(EventView::Command(None), now);
            let looks = turn.next is DeviceConnected;
            &&& looks <==> engine.active && now - engine.last_check >= 2_000_000_000
            &&& looks ==> turn.effects.len() == 0 && after == (EngineView {
                last_check: now,
                awaiting: Request::DeviceConnected,
                ..engine
            })
            &&& !looks ==> after.last_check == engine.last_check
        }),
{
}

/// A new configuration with the same port restarts a running FFmpeg: the old process is killed at
/// once, and the next round in which no look for the phone is due starts a new one. Where none runs,
/// or another port comes while the phone is out of reach, the configuration is merely replaced.
pub proof fn an_update_restarts_ffmpeg(system: System, new: ConfigView, now: int, later: int)
    requires
        system.is_sound(),
        new.adb_port == system.engine.config.adb_port || !system.engine.device_ready,
    ensures
        ({
            let command = EventView::Command(Some(EngineCmdView::UpdateConfig(new)));
            let updated = system.next(command, now);
            let after = updated.next(EventView::Command(None), later);
            &&& updated.engine == (EngineView {
                config: new,
                ffmpeg_running: false,
                awaiting: Request::Command,
                ..system.engine
            })
            &&& system.outside.child is Some ==> updated.outside == (Outside {
                status: StatusView::Connecting,
                child: None,
                ..system.outside
            })
            &&& system.outside.child is None ==> updated.outside == system.outside
                && system.engine.step(command, now).1.effects.len() == 0
            &&& system.outside.child is Some && later - system.engine.last_check < 2_000_000_000
                ==> after.engine.awaiting is Spawn
        }),
{
    reveal(System::is_sound);
    reveal_with_fuel(Outside::after_first, 6);
}

/// A new port gives the old one up and makes the engine look for the phone anew: FFmpeg is killed,
/// no port stays forwarded, the next round asks whether the phone is there, and where it is, the
/// new port is forwarded.
pub proof fn a_new_port_looks_for_the_phone_anew(
    system: System,
    new: ConfigView,
    now: int,
    later: int,
)
    requires
        system.is_sound(),
        system.engine.device_ready,
        new.adb_port != system.engine.config.adb_port,
        now <= later,
    ensures
        ({
            let updated = system.next(
                EventView::Command(Some(EngineCmdView::UpdateConfig(new))),
                now,
            );
            let asked = updated.next(EventView::Command(None), later);
            &&& updated.engine.config == new
            &&& updated.engine.active
            &&& !updated.engine.device_ready
            &&& updated.outside == (Outside {
                status: if system.outside.child is Some {
                    StatusView::Connecting
                } else {
                    system.outside.status
                },
                ..Outside::initial()
            })
            &&& asked.engine.awaiting is DeviceConnected
            &&& asked.next(EventView::DeviceConnected(true), later).engine.awaiting
                == Request::Forward(new.adb_port)
        }),
{
    reveal(System::is_sound);
    reveal_with_fuel(Outside::after_first, 6);
    let updated = system.next(EventView::Command(Some(EngineCmdView::UpdateConfig(new))), now);
    assert(updated.outside.forwards =~= Set::<u16>::empty());
}

/// A phone that is gone takes the stream with it: FFmpeg is killed, no port stays forwarded, and
/// the window says that the phone is waited for.
pub proof fn a_lost_phone_ends_the_stream(system: System, now: int)
    requires
        system.is_sound(),
        system.engine.awaiting is DeviceConnected,
    ensures
        ({
            let after = system.next(EventView::DeviceConnected(false), now);
            &&& after.outside == (Outside {
                status: StatusView::WaitingDevice,
                ..Outside::initial()
            })
            &&& after.engine == (EngineView {
                ffmpeg_running: false,
                device_ready: false,
                awaiting: Request::Tick,
                ..system.engine
            })
            &&& after.engine.active
        }),
{
    reveal(System::is_sound);
    reveal_with_fuel(Outside::after_first, 6);
    assert(system.next(EventView::DeviceConnected(false), now).outside =~= (Outside {
        status: StatusView::WaitingDevice,
        ..Outside::initial()
    }));
}

/// A stream whose phone is still there is left alone: a look that finds the phone does nothing, and
/// FFmpeg is merely asked after.
pub proof fn a_healthy_stream_is_left_alone(system: System, now: int)
    requires
        system.is_sound(),
        system.outside.child is Some,
        system.engine.awaiting is DeviceConnected,
    ensures
        ({
            let after = system.next(EventView::DeviceConnected(true), now);
            &&& after.engine == (EngineView { awaiting: Request::FfmpegExited, ..system.engine })
            &&& after.outside == system.outside
            &&& system.engine.step(EventView::DeviceConnected(true), now).1.effects.len() == 0
        }),
{
    reveal(System::is_sound);
}

/// Between two looks for the phone a running FFmpeg is only asked after, and as long as it runs
/// nothing else happens.
pub proof fn a_running_ffmpeg_is_only_asked_after(system: System, now: int, later: int)
    requires
        system.is_sound(),
        system.outside.child is Some,
        system.engine.awaiting is Command,
        now - system.engine.last_check < 2_000_000_000,
    ensures
        ({
            let asked = system.next(EventView::Command(None), now);
            let after = asked.next(EventView::FfmpegExited(false), later);
            &&& asked.engine == (EngineView { awaiting: Request::FfmpegExited, ..system.engine })
            &&& asked.outside == system.outside
            &&& system.engine.step(EventView::Command(None), now).1.effects.len() == 0
            &&& after.engine == (EngineView { awaiting: Request::Tick, ..system.engine })
            &&& after.outside == system.outside
            &&& asked.engine.step(EventView::FfmpegExited(false), later).1.effects.len() == 0
        }),
{
    reveal(System::is_sound);
    reveal_with_fuel(Outside::after_first, 2);
}

/// A phone that is found gets its port forwarded first. Where that goes well, FFmpeg is started;
/// where it fails, the window says so and the phone stays out of reach until the next look.
pub proof fn a_phone_found_is_connected_to(system: System, now: int, later: int)
    requires
        system.is_sound(),
        system.engine.awaiting is DeviceConnected,
        !system.engine.device_ready,
    ensures
        ({
            let port = system.engine.config.adb_port;
            let found = system.next(EventView::DeviceConnected(true), now);
            let forwarded = found.next(EventView::Forwarded(true), later);
            let failed = found.next(EventView::Forwarded(false), later);
            &&& found.outside == system.outside
            &&& found.engine == (EngineView { awaiting: Request::Forward(port), ..system.engine })
            &&& forwarded.outside == (Outside {
                status: StatusView::Connecting,
                forwards: system.outside.forwards.insert(port),
                ..system.outside
            })
            &&& forwarded.engine == (EngineView {
                device_ready: true,
                awaiting: Request::Spawn,
                ..system.engine
            })
            &&& failed.outside == (Outside {
                status: StatusView::Error("ADB forward falló"@),
                ..system.outside
            })
            &&& failed.engine == (EngineView { awaiting: Request::Tick, ..system.engine })
        }),
{
    reveal(System::is_sound);
    reveal_with_fuel(Outside::after_first, 3);
}

/// A phone in reach without an FFmpeg gets one, in whatever round it is noticed: between two looks,
/// or after a look that still finds the phone.
pub proof fn a_phone_in_reach_gets_an_ffmpeg(system: System, event: EventView, now: int)
    requires
        system.is_sound(),
        system.engine.device_ready,
        system.outside.child is None,
        event.answers(system.engine.awaiting),
        match event {
            EventView::Command(command) => command is None && now - system.engine.last_check
                < 2_000_000_000,
            EventView::DeviceConnected(connected) => connected,
            _ => false,
        },
    ensures
        ({
            let after = system.next(event, now);
            &&& after.engine == (EngineView { awaiting: Request::Spawn, ..system.engine })
            &&& after.outside == (Outside { status: StatusView::Connecting, ..system.outside })
        }),
{
    reveal(System::is_sound);
    reveal_with_fuel(Outside::after_first, 3);
}

/// Between two looks a phone that is out of reach is simply waited for.
pub proof fn a_phone_out_of_reach_is_waited_for(system: System, now: int)
    requires
        system.is_sound(),
        !system.engine.device_ready,
        system.engine.awaiting is Command,
        now - system.engine.last_check < 2_000_000_000,
    ensures
        ({
            let after = system.next(EventView::Command(None), now);
            &&& after.engine == (EngineView { awaiting: Request::Tick, ..system.engine })
            &&& after.outside == system.outside
            &&& system.engine.step(EventView::Command(None), now).1.effects.len() == 0
        }),
{
    reveal(System::is_sound);
}

/// Once FFmpeg was started, the window speaks of a stream.
pub proof fn a_started_ffmpeg_streams(system: System, pid: u32, now: int)
    requires
        system.is_sound(),
        system.engine.awaiting is Spawn,
    ensures
        ({
            let after = system.next(EventView::Spawned(Some(pid)), now);
            &&& after.outside == (Outside {
                status: StatusView::Streaming,
                child: Some(pid),
                ..system.outside
            })
            &&& after.engine == (EngineView {
                ffmpeg_running: true,
                awaiting: Request::Tick,
                ..system.engine
            })
        }),
{
    reveal(System::is_sound);
    reveal_with_fuel(Outside::after_first, 3);
}

/// An FFmpeg that came to its end is started anew, after two seconds. By then the old process is
/// cleared away, and the window says that the connection is being made.
pub proof fn a_dead_ffmpeg_is_restarted(system: System, now: int)
    requires
        system.is_sound(),
        system.engine.awaiting is FfmpegExited,
    ensures
        ({
            let (engine, turn) = system.engine.step(EventView::FfmpegExited(true), now);
            let after = system.next(EventView::FfmpegExited(true), now);
            let gone = Outside {
                status: StatusView::Connecting,
                child: None,
                ..system.outside
            };
            &&& turn.effects.len() > 2
            &&& turn.effects[2] == EffectView::Sleep(2000)
            &&& system.outside.after_first(turn.effects, 2) == gone
            &&& after.outside == gone
            &&& after.engine == (EngineView {
                ffmpeg_running: false,
                awaiting: Request::Spawn,
                ..system.engine
            })
        }),
{
    reveal(System::is_sound);
    reveal_with_fuel(Outside::after_first, 6);
}

/// An FFmpeg that could not be started is tried again: the window says so for two seconds, the phone
/// stays in reach, and the next round in which no look for it is due starts FFmpeg.
pub proof fn a_failed_start_is_tried_again(system: System, now: int, later: int)
    requires
        system.is_sound(),
        system.engine.awaiting is Spawn,
    ensures
        ({
            let turn = system.engine.step(EventView::Spawned(None), now).1;
            let failed = system.next(EventView::Spawned(None), now);
            let ticked = failed.next(EventView::Ticked, now);
            let again = ticked.next(EventView::Command(None), later);
            let shown = Outside {
                status: StatusView::Error("No se pudo iniciar FFmpeg"@),
                ..system.outside
            };
            &&& turn.effects.len() > 0
            &&& turn.effects.last() == EffectView::Sleep(2000)
            &&& system.outside.after_first(turn.effects, (turn.effects.len() - 1) as nat) == shown
            &&& failed.outside == shown
            &&& failed.engine == (EngineView { awaiting: Request::Tick, ..system.engine })
            &&& later - system.engine.last_check < 2_000_000_000 ==> again.engine.awaiting is Spawn
        }),
{
    reveal(System::is_sound);
    reveal_with_fuel(Outside::after_first, 6);
}

/// The engine pauses in the middle of a round only after trouble with FFmpeg, and then for two
/// seconds.
pub proof fn the_engine_pauses_only_after_trouble(
    engine: EngineView,
    event: EventView,
    now: int,
    i: int,
)
    requires
        0 <= i < engine.step(event, now).1.effects.len(),
        engine.step(event, now).1.effects[i] is Sleep,
    ensures
        event == EventView::FfmpegExited(true) || event == EventView::Spawned(None),
        engine.step(event, now).1.effects[i] == EffectView::Sleep(2000),
{
}

/// Only the user starts, stops and configures: whatever else comes, the engine keeps its wish and
/// its configuration. When the phone was last looked for changes only with a start, an update or the
/// beginning of a round. All commands that have come are taken before a round goes on, and a round
/// ends with a sleep, after which the next begins.
pub proof fn only_the_user_decides(engine: EngineView, event: EventView, now: int)
    ensures
        ({
            let (after, turn) = engine.step(event, now);
            &&& after.awaiting == turn.next
            &&& !(event matches EventView::Command(Some(_))) ==> after.active == engine.active
                && after.config == engine.config
            &&& !(event is Command) ==> after.last_check == engine.last_check
            &&& event matches EventView::Command(Some(_)) ==> turn.next is Command
            &&& event == EventView::Ticked ==> turn.effects.len() == 0 && after == (EngineView {
                awaiting: Request::Command,
                ..engine
            })
            &&& turn.next is Command ==> (event is Command || event is Ticked)
            &&& event == EventView::Command(Some(EngineCmdView::Stop)) ==> after == (EngineView {
                active: false,
                ffmpeg_running: false,
                device_ready: false,
                awaiting: Request::Command,
                ..engine
            })
        }),
{
}

/// Every outcome of a request is an answer to it, and to no other kind of request.
pub proof fn every_outcome_is_an_answer(
    event: EventView,
    ok: bool,
    port: u16,
    pid: Option<u32>,
    command: Option<EngineCmdView>,
)
    ensures
        EventView::Command(command).answers(Request::Command),
        EventView::DeviceConnected(ok).answers(Request::DeviceConnected),
        EventView::Forwarded(ok).answers(Request::Forward(port)),
        EventView::FfmpegExited(ok).answers(Request::FfmpegExited),
        EventView::Spawned(pid).answers(Request::Spawn),
        EventView::Ticked.answers(Request::Tick),
        event.answers(Request::Command) ==> event is Command,
        event.answers(Request::DeviceConnected) ==> event is DeviceConnected,
        event.answers(Request::Forward(port)) ==> event is Forwarded,
        event.answers(Request::FfmpegExited) ==> event is FfmpegExited,
        event.answers(Request::Spawn) ==> event is Spawned,
        event.answers(Request::Tick) ==> event is Ticked,
{
}

/// A look for the phone is forced by a start, and by an update exactly if it changes the port of a
/// phone in reach. It is dated a minute back.
pub proof fn what_forces_a_look(engine: EngineView, event: EventView, new: ConfigView, now: int)
    ensures
        engine.forces_check(EventView::Command(Some(EngineCmdView::Start))),
        engine.forces_check(EventView::Command(Some(EngineCmdView::UpdateConfig(new)))) <==> (
        engine.device_ready && new.adb_port != engine.config.adb_port),
        engine.forces_check(event) ==> event is Command && engine.step(event, now).0.last_check
            == now - 60_000_000_000,
        !engine.forces_check(event) && event != EventView::Command(None) ==> engine.step(
            event,
            now,
        ).0.last_check == engine.last_check,
{
}

} // verus!
