//! Bringing the virtual camera up, step by step, and taking it down.
//!
//! Every step is a call into Media Foundation. [`Setup::advance`] takes what the last one brought
//! and says which comes next; the first that fails ends the attempt.
use vstd::prelude::*;
use vstd::string::*;

use crate::windows::camera::E_INVALIDARG;

verus! {

/// The name under which other programs list the camera.
pub fn camera_name() -> (r: String)
    ensures
        r@ == "AndroidCam"@,
{
    "AndroidCam".to_string()
}

/// The identifier of the camera's source. It never changes, so that the same camera is found again.
pub fn source_id() -> (r: String)
    ensures
        r@ == "{5B9A4C2D-8E1F-4A3B-9C7D-0F2E1A5B6C4D}"@,
{
    "{5B9A4C2D-8E1F-4A3B-9C7D-0F2E1A5B6C4D}".to_string()
}

/// How the camera is brought up.
#[derive(Clone, Copy, PartialEq, Eq, Structural, Debug)]
pub enum Route {
    /// The camera is taken to have the plain layout, so the media source is handed to it. The
    /// stream's event queue comes with the start of the stream.
    Direct,
    /// The camera is asked for its layout. The stream's event queue is made beforehand.
    Negotiated,
}

/// A step on the way to a camera that runs.
#[derive(Clone, Copy, PartialEq, Eq, Structural, Debug)]
pub enum SetupStep {
    /// Start Media Foundation.
    Startup,
    /// Make the stream's event queue. This has to be done before Media Foundation calls back.
    StreamQueue,
    /// Build the media type.
    MediaType,
    /// Make the stream descriptor.
    StreamDescriptor,
    /// Set the attributes of the stream: its number, its category, its kind of frames.
    StreamAttributes,
    /// Make the media type the current one.
    CurrentMediaType,
    /// Make the presentation descriptor and select the stream.
    PresentationDescriptor,
    /// Make the media source.
    Source,
    /// Load the function that creates virtual cameras.
    LoadCreate,
    /// Create the virtual camera.
    Create,
    /// Hand the media source to the camera.
    AddMediaSource,
    /// Register a class factory that makes the media source.
    RegisterFactory,
    /// Start the camera.
    Start,
    /// The camera runs.
    Ready,
    /// The attempt has failed with this code.
    Failed(i32),
}

/// What a step brought.
#[derive(Clone, Copy, PartialEq, Eq, Structural, Debug)]
pub enum SetupEvent {
    /// It went well.
    Done,
    /// The camera was created; whether a media source can be handed to it.
    Created(bool),
    /// The class factory was registered under this number.
    Registered(u32),
    /// It failed with this code.
    Failed(i32),
}

impl SetupStep {
    /// Whether the attempt is over.
    pub open spec fn is_final(self) -> bool {
        self is Ready || self is Failed
    }

    /// How many steps lie before this one.
    pub open spec fn rank(self) -> int {
        match self {
            SetupStep::Startup => 0,
            SetupStep::StreamQueue => 1,
            SetupStep::MediaType => 2,
            SetupStep::StreamDescriptor => 3,
            SetupStep::StreamAttributes => 4,
            SetupStep::CurrentMediaType => 5,
            SetupStep::PresentationDescriptor => 6,
            SetupStep::Source => 7,
            SetupStep::LoadCreate => 8,
            SetupStep::Create => 9,
            SetupStep::AddMediaSource => 10,
            SetupStep::RegisterFactory => 10,
            SetupStep::Start => 11,
            SetupStep::Ready => 12,
            SetupStep::Failed(_) => 12,
        }
    }

    /// The step after this one, if it went well. `takes_source` says whether a media source can be
    /// handed to the camera, where it was asked.
    pub open spec fn following(self, route: Route, takes_source: bool) -> SetupStep {
        match self {
            SetupStep::Startup => match route {
                Route::Direct => SetupStep::MediaType,
                Route::Negotiated => SetupStep::StreamQueue,
            },
            SetupStep::StreamQueue => SetupStep::MediaType,
            SetupStep::MediaType => SetupStep::StreamDescriptor,
            SetupStep::StreamDescriptor => SetupStep::StreamAttributes,
            SetupStep::StreamAttributes => SetupStep::CurrentMediaType,
            SetupStep::CurrentMediaType => SetupStep::PresentationDescriptor,
            SetupStep::PresentationDescriptor => SetupStep::Source,
            SetupStep::Source => SetupStep::LoadCreate,
            SetupStep::LoadCreate => SetupStep::Create,
            SetupStep::Create => if takes_source || route is Direct {
                SetupStep::AddMediaSource
            } else {
                SetupStep::RegisterFactory
            },
            SetupStep::AddMediaSource => SetupStep::Start,
            SetupStep::RegisterFactory => SetupStep::Start,
            SetupStep::Start => SetupStep::Ready,
            SetupStep::Ready => SetupStep::Ready,
            SetupStep::Failed(hr) => SetupStep::Failed(hr),
        }
    }
}

impl SetupEvent {
    /// Whether the event can come of this step.
    pub open spec fn fits(self, step: SetupStep) -> bool {
        match self {
            SetupEvent::Failed(hr) => hr < 0 && !step.is_final(),
            SetupEvent::Created(_) => step is Create,
            SetupEvent::Registered(_) => step is RegisterFactory,
            SetupEvent::Done => !step.is_final() && !(step is Create) && !(step is RegisterFactory),
        }
    }
}

/// An attempt to bring the camera up.
#[derive(Clone, Copy, PartialEq, Eq, Structural, Debug)]
pub struct Setup {
    pub route: Route,
    pub step: SetupStep,
    /// The number of the class factory, or zero where there is none.
    pub reg_cookie: u32,
    /// Whether the failure is the one that Windows' developer mode would cure.
    pub developer_mode_hint: bool,
}

/// Something to be done when the camera is given up.
#[derive(Clone, Copy, PartialEq, Eq, Structural, Debug)]
pub enum TeardownStep {
    /// Take no more frames.
    StopRunning,
    /// Revoke the class factory with this number.
    RevokeFactory(u32),
    /// Shut Media Foundation down.
    MfShutdown,
}

impl Setup {
    pub open spec fn after(self, event: SetupEvent) -> Setup {
        match event {
            SetupEvent::Failed(hr) => Setup {
                step: SetupStep::Failed(hr),
                developer_mode_hint: self.step is Create && hr == E_INVALIDARG,
                ..self
            },
            SetupEvent::Created(takes_source) => Setup {
                step: self.step.following(self.route, takes_source),
                ..self
            },
            SetupEvent::Registered(cookie) => Setup {
                step: self.step.following(self.route, true),
                reg_cookie: cookie,
                ..self
            },
            SetupEvent::Done => Setup { step: self.step.following(self.route, true), ..self },
        }
    }

    pub open spec fn initial(route: Route) -> Setup {
        Setup { route, step: SetupStep::Startup, reg_cookie: 0, developer_mode_hint: false }
    }

    /// An attempt that has not begun.
    pub fn new(route: Route) -> (r: Setup)
        ensures
            r == Setup::initial(route),
    {
        Setup { route, step: SetupStep::Startup, reg_cookie: 0, developer_mode_hint: false }
    }

    /// Whether the event can come of the step that the attempt has reached.
    pub fn expects(&self, event: SetupEvent) -> (r: bool)
        ensures
            r == event.fits(self.step),
    {
        match (event, self.step) {
            (_, SetupStep::Ready) => false,
            (_, SetupStep::Failed(_)) => false,
            (SetupEvent::Failed(hr), _) => hr < 0,
            (SetupEvent::Created(_), SetupStep::Create) => true,
            (SetupEvent::Registered(_), SetupStep::RegisterFactory) => true,
            (SetupEvent::Done, SetupStep::Create) => false,
            (SetupEvent::Done, SetupStep::RegisterFactory) => false,
            (SetupEvent::Done, _) => true,
            _ => false,
        }
    }

    /// Takes what the last step brought and says which comes next.
    pub fn advance(&mut self, event: SetupEvent) -> (r: SetupStep)
        requires
            event.fits(old(self).step),
        ensures
            *final(self) == old(self).after(event),
            r == final(self).step,
    {
        match event {
            SetupEvent::Failed(hr) => {
                self.developer_mode_hint = match self.step {
                    SetupStep::Create => hr == E_INVALIDARG,
                    _ => false,
                };
                self.step = SetupStep::Failed(hr);
            },
            SetupEvent::Created(takes_source) => {
                self.step = match self.route {
                    Route::Direct => SetupStep::AddMediaSource,
                    Route::Negotiated => if takes_source {
                        SetupStep::AddMediaSource
                    } else {
                        SetupStep::RegisterFactory
                    },
                };
            },
            SetupEvent::Registered(cookie) => {
                self.reg_cookie = cookie;
                self.step = SetupStep::Start;
            },
            SetupEvent::Done => {
                self.step = match self.step {
                    SetupStep::Startup => match self.route {
                        Route::Direct => SetupStep::MediaType,
                        Route::Negotiated => SetupStep::StreamQueue,
                    },
                    SetupStep::StreamQueue => SetupStep::MediaType,
                    SetupStep::MediaType => SetupStep::StreamDescriptor,
                    SetupStep::StreamDescriptor => SetupStep::StreamAttributes,
                    SetupStep::StreamAttributes => SetupStep::CurrentMediaType,
                    SetupStep::CurrentMediaType => SetupStep::PresentationDescriptor,
                    SetupStep::PresentationDescriptor => SetupStep::Source,
                    SetupStep::Source => SetupStep::LoadCreate,
                    SetupStep::LoadCreate => SetupStep::Create,
                    SetupStep::AddMediaSource => SetupStep::Start,
                    SetupStep::Start => SetupStep::Ready,
                    other => other,
                };
            },
        }
        self.step
    }

    pub open spec fn steps_down(self) -> Seq<TeardownStep> {
        if self.reg_cookie != 0 {
            seq![
                TeardownStep::StopRunning,
                TeardownStep::RevokeFactory(self.reg_cookie),
                TeardownStep::MfShutdown,
            ]
        } else {
            seq![TeardownStep::StopRunning, TeardownStep::MfShutdown]
        }
    }

    /// What is to be done when the camera is given up.
    pub fn teardown(&self) -> (r: Vec<TeardownStep>)
        ensures
            r@ == self.steps_down(),
    {
        let mut steps: Vec<TeardownStep> = Vec::new();
        steps.push(TeardownStep::StopRunning);
        if self.reg_cookie != 0 {
            steps.push(TeardownStep::RevokeFactory(self.reg_cookie));
        }
        steps.push(TeardownStep::MfShutdown);
        assert(steps@ =~= self.steps_down());
        steps
    }
}

// ── What an attempt can rely on ──────────────────────────────────────────────
impl Setup {
    /// After the first `n` of `events`.
    pub open spec fn after_first(self, events: Seq<SetupEvent>, n: nat) -> Setup
        decreases n,
    {
        if n == 0 {
            self
        } else {
            self.after_first(events, (n - 1) as nat).after(events[n - 1])
        }
    }

    /// Whether each of the first `n` of `events` can come of the step that the attempt has reached.
    #[verifier::opaque]
    pub open spec fn run_is_proper(self, events: Seq<SetupEvent>, n: nat) -> bool {
        forall|k: int|
            0 <= k < n ==> (#[trigger] events[k]).fits(self.after_first(events, k as nat).step)
    }
}

proof fn lemma_last_event(setup: Setup, events: Seq<SetupEvent>, n: nat)
    requires
        0 < n <= events.len(),
        setup.run_is_proper(events, n),
    ensures
        setup.run_is_proper(events, (n - 1) as nat),
        events[n - 1].fits(setup.after_first(events, (n - 1) as nat).step),
{
    reveal(Setup::run_is_proper);
}

/// The steps of an attempt that goes well, in order.
#[verifier::opaque]
pub open spec fn steps_up(route: Route, takes_source: bool) -> Seq<SetupStep> {
    (match route {
        Route::Direct => seq![SetupStep::Startup],
        Route::Negotiated => seq![SetupStep::Startup, SetupStep::StreamQueue],
    }) + seq![
        SetupStep::MediaType,
        SetupStep::StreamDescriptor,
        SetupStep::StreamAttributes,
        SetupStep::CurrentMediaType,
        SetupStep::PresentationDescriptor,
        SetupStep::Source,
        SetupStep::LoadCreate,
        SetupStep::Create,
        if takes_source || route is Direct {
            SetupStep::AddMediaSource
        } else {
            SetupStep::RegisterFactory
        },
        SetupStep::Start,
        SetupStep::Ready,
    ]
}

proof fn lemma_next_step_up(before: Setup, event: SetupEvent, takes_source: bool, k: nat)
    requires
        k < steps_up(before.route, takes_source).len(),
        before.step == steps_up(before.route, takes_source)[k as int],
        event.fits(before.step),
        !(event is Failed),
        event is Created ==> event == SetupEvent::Created(takes_source),
    ensures
        k + 1 < steps_up(before.route, takes_source).len(),
        before.after(event).route == before.route,
        before.after(event).step == steps_up(before.route, takes_source)[k as int + 1],
{
    reveal(steps_up);
}

/// As long as every step goes well, the steps come in order, and the camera runs after the last.
/// `takes_source` is what the camera said when it was created.
pub proof fn steps_come_in_order(
    route: Route,
    takes_source: bool,
    events: Seq<SetupEvent>,
    n: nat,
)
    requires
        n <= events.len(),
        Setup::initial(route).run_is_proper(events, n),
        forall|k: int| 0 <= k < n ==> !(#[trigger] events[k] is Failed),
        forall|k: int|
            0 <= k < n && #[trigger] events[k] is Created ==> events[k] == SetupEvent::Created(
                takes_source,
            ),
    ensures
        n < steps_up(route, takes_source).len(),
        Setup::initial(route).after_first(events, n).route == route,
        Setup::initial(route).after_first(events, n).step == steps_up(route, takes_source)[n as int],
    decreases n,
{
    if n > 0 {
        let m = (n - 1) as nat;
        lemma_last_event(Setup::initial(route), events, n);
        steps_come_in_order(route, takes_source, events, m);
        let before = Setup::initial(route).after_first(events, m);
        let event = events[n - 1];
        lemma_next_step_up(before, event, takes_source, m);
    } else {
        reveal(steps_up);
    }
}

impl Setup {
    /// What the first `n` of `events` have to do with the step that the attempt has reached.
    #[verifier::opaque]
    pub open spec fn is_due_to(self, events: Seq<SetupEvent>, n: nat) -> bool {
        // Unless the attempt has failed, every step so far went well.
        &&& !(self.step is Failed) ==> self.step.rank() == n + (if n > 0 && self.route is Direct {
            1int
        } else {
            0
        }) && !self.developer_mode_hint
        &&& !(self.step is Failed) ==> forall|k: int|
            0 <= k < n ==> !(#[trigger] events[k] is Failed)
        // A failed attempt has failed with the code of its last step.
        &&& self.step matches SetupStep::Failed(hr) ==> n > 0 && events[n - 1]
            == SetupEvent::Failed(hr)
        // A number of a class factory comes from its registration.
        &&& self.reg_cookie != 0 ==> exists|k: int|
            0 <= k < n && #[trigger] events[k] == SetupEvent::Registered(self.reg_cookie)
        // On the direct way no event queue is made beforehand and no class factory is registered.
        &&& self.route is Direct ==> self.reg_cookie == 0 && !(self.step is StreamQueue) && !(
        self.step is RegisterFactory)
        // Developer mode is only thought of where an argument was not accepted.
        &&& self.developer_mode_hint ==> self.step == SetupStep::Failed(E_INVALIDARG)
    }
}

proof fn lemma_one_step(before: Setup, events: Seq<SetupEvent>, n: nat)
    requires
        0 < n <= events.len(),
        before.is_due_to(events, (n - 1) as nat),
        events[n - 1].fits(before.step),
    ensures
        before.after(events[n - 1]).is_due_to(events, n),
        before.after(events[n - 1]).route == before.route,
{
    reveal(Setup::is_due_to);
    let event = events[n - 1];
    let now = before.after(event);
    if event is Failed {
        if now.reg_cookie != 0 {
            let k = choose|k: int|
                0 <= k < n - 1 && #[trigger] events[k] == SetupEvent::Registered(now.reg_cookie);
            assert(events[k] == SetupEvent::Registered(now.reg_cookie));
        }
    } else {
        assert(!(now.step is Failed));
        if event is Registered {
            assert(events[n - 1] == SetupEvent::Registered(now.reg_cookie));
        } else if now.reg_cookie != 0 {
            let k = choose|k: int|
                0 <= k < n - 1 && #[trigger] events[k] == SetupEvent::Registered(now.reg_cookie);
            assert(events[k] == SetupEvent::Registered(now.reg_cookie));
        }
    }
}

proof fn lemma_steps_to_ready(now: Setup, events: Seq<SetupEvent>, n: nat)
    requires
        now.is_due_to(events, n),
        now.step is Ready,
    ensures
        n == match now.route {
            Route::Direct => 11nat,
            Route::Negotiated => 12nat,
        },
{
    reveal(Setup::is_due_to);
}

/// A camera runs only after every step went well, one after another; the first failure ends the
/// attempt with its own code. A class factory has a number only if it was registered.
pub proof fn a_camera_runs_only_if_every_step_went_well(
    route: Route,
    events: Seq<SetupEvent>,
    n: nat,
)
    requires
        n <= events.len(),
        Setup::initial(route).run_is_proper(events, n),
    ensures
        Setup::initial(route).after_first(events, n).route == route,
        Setup::initial(route).after_first(events, n).is_due_to(events, n),
        Setup::initial(route).after_first(events, n).step is Ready ==> n == match route {
            Route::Direct => 11nat,
            Route::Negotiated => 12nat,
        },
    decreases n,
{
    if n > 0 {
        lemma_last_event(Setup::initial(route), events, n);
        a_camera_runs_only_if_every_step_went_well(route, events, (n - 1) as nat);
        let before = Setup::initial(route).after_first(events, (n - 1) as nat);
        lemma_one_step(before, events, n);
    } else {
        reveal(Setup::is_due_to);
    }
    let now = Setup::initial(route).after_first(events, n);
    if now.step is Ready {
        lemma_steps_to_ready(now, events, n);
    }
}

/// However it goes, an attempt ends after at most twelve steps.
pub proof fn an_attempt_ends(setup: Setup, event: SetupEvent)
    requires
        event.fits(setup.step),
    ensures
        setup.step.rank() < setup.after(event).step.rank() <= 12,
{
}

/// A step that fails ends the attempt with its code, and Windows' developer mode is thought of
/// exactly where the camera could not be created for want of a valid argument. What was registered
/// before stays registered.
pub proof fn a_failure_ends_the_attempt(setup: Setup, hr: i32)
    ensures
        setup.after(SetupEvent::Failed(hr)).step == SetupStep::Failed(hr),
        setup.after(SetupEvent::Failed(hr)).developer_mode_hint <==> setup.step is Create && hr
            == -2147024809,
        setup.after(SetupEvent::Failed(hr)).reg_cookie == setup.reg_cookie,
        setup.after(SetupEvent::Failed(hr)).route == setup.route,
{
}

/// The number of a class factory is kept as it was given, and nothing but a registration sets it.
pub proof fn a_registration_is_kept(setup: Setup, event: SetupEvent)
    ensures
        setup.after(event).reg_cookie == match event {
            SetupEvent::Registered(cookie) => cookie,
            _ => setup.reg_cookie,
        },
        setup.after(event).route == setup.route,
        !(event is Failed) ==> setup.after(event).developer_mode_hint == setup.developer_mode_hint,
{
}

/// Any step that is not the last can fail, creating the camera says whether it takes a source,
/// registering brings a number, and every other step just goes well.
pub proof fn each_step_brings_what_it_is_for(step: SetupStep, hr: i32, takes: bool, cookie: u32)
    ensures
        SetupEvent::Failed(hr).fits(step) <==> hr < 0 && !(step is Ready) && !(step is Failed),
        SetupEvent::Created(takes).fits(step) <==> step is Create,
        SetupEvent::Registered(cookie).fits(step) <==> step is RegisterFactory,
        SetupEvent::Done.fits(step) <==> !(step is Ready) && !(step is Failed) && !(
        step is Create) && !(step is RegisterFactory),
{
}

/// A camera that is given up first takes no more frames, then loses its class factory, if it has
/// one, and Media Foundation is shut down last.
pub proof fn a_camera_is_taken_down_in_order(setup: Setup)
    ensures
        ({
            let steps = setup.steps_down();
            &&& steps[0] == TeardownStep::StopRunning
            &&& steps.last() == TeardownStep::MfShutdown
            &&& setup.reg_cookie == 0 ==> steps.len() == 2
            &&& setup.reg_cookie != 0 ==> steps.len() == 3 && steps[1]
                == TeardownStep::RevokeFactory(setup.reg_cookie)
        }),
{
}

} // verus!
