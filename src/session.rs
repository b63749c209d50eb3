//! The initialization sequence of one mounted canvas, as a state machine.
//!
//! The host performs each action it is handed (creating the surface, asking for an
//! adapter and a device, reading the surface's capabilities, drawing) and reports the
//! outcome back as an event. Each mounted canvas owns its own session.
use vstd::prelude::*;
use vstd::string::*;
use crate::frame::{FramePlan, planned_frame, plan_frame};
use crate::surface::SurfaceCaps;

verus! {

/// Why initialization stopped. Where the platform gave a reason, it is kept as text.
#[derive(Clone, Debug, PartialEq, Eq)]
pub enum InitError {
    /// The canvas could not be bound as a surface.
    SurfaceCreationFailed(String),
    /// No adapter compatible with the surface was offered.
    AdapterUnavailable,
    /// The adapter declined to open a device.
    DeviceRequestFailed(String),
    /// The surface reports no format, no present mode or no alpha mode to use.
    SurfaceIncompatible,
}

/// The human-readable description of an error.
pub open spec fn message_of(e: InitError) -> Seq<char> {
    match e {
        InitError::SurfaceCreationFailed(reason) => "Failed to create surface: "@ + reason@,
        InitError::AdapterUnavailable => "Failed to get adapter"@,
        InitError::DeviceRequestFailed(reason) => "Failed to get device: "@ + reason@,
        InitError::SurfaceIncompatible => "Surface supports no usable configuration"@,
    }
}

impl InitError {
    /// A human-readable description of the error, with the platform's reason where
    /// there is one.
    pub fn message(&self) -> (r: String)
        ensures
            r@ == message_of(*self),
    {
        match self {
            InitError::SurfaceCreationFailed(reason) => String::from_str("Failed to create surface: ").concat(
                reason.as_str(),
            ),
            InitError::AdapterUnavailable => String::from_str("Failed to get adapter"),
            InitError::DeviceRequestFailed(reason) => String::from_str("Failed to get device: ").concat(
                reason.as_str(),
            ),
            InitError::SurfaceIncompatible => String::from_str("Surface supports no usable configuration"),
        }
    }
}

/// Where a session stands.
#[derive(Clone, Debug, PartialEq, Eq)]
pub enum Phase {
    Uninitialized,
    CreatingSurface,
    RequestingAdapter,
    RequestingDevice,
    ReadingCapabilities,
    /// The frame was handed out to be drawn; nothing follows.
    Rendered,
    /// Initialization stopped; nothing follows.
    Failed(InitError),
}

/// What the host reports.
#[derive(Clone, Debug)]
pub enum Event {
    /// The canvas is in the document: begin.
    Start,
    SurfaceCreated,
    /// The surface could not be created, for the reason given.
    SurfaceRefused(String),
    AdapterOffered,
    AdapterRefused,
    DeviceGranted,
    /// The device was refused, for the reason given.
    DeviceRefused(String),
    /// What the surface supports with the adapter obtained.
    Capabilities(SurfaceCaps),
}

/// What the host is to do next.
#[derive(Clone, Debug)]
pub enum Action {
    CreateSurface,
    RequestAdapter,
    RequestDevice,
    ReadCapabilities,
    /// Configure the surface and draw the frame, once.
    Draw(FramePlan),
    /// Stop: initialization failed. Nothing is drawn.
    GiveUp(InitError),
    /// The event does not apply to the current phase: do nothing.
    Wait,
}

/// One mounted canvas and the progress of its initialization.
#[derive(Clone, Debug)]
pub struct Session {
    pub phase: Phase,
    pub width: u32,
    pub height: u32,
}

/// The session `s` moved to phase `p`.
pub open spec fn moved(s: Session, p: Phase) -> Session {
    Session { phase: p, width: s.width, height: s.height }
}

/// The phase a session moves to, and the action it asks for, on an event.
pub open spec fn transition(s: Session, e: Event) -> (Session, Action) {
    match (s.phase, e) {
        (Phase::Uninitialized, Event::Start) => (moved(s, Phase::CreatingSurface), Action::CreateSurface),
        (Phase::CreatingSurface, Event::SurfaceCreated) => (moved(s, Phase::RequestingAdapter), Action::RequestAdapter),
        (Phase::CreatingSurface, Event::SurfaceRefused(reason)) => (
            moved(s, Phase::Failed(InitError::SurfaceCreationFailed(reason))),
            Action::GiveUp(InitError::SurfaceCreationFailed(reason)),
        ),
        (Phase::RequestingAdapter, Event::AdapterOffered) => (moved(s, Phase::RequestingDevice), Action::RequestDevice),
        (Phase::RequestingAdapter, Event::AdapterRefused) => (
            moved(s, Phase::Failed(InitError::AdapterUnavailable)),
            Action::GiveUp(InitError::AdapterUnavailable),
        ),
        (Phase::RequestingDevice, Event::DeviceGranted) => (moved(s, Phase::ReadingCapabilities), Action::ReadCapabilities),
        (Phase::RequestingDevice, Event::DeviceRefused(reason)) => (
            moved(s, Phase::Failed(InitError::DeviceRequestFailed(reason))),
            Action::GiveUp(InitError::DeviceRequestFailed(reason)),
        ),
        (Phase::ReadingCapabilities, Event::Capabilities(caps)) => if caps.usable() {
            (moved(s, Phase::Rendered), Action::Draw(planned_frame(caps, s.width, s.height)))
        } else {
            (moved(s, Phase::Failed(InitError::SurfaceIncompatible)), Action::GiveUp(InitError::SurfaceIncompatible))
        },
        _ => (s, Action::Wait),
    }
}

/// Where a session ends up after a run of events, and the actions asked for on the way.
pub open spec fn run(s: Session, events: Seq<Event>) -> (Session, Seq<Action>)
    decreases events.len(),
{
    if events.len() == 0 {
        (s, Seq::empty())
    } else {
        let (t, a) = transition(s, events[0]);
        let (u, rest) = run(t, events.drop_first());
        (u, seq![a] + rest)
    }
}

impl Session {
    /// A freshly mounted canvas of `width` by `height` pixels. It shares nothing with
    /// any other session: each mount starts from the beginning.
    pub fn new(width: u32, height: u32) -> (r: Session)
        ensures
            r.phase == Phase::Uninitialized,
            r.width == width,
            r.height == height,
    {
        Session { phase: Phase::Uninitialized, width, height }
    }

    /// Whether the session has reached an end, drawn or failed.
    pub fn is_finished(&self) -> (r: bool)
        ensures
            r <==> (self.phase is Rendered || self.phase is Failed),
    {
        match self.phase {
            Phase::Rendered | Phase::Failed(_) => true,
            _ => false,
        }
    }

    /// Takes in what the host reports and says what it is to do next.
    pub fn handle(&mut self, event: Event) -> (a: Action)
        ensures
            (*final(self), a) == transition(*old(self), event),
    {
        let (next, action): (Option<Phase>, Action) = match (&self.phase, event) {
            (Phase::Uninitialized, Event::Start) => (Some(Phase::CreatingSurface), Action::CreateSurface),
            (Phase::CreatingSurface, Event::SurfaceCreated) => (Some(Phase::RequestingAdapter), Action::RequestAdapter),
            (Phase::CreatingSurface, Event::SurfaceRefused(reason)) => (
                Some(Phase::Failed(InitError::SurfaceCreationFailed(reason.clone()))),
                Action::GiveUp(InitError::SurfaceCreationFailed(reason)),
            ),
            (Phase::RequestingAdapter, Event::AdapterOffered) => (Some(Phase::RequestingDevice), Action::RequestDevice),
            (Phase::RequestingAdapter, Event::AdapterRefused) => (
                Some(Phase::Failed(InitError::AdapterUnavailable)),
                Action::GiveUp(InitError::AdapterUnavailable),
            ),
            (Phase::RequestingDevice, Event::DeviceGranted) => (Some(Phase::ReadingCapabilities), Action::ReadCapabilities),
            (Phase::RequestingDevice, Event::DeviceRefused(reason)) => (
                Some(Phase::Failed(InitError::DeviceRequestFailed(reason.clone()))),
                Action::GiveUp(InitError::DeviceRequestFailed(reason)),
            ),
            (Phase::ReadingCapabilities, Event::Capabilities(caps)) => if caps.is_usable() {
                (Some(Phase::Rendered), Action::Draw(plan_frame(&caps, self.width, self.height)))
            } else {
                (Some(Phase::Failed(InitError::SurfaceIncompatible)), Action::GiveUp(InitError::SurfaceIncompatible))
            },
            _ => (None, Action::Wait),
        };
        if let Some(p) = next {
            self.phase = p;
        }
        action
    }
}

/// A failed session stays failed, whatever it is told afterwards, and never asks
/// for a frame to be drawn.
pub proof fn lemma_failed_stays_blank(s: Session, events: Seq<Event>)
    requires
        s.phase is Failed,
    ensures
        run(s, events).0 == s,
        forall|i: int| 0 <= i < run(s, events).1.len() ==> !(#[trigger] run(s, events).1[i] is Draw),
    decreases events.len(),
{
    if events.len() > 0 {
        lemma_failed_stays_blank(s, events.drop_first());
        let rest = run(s, events.drop_first()).1;
        assert(run(s, events).1 == seq![Action::Wait] + rest);
        assert forall|i: int| 0 <= i < run(s, events).1.len() implies !(#[trigger] run(s, events).1[i] is Draw) by {
            if i > 0 {
                assert(run(s, events).1[i] == rest[i - 1]);
            }
        }
    }
}

/// When no adapter is offered, or the device is refused, the session fails with that
/// error and nothing is ever drawn, whatever follows.
pub proof fn lemma_negotiation_failure_draws_nothing(s: Session, events: Seq<Event>)
    requires
        events.len() > 0,
        (s.phase is RequestingAdapter && events[0] is AdapterRefused)
            || (s.phase is RequestingDevice && events[0] is DeviceRefused),
    ensures
        run(s, events).0.phase is Failed,
        s.phase is RequestingAdapter ==> run(s, events).0.phase == Phase::Failed(InitError::AdapterUnavailable),
        s.phase is RequestingDevice ==> run(s, events).0.phase == Phase::Failed(
            InitError::DeviceRequestFailed(events[0]->DeviceRefused_0),
        ),
        forall|i: int| 0 <= i < run(s, events).1.len() ==> !(#[trigger] run(s, events).1[i] is Draw),
{
    let (t, a) = transition(s, events[0]);
    assert(t.phase is Failed && a is GiveUp);
    lemma_failed_stays_blank(t, events.drop_first());
    let rest = run(t, events.drop_first()).1;
    assert(run(s, events).1 == seq![a] + rest);
    assert forall|i: int| 0 <= i < run(s, events).1.len() implies !(#[trigger] run(s, events).1[i] is Draw) by {
        if i > 0 {
            assert(run(s, events).1[i] == rest[i - 1]);
        }
    }
}

/// Two sessions driven by one interleaved stream of events; each event is tagged with
/// the session it belongs to (`true` for the first).
pub open spec fn run_both(a: Session, b: Session, events: Seq<(bool, Event)>) -> (Session, Session)
    decreases events.len(),
{
    if events.len() == 0 {
        (a, b)
    } else if events[0].0 {
        run_both(transition(a, events[0].1).0, b, events.drop_first())
    } else {
        run_both(a, transition(b, events[0].1).0, events.drop_first())
    }
}

/// The events of an interleaved stream that belong to one session, in order.
pub open spec fn events_of(events: Seq<(bool, Event)>, first: bool) -> Seq<Event>
    decreases events.len(),
{
    if events.len() == 0 {
        Seq::empty()
    } else if events[0].0 == first {
        seq![events[0].1] + events_of(events.drop_first(), first)
    } else {
        events_of(events.drop_first(), first)
    }
}

/// Running a session on one event and then on more.
proof fn lemma_run_step(s: Session, e: Event, rest: Seq<Event>)
    ensures
        run(s, seq![e] + rest).0 == run(transition(s, e).0, rest).0,
{
    let all = seq![e] + rest;
    assert(all[0] == e);
    assert(all.drop_first() =~= rest);
}

/// Two mounted canvases do not interact: however the host interleaves their events,
/// each session ends exactly where it would on its own events alone.
pub proof fn lemma_sessions_independent(a: Session, b: Session, events: Seq<(bool, Event)>)
    ensures
        run_both(a, b, events) == (run(a, events_of(events, true)).0, run(b, events_of(events, false)).0),
    decreases events.len(),
{
    if events.len() > 0 {
        let rest = events.drop_first();
        let e = events[0].1;
        if events[0].0 {
            lemma_sessions_independent(transition(a, e).0, b, rest);
            lemma_run_step(a, e, events_of(rest, true));
        } else {
            lemma_sessions_independent(a, transition(b, e).0, rest);
            lemma_run_step(b, e, events_of(rest, false));
        }
    }
}

} // verus!
