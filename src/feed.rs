use vstd::prelude::*;
use crate::model::CarreraEvent;

verus! {

/// Events a viewer's subscription holds before it lags.
pub const CHANNEL_CAPACITY: usize = 16;

/// The label under which an event goes out on the live feed.
#[derive(Clone, Copy, Debug, PartialEq, Eq)]
pub enum FeedCategory {
    Controller,
    Arduino,
}

/// Speed reports go out as `Controller`, every other event as `Arduino`.
pub open spec fn category_spec(e: CarreraEvent) -> FeedCategory {
    match e {
        CarreraEvent::ControllerUpdate(_, _) => FeedCategory::Controller,
        _ => FeedCategory::Arduino,
    }
}

pub open spec fn category_name(c: FeedCategory) -> Seq<char> {
    match c {
        FeedCategory::Controller => "Controller"@,
        FeedCategory::Arduino => "Arduino"@,
    }
}

impl FeedCategory {
    /// The label as it stands on the wire.
    pub fn name(&self) -> (r: &'static str)
        ensures
            r@ == category_name(*self),
    {
        match self {
            FeedCategory::Controller => "Controller",
            FeedCategory::Arduino => "Arduino",
        }
    }
}

/// The label of an event.
pub fn category_of(e: &CarreraEvent) -> (r: FeedCategory)
    ensures
        r == category_spec(*e),
{
    match e {
        CarreraEvent::ControllerUpdate(_, _) => FeedCategory::Controller,
        _ => FeedCategory::Arduino,
    }
}

/// What a viewer does when it falls behind the feed.
#[derive(Clone, Copy, Debug, PartialEq, Eq)]
pub enum LagPolicy {
    /// Drop the missed events without a word.
    Skip,
    /// Tell the viewer how many events it missed.
    Notify,
}

/// What a viewer's subscription handed over.
#[derive(Clone, Copy, Debug, PartialEq, Eq)]
pub enum Received {
    Event(CarreraEvent),
    /// The subscription overflowed and this many events were dropped.
    Lagged(u64),
    /// The feed is gone.
    Closed,
}

/// What the viewer's stream does next.
#[derive(Clone, Copy, Debug, PartialEq, Eq)]
pub enum ViewerAction {
    /// Push the event under its label.
    Forward(FeedCategory, CarreraEvent),
    /// Tell the viewer that this many events were dropped, and go on.
    NotifyLag(u64),
    /// Push nothing and go on.
    Skip,
    /// End the stream.
    Stop,
}

/// One viewer's side of the feed.
#[derive(Clone, Copy, Debug, PartialEq, Eq)]
pub struct Viewer {
    pub policy: LagPolicy,
    /// Events dropped so far (saturating).
    pub missed: u64,
    /// Whether the stream still runs.
    pub open: bool,
}

pub open spec fn saturating_add_spec(a: u64, b: u64) -> u64 {
    if a + b > u64::MAX { u64::MAX } else { (a + b) as u64 }
}

/// What a viewer does with one thing received: an event is forwarded under
/// its label, a lag is counted and (under `Notify`) reported while the stream
/// goes on, and only the end of the feed ends the stream.
pub open spec fn viewer_step_spec(v: Viewer, r: Received) -> (Viewer, ViewerAction) {
    if !v.open {
        (v, ViewerAction::Stop)
    } else {
        match r {
            Received::Event(e) => (v, ViewerAction::Forward(category_spec(e), e)),
            Received::Lagged(n) => (
                Viewer { missed: saturating_add_spec(v.missed, n), ..v },
                match v.policy {
                    LagPolicy::Notify => ViewerAction::NotifyLag(n),
                    LagPolicy::Skip => ViewerAction::Skip,
                },
            ),
            Received::Closed => (Viewer { open: false, ..v }, ViewerAction::Stop),
        }
    }
}

impl Viewer {
    /// A fresh subscription: open, nothing missed.
    pub fn new(policy: LagPolicy) -> (r: Viewer)
        ensures
            r == (Viewer { policy, missed: 0, open: true }),
    {
        Viewer { policy, missed: 0, open: true }
    }

    /// Decides what to do with one thing received.
    pub fn step(&mut self, r: Received) -> (a: ViewerAction)
        ensures
            (*final(self), a) == viewer_step_spec(*old(self), r),
    {
        if !self.open {
            return ViewerAction::Stop;
        }
        match r {
            Received::Event(e) => ViewerAction::Forward(category_of(&e), e),
            Received::Lagged(n) => {
                self.missed = self.missed.saturating_add(n);
                match self.policy {
                    LagPolicy::Notify => ViewerAction::NotifyLag(n),
                    LagPolicy::Skip => ViewerAction::Skip,
                }
            },
            Received::Closed => {
                self.open = false;
                ViewerAction::Stop
            },
        }
    }
}

} // verus!
