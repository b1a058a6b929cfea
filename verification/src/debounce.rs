//! Coalescing of desktop-change notifications.
//!
//! Desktop switches arrive as bursts of property-change notifications on the
//! root window (one per step of the switch, sometimes several).  Running a
//! resolution-and-apply cycle for each would decode and draw redundantly, so
//! the debouncer reacts to the first notification of a burst by writing a
//! distinguished zero-length marker property back onto the same window.  The
//! windowing system answers that write with a further notification, delivered
//! after everything already queued, so when the marker notification arrives
//! the index and names properties hold the burst's settled state and a single
//! cycle suffices.

use vstd::prelude::*;

verus! {

/// A property-change notification, classified by the property it names.
#[derive(Clone, Copy, PartialEq, Eq, Structural, Debug)]
pub enum PropEvent {
    /// The active-desktop index or the desktop-names list changed.
    DesktopState,
    /// The marker property that the debouncer itself writes.
    Marker,
    /// Any other property.
    Other,
}

/// What the event loop must do in response to one notification.
#[derive(Clone, Copy, PartialEq, Eq, Structural, Debug)]
pub enum Action {
    /// Write the zero-length marker property to the window and flush.
    PostMarker,
    /// Run a full resolution-and-apply cycle for the window.
    RunUpdate,
    /// Do nothing.
    Ignore,
}

/// The transition relation of the debouncer.  `dirty` is true exactly while a
/// coalesced update has been scheduled (marker posted) but has not yet run.
pub open spec fn step(dirty: bool, ev: PropEvent) -> (bool, Action) {
    match ev {
        PropEvent::DesktopState => if dirty {
            (true, Action::Ignore)
        } else {
            (true, Action::PostMarker)
        },
        PropEvent::Marker => (false, Action::RunUpdate),
        PropEvent::Other => (dirty, Action::Ignore),
    }
}

/// The debouncer's whole state: whether an update is pending.
pub struct Debouncer {
    pub dirty: bool,
}

impl Debouncer {
    /// True while a marker has been posted and its update has not yet run.
    pub open spec fn pending(self) -> bool {
        self.dirty
    }

    /// A fresh debouncer is idle.
    pub fn new() -> (d: Debouncer)
        ensures
            !d.pending(),
    {
        Debouncer { dirty: false }
    }

    /// Feed one property-change notification to the state machine and learn
    /// what the event loop must do for it.  The transition is exactly `step`:
    /// the first index/names change of a burst posts the marker, further ones
    /// are ignored, and the marker notification itself triggers the single
    /// resolution-and-apply cycle of the burst.
    ///
    /// The cycle runs to completion before the event loop asks for the next
    /// notification, so clearing `dirty` here, at dispatch, is equivalent to
    /// clearing it when the cycle finishes.
    pub fn on_property(&mut self, ev: PropEvent) -> (a: Action)
        ensures
            (final(self).dirty, a) == step(old(self).dirty, ev),
    {
        match ev {
            PropEvent::DesktopState => {
                if self.dirty {
                    Action::Ignore
                } else {
                    self.dirty = true;
                    Action::PostMarker
                }
            },
            PropEvent::Marker => {
                self.dirty = false;
                Action::RunUpdate
            },
            PropEvent::Other => Action::Ignore,
        }
    }
}

/// Run the debouncer over a whole sequence of notifications, collecting the
/// action taken for each.
pub open spec fn run_events(dirty: bool, evs: Seq<PropEvent>) -> (bool, Seq<Action>)
    decreases evs.len(),
{
    if evs.len() == 0 {
        (dirty, Seq::empty())
    } else {
        let first = step(dirty, evs[0]);
        let rest = run_events(first.0, evs.skip(1));
        (rest.0, seq![first.1] + rest.1)
    }
}

/// How many resolution-and-apply cycles a sequence of actions requests.
pub open spec fn count_updates(acts: Seq<Action>) -> nat
    decreases acts.len(),
{
    if acts.len() == 0 {
        0
    } else {
        (if acts[0] == Action::RunUpdate {
            1nat
        } else {
            0nat
        }) + count_updates(acts.skip(1))
    }
}

/// While an update is pending, any run of further index/names notifications
/// that ends with the marker produces exactly one update, as its last action.
proof fn lemma_pending_until_marker(evs: Seq<PropEvent>)
    requires
        forall|i: int| 0 <= i < evs.len() ==> evs[i] == PropEvent::DesktopState,
    ensures
        ({
            let r = run_events(true, evs.push(PropEvent::Marker));
            &&& !r.0
            &&& r.1.len() == evs.len() + 1
            &&& (forall|i: int| 0 <= i < evs.len() ==> r.1[i] == Action::Ignore)
            &&& r.1[evs.len() as int] == Action::RunUpdate
            &&& count_updates(r.1) == 1
        }),
    decreases evs.len(),
{
    let trace = evs.push(PropEvent::Marker);
    if evs.len() == 0 {
        assert(trace.len() == 1);
        assert(trace[0] == PropEvent::Marker);
        assert(trace.skip(1) =~= Seq::<PropEvent>::empty());
        assert(run_events(false, trace.skip(1)) == (false, Seq::<Action>::empty()));
        let r = run_events(true, trace);
        assert(r.1 =~= seq![Action::RunUpdate]);
        assert(r.1.skip(1) =~= Seq::<Action>::empty());
        assert(count_updates(r.1.skip(1)) == 0);
    } else {
        assert(trace[0] == PropEvent::DesktopState);
        assert(step(true, trace[0]) == (true, Action::Ignore));
        assert(trace.skip(1) =~= evs.skip(1).push(PropEvent::Marker));
        lemma_pending_until_marker(evs.skip(1));
        let rest = run_events(true, evs.skip(1).push(PropEvent::Marker));
        let r = run_events(true, trace);
        assert(r.1 =~= seq![Action::Ignore] + rest.1);
        assert(r.1.skip(1) =~= rest.1);
        assert(count_updates(r.1) == count_updates(rest.1));
    }
}

/// Debounce coalescing: starting idle, a burst of one or more index/names
/// notifications followed by the marker notification they provoke yields
/// exactly one resolution-and-apply cycle.  The marker itself is posted only
/// for the first notification of the burst, the update runs strictly after
/// every notification of the burst (it is the last action), and the debouncer
/// is idle again afterwards.
pub proof fn lemma_debounce_coalescing(evs: Seq<PropEvent>)
    requires
        evs.len() >= 1,
        forall|i: int| 0 <= i < evs.len() ==> evs[i] == PropEvent::DesktopState,
    ensures
        ({
            let r = run_events(false, evs.push(PropEvent::Marker));
            &&& !r.0
            &&& r.1.len() == evs.len() + 1
            &&& r.1[0] == Action::PostMarker
            &&& (forall|i: int| 1 <= i < evs.len() ==> r.1[i] == Action::Ignore)
            &&& r.1[evs.len() as int] == Action::RunUpdate
            &&& count_updates(r.1) == 1
        }),
{
    let trace = evs.push(PropEvent::Marker);
    assert(trace[0] == PropEvent::DesktopState);
    assert(step(false, trace[0]) == (true, Action::PostMarker));
    assert(trace.skip(1) =~= evs.skip(1).push(PropEvent::Marker));
    lemma_pending_until_marker(evs.skip(1));
    let rest = run_events(true, evs.skip(1).push(PropEvent::Marker));
    let r = run_events(false, trace);
    assert(r.1 =~= seq![Action::PostMarker] + rest.1);
    assert(r.1.skip(1) =~= rest.1);
    assert(count_updates(r.1) == count_updates(rest.1));
}

} // verus!
