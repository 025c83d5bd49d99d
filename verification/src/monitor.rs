//! The active-window monitor: the per-tick decision of the polling loop,
//! the law that its notifications collapse adjacent duplicate titles, the
//! shared cancellation flag, and the slot that holds at most one running
//! monitor.

use vstd::prelude::*;
use std::sync::atomic::AtomicBool;
use std::sync::atomic::Ordering;
use std::sync::Arc;
use crate::title::opt_title_view;
use crate::windows::title_of;
use crate::xconn::PropertySource;
use crate::xconn::XConn;
use crate::xconn::XError;

verus! {

/// One decision of the monitor loop body, over title views: given the last
/// emitted title and the title observed this tick, the pair of (what to
/// emit, the new last-emitted title). A tick that observes nothing, or the
/// same title again, emits nothing and keeps the last title.
pub open spec fn tick_spec(
    last: Option<Seq<char>>,
    observed: Option<Seq<char>>,
) -> (Option<Seq<char>>, Option<Seq<char>>) {
    match observed {
        Some(t) => {
            if last == Some(t) {
                (None, last)
            } else {
                (Some(t), Some(t))
            }
        },
        None => (None, last),
    }
}

/// The executable tick decision: emits exactly when the observed title
/// differs from the last emitted one.
pub fn monitor_tick(last: Option<String>, observed: Option<String>) -> (r: (
    Option<String>,
    Option<String>,
))
    ensures
        (opt_title_view(r.0), opt_title_view(r.1)) == tick_spec(
            opt_title_view(last),
            opt_title_view(observed),
        ),
{
    match observed {
        Some(t) => {
            let unchanged = match &last {
                Some(p) => p.eq(&t),
                None => false,
            };
            if unchanged {
                (None, last)
            } else {
                let emitted = t.clone();
                (Some(emitted), Some(t))
            }
        },
        None => (None, last),
    }
}

/// The notifications a listener observes when the titles of `inputs` reach
/// successive ticks, starting from last-emitted title `last`: the fold of
/// the tick decision over the inputs, keeping what it emits.
pub open spec fn monitor_emissions(last: Option<Seq<char>>, inputs: Seq<Seq<char>>) -> Seq<
    Seq<char>,
>
    decreases inputs.len(),
{
    if inputs.len() == 0 {
        Seq::empty()
    } else {
        let step = tick_spec(last, Some(inputs[0]));
        match step.0 {
            Some(t) => seq![t] + monitor_emissions(step.1, inputs.skip(1)),
            None => monitor_emissions(step.1, inputs.skip(1)),
        }
    }
}

/// A sequence with its adjacent duplicates collapsed: of every run of
/// equal consecutive elements only one copy remains.
pub open spec fn collapse_adjacent(s: Seq<Seq<char>>) -> Seq<Seq<char>>
    decreases s.len(),
{
    if s.len() == 0 {
        Seq::empty()
    } else if s.len() == 1 {
        s
    } else if s[0] == s[1] {
        collapse_adjacent(s.skip(1))
    } else {
        seq![s[0]] + collapse_adjacent(s.skip(1))
    }
}

proof fn lemma_emissions_cons(s: Seq<Seq<char>>)
    requires
        s.len() > 0,
    ensures
        collapse_adjacent(s) == seq![s[0]] + monitor_emissions(Some(s[0]), s.skip(1)),
    decreases s.len(),
{
    if s.len() == 1 {
        assert(monitor_emissions(Some(s[0]), s.skip(1)) =~= Seq::<Seq<char>>::empty());
        assert(collapse_adjacent(s) =~= seq![s[0]] + Seq::<Seq<char>>::empty());
    } else {
        let rest = s.skip(1);
        lemma_emissions_cons(rest);
        assert(rest.skip(1) =~= s.skip(2));
        if s[0] == s[1] {
            assert(collapse_adjacent(s) == collapse_adjacent(rest));
            assert(collapse_adjacent(rest) == seq![s[1]] + monitor_emissions(Some(s[1]), s.skip(2)));
            assert(monitor_emissions(Some(s[0]), rest) == monitor_emissions(Some(s[0]), s.skip(2)));
        } else {
            assert(monitor_emissions(Some(s[0]), rest) == seq![s[1]] + monitor_emissions(
                Some(s[1]),
                s.skip(2),
            ));
            assert(collapse_adjacent(s) == seq![s[0]] + collapse_adjacent(rest));
        }
    }
}

/// Law: for every sequence of titles fed to the monitor loop body, a
/// listener observes exactly that sequence with its adjacent duplicates
/// collapsed.
pub proof fn lemma_monitor_deduplicates(inputs: Seq<Seq<char>>)
    ensures
        monitor_emissions(None, inputs) == collapse_adjacent(inputs),
{
    if inputs.len() > 0 {
        lemma_emissions_cons(inputs);
    }
}

/// The cancellation flag shared between the monitor's owner and its
/// polling task: "continue" until a stop is requested. Loads say nothing
/// about their result on purpose: another handle may clear the flag at any
/// moment, so every caller is verified for both answers.
pub struct CancelFlag {
    flag: Arc<AtomicBool>,
}

impl CancelFlag {
    /// A fresh flag that says "continue".
    pub fn new() -> (r: CancelFlag) {
        CancelFlag { flag: Arc::new(AtomicBool::new(true)) }
    }

    /// Relies on `Arc::clone`: the second handle shares the first's flag.
    #[verifier::external_body]
    pub fn mirror(&self) -> (r: CancelFlag) {
        CancelFlag { flag: Arc::clone(&self.flag) }
    }

    /// Ask the polling task to stop; it observes the request on its next
    /// load of the flag.
    pub fn request_stop(&self) {
        self.flag.store(false, Ordering::SeqCst);
    }

    /// Whether the loop should run another iteration.
    pub fn should_continue(&self) -> (r: bool) {
        self.flag.load(Ordering::SeqCst)
    }
}

/// One running monitor: the handle of its background task and the flag
/// that cancels it. `H` is the host's task-handle type.
pub struct RunningMonitor<H> {
    pub task: H,
    pub cancel: CancelFlag,
}

/// The slot that owns the monitor lifecycle. It holds at most one running
/// monitor at any time: installing a replacement hands the previous
/// occupant back for teardown, never leaves two registered.
pub struct MonitorSlot<H> {
    active: Option<RunningMonitor<H>>,
}

/// What `stop` asks of the caller: nothing when no monitor was running,
/// otherwise joining the cancelled task whose handle is returned.
pub enum StopAction<H> {
    AlreadyStopped,
    Join(H),
}

impl<H> MonitorSlot<H> {
    /// The monitor this slot holds, if one is running.
    pub closed spec fn state(self) -> Option<RunningMonitor<H>> {
        self.active
    }

    pub open spec fn running(self) -> bool {
        self.state() is Some
    }

    /// An empty slot: no monitor runs.
    pub fn new() -> (r: Self)
        ensures
            !r.running(),
    {
        MonitorSlot { active: None }
    }

    /// Record a newly spawned monitor as the one running instance; the
    /// previous occupant, if any, comes back for teardown.
    pub fn install(&mut self, m: RunningMonitor<H>) -> (prev: Option<RunningMonitor<H>>)
        ensures
            final(self).state() == Some(m),
            prev == old(self).state(),
    {
        let mut prev: Option<RunningMonitor<H>> = Some(m);
        core::mem::swap(&mut self.active, &mut prev);
        prev
    }

    /// Empty the slot, handing back whatever monitor it held.
    pub fn take(&mut self) -> (r: Option<RunningMonitor<H>>)
        ensures
            !final(self).running(),
            r == old(self).state(),
    {
        let mut taken: Option<RunningMonitor<H>> = None;
        core::mem::swap(&mut self.active, &mut taken);
        taken
    }
}

/// The `stop` transition: a no-op success when the slot is empty;
/// otherwise the running monitor leaves the slot, its cancellation flag is
/// signalled, and its task handle is handed back to be joined. Either way
/// the slot ends empty, so a following `start` installs into an empty
/// slot.
pub fn begin_stop<H>(slot: &mut MonitorSlot<H>) -> (r: StopAction<H>)
    ensures
        !final(slot).running(),
        (r is AlreadyStopped) <==> !old(slot).running(),
        r matches StopAction::Join(h) ==> (old(slot).state() matches Some(m) && m.task == h),
{
    match slot.take() {
        Some(m) => {
            m.cancel.request_stop();
            StopAction::Join(m.task)
        },
        None => StopAction::AlreadyStopped,
    }
}

/// Law: under replace-by-restart, the slot never holds two monitors. A
/// `stop` leaves the slot empty whatever it held, and the `start` that
/// follows installs exactly the new monitor, so every reachable slot state
/// is either empty or one running monitor.
pub proof fn lemma_restart_replaces<H>(
    after_stop: MonitorSlot<H>,
    after_start: MonitorSlot<H>,
    m: RunningMonitor<H>,
)
    requires
        !after_stop.running(),
        after_start.state() == Some(m),
    ensures
        after_stop.state() is None,
        after_start.state() == Some(m),
{
}

/// The dedicated connection of a running monitor, with the two atoms its
/// loop needs resolved once at start.
pub struct MonitorConn {
    pub conn: XConn,
    pub active_atom: u32,
    pub name_atom: u32,
}

/// Open the monitor's dedicated connection and resolve the active-window
/// and modern-name atoms.
pub fn open_monitor() -> (r: Result<MonitorConn, XError>)
    ensures
        r matches Err(e) ==> e == XError::Connection || e == XError::Resolution,
{
    let c = match XConn::connect() {
        Ok(c) => c,
        Err(e) => return Err(e),
    };
    let active_atom = match c.intern_atom("_NET_ACTIVE_WINDOW") {
        Ok(a) => a,
        Err(e) => return Err(e),
    };
    let name_atom = match c.intern_atom("_NET_WM_NAME") {
        Ok(a) => a,
        Err(e) => return Err(e),
    };
    Ok(MonitorConn { conn: c, active_atom, name_atom })
}

/// One iteration of the monitor loop body: read the active-window property
/// of the root window (bounded to one unit), resolve that window's title,
/// and decide what to emit. A failed read is a tick that observes nothing:
/// no emission, no state change, never an error.
pub fn poll_active<P: PropertySource>(
    mc: &MonitorConn,
    source: &P,
    last: Option<String>,
) -> (r: (Option<String>, Option<String>))
    ensures
        exists|obs: Option<Seq<char>>|
            (opt_title_view(r.0), opt_title_view(r.1)) == tick_spec(opt_title_view(last), obs),
        r.0 matches Some(t) ==> t@.len() > 0,
{
    let ids = source.read_window_ids(mc.conn.raw(), mc.conn.root(), mc.active_atom, 1);
    let observed = match ids {
        Some(v) => {
            if v.len() > 0 {
                Some(title_of(&mc.conn, source, v[0], mc.name_atom))
            } else {
                None
            }
        },
        None => None,
    };
    let r = monitor_tick(last, observed);
    proof {
        assert((opt_title_view(r.0), opt_title_view(r.1)) == tick_spec(
            opt_title_view(last),
            opt_title_view(observed),
        ));
    }
    r
}

} // verus!
