//! The exit coordinator: a single-fire, level-triggered gate shared by every
//! shutdown trigger, and the one release of the lock token that follows it.

use vstd::prelude::*;

verus! {

/// Fired and released flags of an exit gate.
#[derive(Debug, Clone, Copy, PartialEq, Eq, Structural)]
pub struct GateState {
    pub fired: bool,
    pub released: bool,
}

pub open spec fn fresh_gate() -> GateState {
    GateState { fired: false, released: false }
}

/// Firing sets this exit signal; the release flag is left alone.
pub open spec fn fire_spec(g: GateState) -> GateState {
    GateState { fired: true, released: g.released }
}

/// Taking the release grants it only the first time.
pub open spec fn take_release_spec(g: GateState) -> (GateState, bool) {
    (GateState { fired: g.fired, released: true }, !g.released)
}

/// One step that some task takes on a shared exit signal.
pub enum GateOp {
    Fire,
    TakeRelease,
}

/// This exit signal after `ops`, from `g`, and how many releases were granted.
pub open spec fn run_gate(g: GateState, ops: Seq<GateOp>) -> (GateState, nat)
    decreases ops.len(),
{
    if ops.len() == 0 {
        (g, 0)
    } else {
        let (g1, granted) = match ops[0] {
            GateOp::Fire => (fire_spec(g), false),
            GateOp::TakeRelease => take_release_spec(g),
        };
        let (g2, n) = run_gate(g1, ops.drop_first());
        (g2, n + if granted { 1nat } else { 0nat })
    }
}

/// The exit signal of one daemon process.
#[derive(Debug)]
pub struct ExitGate {
    state: GateState,
}

impl View for ExitGate {
    type V = GateState;

    closed spec fn view(&self) -> GateState {
        self.state
    }
}

/// What the main task does with an event that reaches it.
#[derive(Debug, Clone, Copy, PartialEq, Eq, Structural)]
pub enum DaemonEvent {
    /// Another invocation asked for a toggle.
    ExternalToggleRequest,
    /// The process was interrupted.
    ExternalInterrupt,
    /// The exit signal fired.
    ExitFired,
}

/// The main task's response to an event.
#[derive(Debug, Clone, Copy, PartialEq, Eq, Structural)]
pub enum DaemonStep {
    /// Run the toggle state machine and keep running.
    RunToggle,
    /// Leave the wait, release the lock and exit.
    Shutdown,
}

/// A toggle request never ends the daemon; an interrupt or the exit signal does.
pub fn next_step(event: DaemonEvent) -> (r: DaemonStep)
    ensures
        r == (if event == DaemonEvent::ExternalToggleRequest {
            DaemonStep::RunToggle
        } else {
            DaemonStep::Shutdown
        }),
{
    match event {
        DaemonEvent::ExternalToggleRequest => DaemonStep::RunToggle,
        _ => DaemonStep::Shutdown,
    }
}

impl ExitGate {
    /// A gate that has not fired.
    pub fn new() -> (r: ExitGate)
        ensures
            r@ == fresh_gate(),
    {
        ExitGate { state: GateState { fired: false, released: false } }
    }

    /// Fires this exit signal; firing again changes nothing.
    pub fn fire(&mut self)
        ensures
            final(self)@ == fire_spec(old(self)@),
    {
        self.state = GateState { fired: true, released: self.state.released };
    }

    /// Whether this exit signal has fired; a waiter that comes after the firing sees it.
    pub fn is_fired(&self) -> (r: bool)
        ensures
            r == self@.fired,
    {
        self.state.fired
    }

    /// Grants the release of the lock token: `true` the first time only.
    pub fn take_release(&mut self) -> (r: bool)
        ensures
            (final(self)@, r) == take_release_spec(old(self)@),
    {
        let r = !self.state.released;
        self.state = GateState { fired: self.state.fired, released: true };
        r
    }
}

proof fn lemma_run_gate_bound(g: GateState, ops: Seq<GateOp>)
    ensures
        run_gate(g, ops).1 <= if g.released { 0nat } else { 1nat },
        run_gate(g, ops).0.released == (g.released || run_gate(g, ops).1 == 1),
        g.fired ==> run_gate(g, ops).0.fired,
    decreases ops.len(),
{
    if ops.len() > 0 {
        let (g1, granted) = match ops[0] {
            GateOp::Fire => (fire_spec(g), false),
            GateOp::TakeRelease => take_release_spec(g),
        };
        lemma_run_gate_bound(g1, ops.drop_first());
    }
}

/// However many times and in whatever order tasks fire this exit signal and ask for
/// the release, the release is granted at most once, and firing twice is
/// the same as firing once.
pub proof fn lemma_single_release(g: GateState, ops: Seq<GateOp>)
    ensures
        run_gate(fresh_gate(), ops).1 <= 1,
        fire_spec(fire_spec(g)) == fire_spec(g),
        g.fired ==> run_gate(g, ops).0.fired,
{
    lemma_run_gate_bound(fresh_gate(), ops);
    lemma_run_gate_bound(g, ops);
}

} // verus!
