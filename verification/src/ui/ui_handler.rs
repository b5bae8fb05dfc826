//! The render loop as a state machine.
//!
//! The loop runs on one thread.  While `Running`, each iteration takes
//! at most one snapshot off the aggregation channel, dispatches it into
//! the display state, redraws, and polls for a key.  A quit key or an
//! input/output failure moves the loop to `ShuttingDown`; it then
//! restores the terminal — leaves raw mode and the alternate screen —
//! exactly once and stops.  The terminal work itself is done by the
//! embedding program; this module decides, and proves, when it happens.

use vstd::prelude::*;

verus! {

use crate::Category;
use crate::Measurements;
use crate::Snapshot;
use crate::channel::try_recv_snapshot;
use crate::ui::ui_measurements::UIMeasurements;
use crate::ui::ui_measurements::spec_dispatch;

/// Where the render loop stands.
#[derive(Clone, Copy, PartialEq, Eq, Structural, Debug)]
pub enum RenderPhase {
    /// Drawing frames and watching for the quit key.
    Running,
    /// Done drawing; the terminal still has to be restored.
    ShuttingDown,
    /// Terminal restored; the loop is over.
    Stopped,
}

/// What one `Running` iteration observed.
#[derive(Clone, Copy, PartialEq, Eq, Structural, Debug)]
pub enum RenderEvent {
    /// The frame was drawn and input was polled; the flag says whether
    /// the quit key was pressed.
    Frame { quit_requested: bool },
    /// Drawing the frame failed.
    DrawFailed,
    /// Polling for input failed.
    InputFailed,
}

/// A key event as the render loop sees it.
#[derive(Clone, Copy, PartialEq, Eq, Structural, Debug)]
pub struct KeyPress {
    pub ch: char,
    /// Whether this was a press, as opposed to a release or repeat.
    pub is_press: bool,
}

/// Whether a polled key asks the loop to quit: a press of `q`.
pub open spec fn spec_quit_requested(key: Option<KeyPress>) -> bool {
    match key {
        Some(k) => k.is_press && k.ch == 'q',
        None => false,
    }
}

/// Whether a polled key asks the loop to quit.
pub fn quit_requested(key: Option<KeyPress>) -> (b: bool)
    ensures
        b == spec_quit_requested(key),
{
    match key {
        Some(k) => k.is_press && k.ch == 'q',
        None => false,
    }
}

/// Where one observation takes the phase: a failure or a quit request
/// ends `Running`; the later phases only move by restoration.
pub open spec fn spec_render_next(p: RenderPhase, e: RenderEvent) -> RenderPhase {
    match p {
        RenderPhase::Running => match e {
            RenderEvent::Frame { quit_requested } => if quit_requested {
                RenderPhase::ShuttingDown
            } else {
                RenderPhase::Running
            },
            RenderEvent::DrawFailed => RenderPhase::ShuttingDown,
            RenderEvent::InputFailed => RenderPhase::ShuttingDown,
        },
        RenderPhase::ShuttingDown => RenderPhase::ShuttingDown,
        RenderPhase::Stopped => RenderPhase::Stopped,
    }
}

/// One step of the loop's life: observing an iteration's outcome, or
/// performing the terminal restoration.
pub enum RenderStep {
    Observe(RenderEvent),
    Restore,
}

/// When a step may happen: iterations run only while `Running`, and
/// restoration happens only in `ShuttingDown`.
pub open spec fn spec_step_enabled(p: RenderPhase, step: RenderStep) -> bool {
    match step {
        RenderStep::Observe(_) => p is Running,
        RenderStep::Restore => p is ShuttingDown,
    }
}

/// Where one step takes the phase.
pub open spec fn spec_step(p: RenderPhase, step: RenderStep) -> RenderPhase {
    match step {
        RenderStep::Observe(e) => spec_render_next(p, e),
        RenderStep::Restore => if p is ShuttingDown {
            RenderPhase::Stopped
        } else {
            p
        },
    }
}

/// The phase after running a sequence of steps.
pub open spec fn spec_run(p: RenderPhase, steps: Seq<RenderStep>) -> RenderPhase
    decreases steps.len(),
{
    if steps.len() == 0 {
        p
    } else {
        spec_run(spec_step(p, steps[0]), steps.drop_first())
    }
}

/// Whether every step of the sequence is taken in a phase that allows
/// it.
pub open spec fn spec_valid_run(p: RenderPhase, steps: Seq<RenderStep>) -> bool
    decreases steps.len(),
{
    if steps.len() == 0 {
        true
    } else {
        spec_step_enabled(p, steps[0]) && spec_valid_run(spec_step(p, steps[0]), steps.drop_first())
    }
}

/// How many restorations a sequence of steps performs.
pub open spec fn spec_restore_count(steps: Seq<RenderStep>) -> nat
    decreases steps.len(),
{
    if steps.len() == 0 {
        0
    } else {
        (if steps[0] is Restore {
            1nat
        } else {
            0nat
        }) + spec_restore_count(steps.drop_first())
    }
}

/// The invariant behind the restoration guarantee, stated for every
/// starting phase.
proof fn lemma_restore_count_from(p: RenderPhase, steps: Seq<RenderStep>)
    requires
        spec_valid_run(p, steps),
    ensures
        !(p is Stopped) ==> spec_restore_count(steps) <= 1 && (spec_run(p, steps) is Stopped
            <==> spec_restore_count(steps) == 1),
        p is Stopped ==> spec_restore_count(steps) == 0 && spec_run(p, steps) is Stopped,
    decreases steps.len(),
{
    if steps.len() > 0 {
        lemma_restore_count_from(spec_step(p, steps[0]), steps.drop_first());
    }
}

/// Terminal restoration happens exactly once on every exit path: any
/// allowed run of the loop restores at most once, and a run that ends
/// `Stopped` — by quit key or by an injected failure — has restored
/// exactly once, never zero or multiple times.
pub proof fn lemma_restore_exactly_once(steps: Seq<RenderStep>)
    requires
        spec_valid_run(RenderPhase::Running, steps),
    ensures
        spec_restore_count(steps) <= 1,
        spec_run(RenderPhase::Running, steps) is Stopped <==> spec_restore_count(steps) == 1,
{
    lemma_restore_count_from(RenderPhase::Running, steps);
}

/// The render loop's control state.
pub struct RenderLoop {
    pub phase: RenderPhase,
}

impl RenderLoop {
    /// A loop that has just acquired the terminal and starts running.
    pub fn new() -> (r: Self)
        ensures
            r.phase == RenderPhase::Running,
    {
        RenderLoop { phase: RenderPhase::Running }
    }

    pub fn phase(&self) -> (p: RenderPhase)
        ensures
            p == self.phase,
    {
        self.phase
    }

    /// Records one iteration's outcome while running.
    pub fn observe(&mut self, e: RenderEvent)
        requires
            old(self).phase is Running,
        ensures
            final(self).phase == spec_step(old(self).phase, RenderStep::Observe(e)),
    {
        match e {
            RenderEvent::Frame { quit_requested } => {
                if quit_requested {
                    self.phase = RenderPhase::ShuttingDown;
                }
            },
            RenderEvent::DrawFailed => {
                self.phase = RenderPhase::ShuttingDown;
            },
            RenderEvent::InputFailed => {
                self.phase = RenderPhase::ShuttingDown;
            },
        }
    }

    /// Whether the terminal still has to be restored.
    pub fn should_restore(&self) -> (b: bool)
        ensures
            b == (self.phase is ShuttingDown),
    {
        match self.phase {
            RenderPhase::ShuttingDown => true,
            _ => false,
        }
    }

    /// Records the one terminal restoration and stops the loop.
    pub fn mark_restored(&mut self)
        requires
            old(self).phase is ShuttingDown,
        ensures
            final(self).phase == spec_step(old(self).phase, RenderStep::Restore),
            final(self).phase is Stopped,
    {
        self.phase = RenderPhase::Stopped;
    }
}

/// One frame's worth of channel work: takes at most one waiting
/// snapshot and dispatches it into the display state, reporting the
/// category that was updated.  Which snapshot arrives is the channel's
/// business; whatever it is, it lands whole in its own slot.
pub fn receive_and_dispatch(
    rx: &mut tokio::sync::mpsc::Receiver<Snapshot>,
    state: &mut UIMeasurements,
) -> (got: Option<Category>)
    ensures
        match got {
            None => *final(state) == *old(state),
            Some(c) => exists|s: Snapshot|
                s.spec_category() == c && *final(state) == spec_dispatch(*old(state), s),
        },
{
    match try_recv_snapshot(rx) {
        None => None,
        Some(s) => {
            let ghost snap = s;
            let c = s.category();
            state.dispatch(s);
            proof {
                assert(snap.spec_category() == c && *state == spec_dispatch(*old(state), snap));
            }
            Some(c)
        },
    }
}

} // verus!
