//! The control loop's schedule: what the firmware does next, one action at a
//! time, forever.

use crate::facade::Severity;
use vstd::prelude::*;

verus! {

/// How long the loop pauses after toggling the indicator and after
/// reporting the probe, in milliseconds.
pub const PAUSE_MS: u32 = 300;

/// A record the control loop hands to the logging facade.
#[derive(Clone, Copy, Debug, PartialEq, Eq, Structural)]
pub enum Record {
    /// The greeting that opens an iteration, with the iteration's number.
    Hello(i32),
    /// The probe found the companion device.
    NoteboardFound,
    /// The probe did not find the companion device.
    NoteboardNotFound,
}

impl Record {
    /// The severity a record is logged at.
    pub open spec fn severity_of(self) -> Severity {
        match self {
            Record::Hello(_) => Severity::Info,
            Record::NoteboardFound => Severity::Warn,
            Record::NoteboardNotFound => Severity::Error,
        }
    }

    /// The severity this record is logged at: the greeting as information,
    /// a found device as a warning, a missing one as an error.
    pub fn severity(&self) -> (level: Severity)
        ensures
            level == self.severity_of(),
    {
        match self {
            Record::Hello(_) => Severity::Info,
            Record::NoteboardFound => Severity::Warn,
            Record::NoteboardNotFound => Severity::Error,
        }
    }

    /// The text of the record, with `{}` where the greeting's number goes.
    pub fn template(&self) -> (text: &'static str)
        ensures
            text@ == match *self {
                Record::Hello(_) => "hello world {}!"@,
                Record::NoteboardFound => "noteboard found!"@,
                Record::NoteboardNotFound => "noteboard not found!"@,
            },
    {
        match self {
            Record::Hello(_) => "hello world {}!",
            Record::NoteboardFound => "noteboard found!",
            Record::NoteboardNotFound => "noteboard not found!",
        }
    }
}

/// The record that reports a probe's verdict.
pub open spec fn report_of(present: bool) -> Record {
    if present {
        Record::NoteboardFound
    } else {
        Record::NoteboardNotFound
    }
}

/// What the firmware has to do next.
#[derive(Clone, Copy, Debug, PartialEq, Eq, Structural)]
pub enum Action {
    /// Hand this record to the logging facade.
    Emit(Record),
    /// Toggle the status indicator.
    ToggleIndicator,
    /// Busy-wait for this many milliseconds.
    Delay(u32),
    /// Probe for the companion device.
    Probe,
}

/// Where in an iteration the loop stands: the action that is due.
#[derive(Clone, Copy, Debug, PartialEq, Eq, Structural)]
pub enum Phase {
    /// The greeting is due.
    Greet,
    /// The indicator is due to be toggled.
    Toggle,
    /// The pause after the toggle is due.
    Settle,
    /// The probe is due.
    Probe,
    /// The report on the probe is due.
    Report,
    /// The pause that ends the iteration is due.
    Rest,
}

/// The loop as the contracts see it.
pub struct LoopState {
    /// The number of the iteration whose greeting comes next.
    pub counter: int,
    /// The action that is due.
    pub phase: Phase,
}

/// The action due in `state`, `present` being the verdict of the probe just
/// made; the verdict is read only where the report is due.
pub open spec fn action_of(state: LoopState, present: bool) -> Action {
    match state.phase {
        Phase::Greet => Action::Emit(Record::Hello(state.counter as i32)),
        Phase::Toggle => Action::ToggleIndicator,
        Phase::Settle => Action::Delay(PAUSE_MS),
        Phase::Probe => Action::Probe,
        Phase::Report => Action::Emit(report_of(present)),
        Phase::Rest => Action::Delay(PAUSE_MS),
    }
}

/// The state that follows `state`: the greeting counts the iteration, and
/// the last pause leads back to the next greeting.
pub open spec fn next_state(state: LoopState) -> LoopState {
    match state.phase {
        Phase::Greet => LoopState { counter: state.counter + 1, phase: Phase::Toggle },
        Phase::Toggle => LoopState { counter: state.counter, phase: Phase::Settle },
        Phase::Settle => LoopState { counter: state.counter, phase: Phase::Probe },
        Phase::Probe => LoopState { counter: state.counter, phase: Phase::Report },
        Phase::Report => LoopState { counter: state.counter, phase: Phase::Rest },
        Phase::Rest => LoopState { counter: state.counter, phase: Phase::Greet },
    }
}

/// The state `steps` steps after `state`.
pub open spec fn state_after(state: LoopState, steps: nat) -> LoopState
    decreases steps,
{
    if steps == 0 {
        state
    } else {
        next_state(state_after(state, (steps - 1) as nat))
    }
}

/// The loop before its first step: the greeting is due and counts from zero.
pub open spec fn fresh() -> LoopState {
    LoopState { counter: 0, phase: Phase::Greet }
}

/// One iteration is six actions in a fixed order: the greeting with the
/// iteration's number, the toggle, a pause, the probe, the report of what
/// the probe found, a pause. It ends where the next one begins, the counter
/// one higher.
pub proof fn lemma_iteration(state: LoopState, present: bool)
    requires
        state.phase == Phase::Greet,
    ensures
        action_of(state_after(state, 0), present) == Action::Emit(
            Record::Hello(state.counter as i32),
        ),
        action_of(state_after(state, 1), present) == Action::ToggleIndicator,
        action_of(state_after(state, 2), present) == Action::Delay(PAUSE_MS),
        action_of(state_after(state, 3), present) == Action::Probe,
        action_of(state_after(state, 4), present) == Action::Emit(report_of(present)),
        action_of(state_after(state, 5), present) == Action::Delay(PAUSE_MS),
        state_after(state, 6) == (LoopState { counter: state.counter + 1, phase: Phase::Greet }),
{
    reveal_with_fuel(state_after, 7);
}

/// The counter counts the iterations: after `n` whole iterations of a fresh
/// loop the greeting is due again and bears the number `n`.
pub proof fn lemma_counter_counts_iterations(n: nat)
    ensures
        state_after(fresh(), 6 * n) == (LoopState { counter: n as int, phase: Phase::Greet }),
    decreases n,
{
    if n > 0 {
        let before = state_after(fresh(), (6 * (n - 1)) as nat);
        lemma_counter_counts_iterations((n - 1) as nat);
        lemma_steps_add(fresh(), (6 * (n - 1)) as nat, 6);
        lemma_iteration(before, true);
    }
}

/// Taking `first` steps and then `then` more is taking them all.
proof fn lemma_steps_add(state: LoopState, first: nat, then: nat)
    ensures
        state_after(state, first + then) == state_after(state_after(state, first), then),
    decreases then,
{
    if then > 0 {
        lemma_steps_add(state, first, (then - 1) as nat);
    }
}

/// The control loop: an iteration counter and the action that is due.
pub struct ControlLoop {
    counter: i32,
    phase: Phase,
}

impl View for ControlLoop {
    type V = LoopState;

    closed spec fn view(&self) -> LoopState {
        LoopState { counter: self.counter as int, phase: self.phase }
    }
}

impl ControlLoop {
    /// Whether the counter has run out: the greeting is due and its number
    /// is the last one an `i32` holds.
    pub open spec fn exhausted(self) -> bool {
        self@.phase == Phase::Greet && self@.counter >= i32::MAX
    }

    /// A loop about to greet for the first time, counting from zero.
    pub fn new() -> (control: Self)
        ensures
            control@ == fresh(),
    {
        ControlLoop { counter: 0, phase: Phase::Greet }
    }

    /// The number of the iteration whose greeting comes next.
    pub fn counter(&self) -> (n: i32)
        ensures
            n == self@.counter,
    {
        self.counter
    }

    /// The action that is due.
    pub fn phase(&self) -> (phase: Phase)
        ensures
            phase == self@.phase,
    {
        self.phase
    }

    /// Whether the counter has run out, so that no further step can be taken.
    pub fn is_exhausted(&self) -> (yes: bool)
        ensures
            yes == self.exhausted(),
    {
        match self.phase {
            Phase::Greet => self.counter == i32::MAX,
            _ => false,
        }
    }

    /// Hands out the action that is due and moves on to the next.
    /// `present` is the verdict of the probe, where one has just been made.
    pub fn step(&mut self, present: bool) -> (action: Action)
        requires
            !old(self).exhausted(),
        ensures
            action == action_of(old(self)@, present),
            final(self)@ == next_state(old(self)@),
    {
        match self.phase {
            Phase::Greet => {
                let greeting = Record::Hello(self.counter);
                self.counter = self.counter + 1;
                self.phase = Phase::Toggle;
                Action::Emit(greeting)
            },
            Phase::Toggle => {
                self.phase = Phase::Settle;
                Action::ToggleIndicator
            },
            Phase::Settle => {
                self.phase = Phase::Probe;
                Action::Delay(PAUSE_MS)
            },
            Phase::Probe => {
                self.phase = Phase::Report;
                Action::Probe
            },
            Phase::Report => {
                self.phase = Phase::Rest;
                if present {
                    Action::Emit(Record::NoteboardFound)
                } else {
                    Action::Emit(Record::NoteboardNotFound)
                }
            },
            Phase::Rest => {
                self.phase = Phase::Greet;
                Action::Delay(PAUSE_MS)
            },
        }
    }
}

} // verus!
