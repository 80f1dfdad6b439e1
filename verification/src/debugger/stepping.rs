//! Step-through execution at host function boundary granularity.

use vstd::prelude::*;

verus! {

/// A stepping command.
#[derive(Debug, Clone, Copy, PartialEq, Eq)]
pub enum StepCommand {
    /// Step into the next host function call or sub-invocation.
    StepInto,
    /// Step over the current host function call.
    StepOver,
    /// Step out of the current contract invocation.
    StepOut,
    /// Continue until the next breakpoint.
    Continue,
    /// Run to completion.
    RunToEnd,
}

/// What is visible at a pause point.
#[derive(Debug, Clone)]
pub struct PauseState {
    pub trace_position: usize,
    pub current_contract: String,
    pub current_function: String,
    pub call_depth: usize,
    pub remaining_cpu: u64,
    pub remaining_memory: u64,
    pub visible_storage: Vec<(String, String)>,
    pub auth_context: Vec<String>,
}

/// Manages step-through execution: the current pause point, if any, and
/// whether execution is paused.
pub struct ExecutionStepper {
    current_state: Option<PauseState>,
    is_paused: bool,
}

impl ExecutionStepper {
    /// The pause point, if execution has one.
    pub closed spec fn state(&self) -> Option<PauseState> {
        self.current_state
    }

    /// Whether execution is paused.
    pub closed spec fn paused(&self) -> bool {
        self.is_paused
    }

    /// A stepper with no pause point, not paused.
    pub fn new() -> (s: Self)
        ensures
            s.state() is None,
            !s.paused(),
    {
        ExecutionStepper { current_state: None, is_paused: false }
    }

    /// Executes a step command and answers the pause point reached. No
    /// execution is attached yet, so every command leaves the stepper as it
    /// was and answers its current pause point.
    pub fn step(&mut self, command: StepCommand) -> (r: Option<&PauseState>)
        ensures
            final(self).state() == old(self).state(),
            final(self).paused() == old(self).paused(),
            r == match old(self).state() {
                Some(p) => Some(&p),
                None => None::<&PauseState>,
            },
    {
        match &self.current_state {
            Some(p) => Some(p),
            None => None,
        }
    }

    /// The current pause point.
    pub fn current_state(&self) -> (r: Option<&PauseState>)
        ensures
            r == match self.state() {
                Some(p) => Some(&p),
                None => None::<&PauseState>,
            },
    {
        match &self.current_state {
            Some(p) => Some(p),
            None => None,
        }
    }

    /// Whether execution is paused.
    pub fn is_paused(&self) -> (b: bool)
        ensures
            b == self.paused(),
    {
        self.is_paused
    }
}

impl Default for ExecutionStepper {
    /// A stepper with no pause point, not paused.
    fn default() -> (s: Self)
        ensures
            s.state() is None,
            !s.paused(),
    {
        ExecutionStepper::new()
    }
}

} // verus!
