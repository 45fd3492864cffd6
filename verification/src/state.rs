//! The kernel's own lifecycle state.

use vstd::prelude::*;

verus! {

#[derive(Debug, Clone, Copy, PartialEq, Eq, Structural)]
pub enum KernelState {
    Created,
    Booting,
    Initializing,
    Ready,
    Running,
    Stopping,
    Stopped,
    Degraded,
    Recovering,
}

/// Holds the kernel's current state. Transitions are not validated: the
/// boot sequence sets each state in turn.
pub struct StateManager {
    current: KernelState,
}

impl View for StateManager {
    type V = KernelState;

    closed spec fn view(&self) -> KernelState {
        self.current
    }
}

impl StateManager {
    pub fn new() -> (res: Self)
        ensures
            res@ == KernelState::Created,
    {
        StateManager { current: KernelState::Created }
    }

    pub fn transition(&mut self, next: KernelState)
        ensures
            final(self)@ == next,
    {
        self.current = next;
    }

    pub fn get(&self) -> (res: &KernelState)
        ensures
            *res == self@,
    {
        &self.current
    }
}

} // verus!
