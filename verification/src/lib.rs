//! A minimal cooperative multitasking kernel for targets without an allocator:
//! a fixed-capacity task scheduler and a fixed-capacity registry of software
//! countdown timers.
//!
//! Both registries are slot tables. A slot is vacant or holds one entry, an
//! entry is addressed by the index of its slot, and a new entry always takes
//! the lowest vacant slot.
use vstd::prelude::*;

pub mod scheduler;
pub mod slots;
pub mod softtimer;
pub mod task;

pub use scheduler::{Error, Scheduler};
pub use softtimer::{
    Counter, SofTimers, SoftTimerData, SoftTimerErr, SoftTimerHandle, State, TimerView,
    MAX_SOFT_COUNTER,
};
pub use task::{Execute, NopExecuter, Task, TaskId, TaskState, INVALID_ID};

verus! {

/// Whether a countdown has run out.
#[derive(Clone, Copy, Debug, PartialEq, Eq, Structural)]
pub enum SignalState {
    /// The countdown has not reached zero, or the timer is not running.
    NotSignaled,
    /// The timer is running and its countdown is at zero.
    Signaled,
}

} // verus!
