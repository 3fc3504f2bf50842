//! Task: the externally implemented task-control interface.
//!
//! Threads, processes and jobs live outside this core; they implement
//! this trait against the core's types. Scheduling and exception
//! delivery are entirely the implementor's responsibility, so the
//! methods carry no contracts here.

use vstd::prelude::*;

use crate::channel::Channel;
use crate::error::ZxResult;
use crate::port::Port;

verus! {

/// Task (Thread, Process, or Job).
pub trait Task {
    /// Kill the task.
    fn kill(&mut self) -> ZxResult<()>;

    /// Suspend the task. Only thread or process tasks may be suspended.
    fn suspend(&mut self) -> ZxResult<()>;

    /// Create an exception channel on the task.
    fn create_exception_channel(&mut self, options: u32) -> ZxResult<Channel>;

    /// Resume the task from a previously caught exception.
    fn resume_from_exception(&mut self, port: &Port, options: u32) -> ZxResult<()>;
}

} // verus!
