//! What the kernel reports on the console, and what it asks its caller to do.
use vstd::prelude::*;

use crate::trap::{TrapCause, TrapContext};

verus! {

/// One entry of the kernel's diagnostic stream, in the order of emission.
#[derive(Debug, PartialEq, Eq)]
pub enum Event {
    /// Application `k` was copied into the execution window and is about to run.
    LoadApp(usize),
    /// Bytes that the running application wrote to standard output.
    Output(Vec<u8>),
    /// The running application called `exit` with this code.
    Exited(i32),
    /// The running application was killed by a trap it may not cause.
    Fault { cause: TrapCause, stval: usize },
    /// No application is left: the machine powers off.
    AllDone,
}

/// What the caller must do after the kernel has handled a step.
#[derive(Clone, Copy, Debug, PartialEq, Eq)]
pub enum Action {
    /// Return to the interrupted application with the updated trap frame.
    Resume,
    /// Enter application `app`, now in the execution window, with this frame.
    Enter { app: usize, context: TrapContext },
    /// Power the machine off.
    Halt,
}

impl Action {
    /// The application that this action starts, if any.
    pub open spec fn launched(self) -> Option<nat> {
        match self {
            Action::Enter { app, .. } => Some(app as nat),
            _ => None,
        }
    }
}

} // verus!
