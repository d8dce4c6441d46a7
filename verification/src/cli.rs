//! The command surface of the program.

use vstd::prelude::*;

verus! {

/// What the program is asked to do.
#[derive(Debug, Clone, Copy, PartialEq, Eq, Structural)]
pub enum Commands {
    /// Run the control loop until a stop signal comes.
    Daemon,
    /// Run one enabled cycle and end.
    Boost,
    /// Send the pause signal to the daemon with this process id.
    Pause { pid: u32 },
}

/// The arguments of one invocation.
#[derive(Debug, Clone, Copy, PartialEq, Eq, Structural)]
pub struct Args {
    pub command: Commands,
}

} // verus!
