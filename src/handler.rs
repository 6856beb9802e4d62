use vstd::prelude::*;

use crate::command::Command;
use crate::dispatch::ExecError;

verus! {

/// Something that executes commands in a running workload.
pub trait ExecHandler {
    /// Executes a command and returns what it printed or returned.
    fn exec(&mut self, command: Command) -> Result<String, ExecError>;
}

} // verus!
