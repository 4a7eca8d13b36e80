//! Execution handles: what a driver returns for a running instance.

use vstd::prelude::*;

use crate::model::ExecutionM;

verus! {

/// An execution that was spawned by an execution driver.
#[derive(Clone, Debug, PartialEq, Eq)]
pub struct Execution {
    /// The execution ID, set by the chosen driver.
    pub id: String,
    /// The server ID this execution was spawned for.
    pub server_id: String,
}

impl View for Execution {
    type V = ExecutionM;

    open spec fn view(&self) -> ExecutionM {
        ExecutionM { id: self.id@, server_id: self.server_id@ }
    }
}

} // verus!
