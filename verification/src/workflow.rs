//! The workflow under test.
//!
//! The money-transfer workflow's run logic is interpreted by the execution
//! engine against the event history; the harness only needs the workflow's
//! type name to label the synthetic history.

use vstd::prelude::*;

verus! {

/// The money-transfer workflow type.
#[derive(Debug, Default)]
pub struct MoneyTransferWorkflow;

impl MoneyTransferWorkflow {
    /// The workflow type name recorded in histories and registrations.
    pub fn name() -> (r: &'static str)
        ensures
            r@ == "MoneyTransferWorkflow"@,
    {
        "MoneyTransferWorkflow"
    }
}

} // verus!
