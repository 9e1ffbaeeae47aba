//! The evaluator that keeps invalid iterations out of the scoring.

use vstd::prelude::*;

use crate::modules::ExecMeta;

verus! {

/// Reports an iteration as interesting unless the harness marked it as one to
/// ignore.
#[derive(Debug)]
pub struct IgnoreExitFeedback;

impl IgnoreExitFeedback {
    /// Reads the signal of the iteration that just ran and lowers it.
    ///
    /// A marked iteration is not interesting, whatever else is known of it;
    /// any other is.
    pub fn is_interesting(&mut self, exec_meta: &mut ExecMeta) -> (interesting: bool)
        ensures
            interesting == !old(exec_meta).ignore,
            !final(exec_meta).ignore,
    {
        if exec_meta.ignore {
            exec_meta.ignore = false;
            false
        } else {
            true
        }
    }

    /// The name under which the engine knows this evaluator.
    pub fn name(&self) -> (name: &'static str)
        ensures
            name@ == "IgnoreExitFeedback"@,
    {
        "IgnoreExitFeedback"
    }
}

} // verus!
