//! The configuration values that the client reads.

use vstd::prelude::*;

verus! {

/// Whether `core_id` is among `cores`.
pub fn contains_core(cores: &Vec<usize>, core_id: usize) -> (found: bool)
    ensures
        found == cores@.contains(core_id),
{
    let mut i: usize = 0;
    while i < cores.len()
        invariant
            i <= cores@.len(),
            forall|k: int| 0 <= k < i ==> cores@[k] != core_id,
        decreases cores@.len() - i,
    {
        if cores[i] == core_id {
            return true;
        }
        i += 1;
    }
    false
}

/// Values of the configuration surface. An external loader fills them in.
#[derive(Debug)]
pub struct FuzzerOptions {
    /// Arguments that the target is started with, without the program name.
    pub args: Vec<String>,
    /// Workers that detect memory errors in host mode; `None` for no worker.
    pub asan_cores: Option<Vec<usize>>,
    /// Workers that detect memory errors in guest mode; `None` for no worker.
    pub asan_guest_cores: Option<Vec<usize>>,
    /// Workers that log comparison operands; `None` for no worker.
    pub cmplog_cores: Option<Vec<usize>>,
    /// File that describes the value injections to hook, if any.
    pub injections: Option<String>,
    /// Recorded input to run once more, if any.
    pub rerun_input: Option<String>,
    /// File that receives the trace of the executed blocks, if any.
    pub drcov: Option<String>,
}

/// Whether a worker list, if there is one, names `core_id`.
pub open spec fn lists_core(cores: Option<Vec<usize>>, core_id: usize) -> bool {
    match cores {
        Some(cores) => cores@.contains(core_id),
        None => false,
    }
}

impl FuzzerOptions {
    /// Whether the worker on `core_id` detects memory errors in host mode.
    pub fn is_asan_core(&self, core_id: usize) -> (on: bool)
        ensures
            on == lists_core(self.asan_cores, core_id),
    {
        match &self.asan_cores {
            Some(cores) => contains_core(cores, core_id),
            None => false,
        }
    }

    /// Whether the worker on `core_id` detects memory errors in guest mode.
    pub fn is_asan_guest_core(&self, core_id: usize) -> (on: bool)
        ensures
            on == lists_core(self.asan_guest_cores, core_id),
    {
        match &self.asan_guest_cores {
            Some(cores) => contains_core(cores, core_id),
            None => false,
        }
    }

    /// Whether the worker on `core_id` logs comparison operands.
    pub fn is_cmplog_core(&self, core_id: usize) -> (on: bool)
        ensures
            on == lists_core(self.cmplog_cores, core_id),
    {
        match &self.cmplog_cores {
            Some(cores) => contains_core(cores, core_id),
            None => false,
        }
    }
}

} // verus!
