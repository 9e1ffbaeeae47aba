//! Emulator-side building blocks that the execution driver composes.

use vstd::prelude::*;

pub mod input_injector;
pub mod register;

pub use input_injector::InputInjectorModule;
pub use register::RegisterResetModule;

verus! {

/// The outcome signal shared between the harness and the feedback evaluator.
///
/// The harness raises `ignore` when the iteration that just ran must not
/// influence scoring; the evaluator reads it once per iteration and lowers it.
#[derive(Debug)]
pub struct ExecMeta {
    /// True when the iteration that just ran must not be scored.
    pub ignore: bool,
}

impl ExecMeta {
    /// A fresh signal: the iteration counts.
    pub fn new() -> (meta: Self)
        ensures
            !meta.ignore,
    {
        Self { ignore: false }
    }
}

impl Default for ExecMeta {
    fn default() -> (meta: Self)
        ensures
            !meta.ignore,
    {
        Self { ignore: false }
    }
}

} // verus!
