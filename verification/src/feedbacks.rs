//! Feedback evaluators at the boundary to the fuzzing engine.

pub mod ignore_exit;

pub use ignore_exit::IgnoreExitFeedback;
