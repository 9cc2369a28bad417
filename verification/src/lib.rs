//! Core of an interactive reading-comprehension trainer.
//!
//! A learner picks a topic, a story is installed (from a remote generator or
//! from a built-in fallback pool), and the learner answers a linear sequence
//! of multiple-choice questions. This crate holds the verified core: the
//! session state machine, the per-question progress tracking, the scoring and
//! grading rules, and the fallback-story selection policy. Rendering and
//! transport live outside the crate.

pub mod fallback;
pub mod model;
pub mod scoring;
pub mod session;
