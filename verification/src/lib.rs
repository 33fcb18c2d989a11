//! Education engine: a five-phase learning state machine, curricula, lessons
//! and the bookkeeping of assessments.
//!
//! Phases progress `Discover -> Extract -> Practice -> Assess -> Master`, one
//! step at a time, and any phase may return to `Discover`.

pub mod assessment;
pub mod error;
pub mod learner;
pub mod lesson;
pub mod numerals;
pub mod prelude;
pub mod state_machine;
pub mod subject;
pub mod types;
