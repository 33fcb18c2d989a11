//! Convenience re-exports for common education engine types.

pub use crate::assessment::{tally_results, Assessment, Question, QuestionResult};
pub use crate::error::EduError;
pub use crate::learner::{count_verdicts, enroll_subject, find_subject};
pub use crate::lesson::{Lesson, LessonContent, LessonStep, PrimitiveMapping};
pub use crate::state_machine::{
    can_transition, execute_transition, phases_remaining, suggest_next_phase, PhaseTransition,
};
pub use crate::subject::{LessonRef, Subject};
pub use crate::types::{CompetencyLevel, Grade, LearningPhase, MasteryVerdict};
