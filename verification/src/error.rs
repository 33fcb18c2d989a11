//! Errors of the education engine.

use vstd::prelude::*;

verus! {

/// Errors that the engine's operations report.
#[derive(Debug, Clone, PartialEq)]
pub enum EduError {
    /// Phase transition is not allowed by the state machine.
    InvalidPhaseTransition {
        /// Source phase name.
        from: String,
        /// Target phase name.
        to: String,
    },
    /// Subject not found.
    SubjectNotFound {
        /// Subject identifier.
        id: String,
    },
    /// Lesson not found.
    LessonNotFound {
        /// Lesson identifier.
        id: String,
    },
    /// Assessment cannot be empty.
    EmptyAssessment,
    /// Learner not enrolled in subject.
    NotEnrolled {
        /// Subject identifier.
        subject_id: String,
    },
}

impl EduError {
    /// The error's message.
    pub open spec fn message(&self) -> Seq<char> {
        match self {
            EduError::InvalidPhaseTransition { from, to } =>
                "invalid transition: "@ + from@ + " -> "@ + to@,
            EduError::SubjectNotFound { id } => "subject not found: "@ + id@,
            EduError::LessonNotFound { id } => "lesson not found: "@ + id@,
            EduError::EmptyAssessment => "assessment cannot be empty"@,
            EduError::NotEnrolled { subject_id } => "not enrolled in subject: "@ + subject_id@,
        }
    }

    /// The error's message as a string (its display form).
    pub fn to_string(&self) -> (r: String)
        ensures
            r@ == self.message(),
    {
        match self {
            EduError::InvalidPhaseTransition { from, to } => {
                let mut s = "invalid transition: ".to_owned();
                s.append(from.as_str());
                s.append(" -> ");
                s.append(to.as_str());
                s
            },
            EduError::SubjectNotFound { id } => {
                let mut s = "subject not found: ".to_owned();
                s.append(id.as_str());
                s
            },
            EduError::LessonNotFound { id } => {
                let mut s = "lesson not found: ".to_owned();
                s.append(id.as_str());
                s
            },
            EduError::EmptyAssessment => "assessment cannot be empty".to_owned(),
            EduError::NotEnrolled { subject_id } => {
                let mut s = "not enrolled in subject: ".to_owned();
                s.append(subject_id.as_str());
                s
            },
        }
    }
}

} // verus!
