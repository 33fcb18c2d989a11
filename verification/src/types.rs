//! Core enums of the education engine: learning phases, competency levels,
//! mastery verdicts and review grades.

use vstd::prelude::*;

verus! {

/// The five phases of the learning process, in order.
#[derive(Debug, Clone, Copy, PartialEq, Eq, Hash, Structural)]
pub enum LearningPhase {
    /// Survey the domain, identify concepts.
    Discover,
    /// Decompose concepts into primitives.
    Extract,
    /// Recursive application with spaced repetition.
    Practice,
    /// Bayesian mastery evaluation.
    Assess,
    /// Certified competency.
    Master,
}

/// Number of the last phase (`Master`); phases are numbered from 0.
pub open spec fn master_ordinal() -> nat {
    4
}

impl LearningPhase {
    /// Position of the phase in the process, counted from 0.
    pub open spec fn spec_ordinal(self) -> nat {
        match self {
            LearningPhase::Discover => 0,
            LearningPhase::Extract => 1,
            LearningPhase::Practice => 2,
            LearningPhase::Assess => 3,
            LearningPhase::Master => 4,
        }
    }

    /// The phase at a given position, for positions `0..=4`.
    pub open spec fn at_ordinal(n: nat) -> LearningPhase {
        if n == 0 {
            LearningPhase::Discover
        } else if n == 1 {
            LearningPhase::Extract
        } else if n == 2 {
            LearningPhase::Practice
        } else if n == 3 {
            LearningPhase::Assess
        } else {
            LearningPhase::Master
        }
    }

    /// The phase that follows this one, `None` after `Master`.
    pub open spec fn spec_next(self) -> Option<LearningPhase> {
        if self.spec_ordinal() < master_ordinal() {
            Some(LearningPhase::at_ordinal(self.spec_ordinal() + 1))
        } else {
            None
        }
    }

    /// The phase's name.
    pub open spec fn label_text(self) -> Seq<char> {
        match self {
            LearningPhase::Discover => "Discover"@,
            LearningPhase::Extract => "Extract"@,
            LearningPhase::Practice => "Practice"@,
            LearningPhase::Assess => "Assess"@,
            LearningPhase::Master => "Master"@,
        }
    }

    /// Ordinal position (0-indexed).
    pub fn ordinal(self) -> (r: usize)
        ensures
            r == self.spec_ordinal(),
    {
        match self {
            LearningPhase::Discover => 0,
            LearningPhase::Extract => 1,
            LearningPhase::Practice => 2,
            LearningPhase::Assess => 3,
            LearningPhase::Master => 4,
        }
    }

    /// All phases in order.
    pub fn all() -> (r: &'static [LearningPhase])
        ensures
            r@.len() == master_ordinal() + 1,
            forall|i: int| 0 <= i < r@.len() ==> #[trigger] r@[i] == LearningPhase::at_ordinal(i as nat),
    {
        let phases: &'static [LearningPhase] = &[
            LearningPhase::Discover,
            LearningPhase::Extract,
            LearningPhase::Practice,
            LearningPhase::Assess,
            LearningPhase::Master,
        ];
        phases
    }

    /// Next phase in sequence, if any.
    pub fn next(self) -> (r: Option<LearningPhase>)
        ensures
            r == self.spec_next(),
    {
        match self {
            LearningPhase::Discover => Some(LearningPhase::Extract),
            LearningPhase::Extract => Some(LearningPhase::Practice),
            LearningPhase::Practice => Some(LearningPhase::Assess),
            LearningPhase::Assess => Some(LearningPhase::Master),
            LearningPhase::Master => None,
        }
    }

    /// Human-readable label.
    pub fn label(&self) -> (r: &'static str)
        ensures
            r@ == self.label_text(),
    {
        match self {
            LearningPhase::Discover => "Discover",
            LearningPhase::Extract => "Extract",
            LearningPhase::Practice => "Practice",
            LearningPhase::Assess => "Assess",
            LearningPhase::Master => "Master",
        }
    }

    /// The label as an owned string (the phase's display form).
    pub fn to_string(&self) -> (r: String)
        ensures
            r@ == self.label_text(),
    {
        self.label().to_owned()
    }
}

/// Competency classification (simplified Dreyfus model).
#[derive(Debug, Clone, Copy, PartialEq, Eq, Hash, Structural)]
pub enum CompetencyLevel {
    /// No knowledge.
    Novice,
    /// Basic understanding.
    Beginner,
    /// Can apply with guidance.
    Intermediate,
    /// Independent application.
    Advanced,
    /// Teaching-level mastery.
    Expert,
}

impl CompetencyLevel {
    /// The level's name.
    pub open spec fn label_text(self) -> Seq<char> {
        match self {
            CompetencyLevel::Novice => "Novice"@,
            CompetencyLevel::Beginner => "Beginner"@,
            CompetencyLevel::Intermediate => "Intermediate"@,
            CompetencyLevel::Advanced => "Advanced"@,
            CompetencyLevel::Expert => "Expert"@,
        }
    }

    /// Human-readable label.
    pub fn label(&self) -> (r: &'static str)
        ensures
            r@ == self.label_text(),
    {
        match self {
            CompetencyLevel::Novice => "Novice",
            CompetencyLevel::Beginner => "Beginner",
            CompetencyLevel::Intermediate => "Intermediate",
            CompetencyLevel::Advanced => "Advanced",
            CompetencyLevel::Expert => "Expert",
        }
    }

    /// The label as an owned string (the level's display form).
    pub fn to_string(&self) -> (r: String)
        ensures
            r@ == self.label_text(),
    {
        self.label().to_owned()
    }
}

/// Assessment verdict after Bayesian evaluation.
#[derive(Debug, Clone, Copy, PartialEq, Eq, Hash, Structural)]
pub enum MasteryVerdict {
    /// Concept mastered.
    Mastered,
    /// Progressing.
    Developing,
    /// Needs remediation.
    Remediate,
}

impl MasteryVerdict {
    /// The verdict's name.
    pub open spec fn label_text(self) -> Seq<char> {
        match self {
            MasteryVerdict::Mastered => "Mastered"@,
            MasteryVerdict::Developing => "Developing"@,
            MasteryVerdict::Remediate => "Remediate"@,
        }
    }

    /// The CSS color class used to render the verdict.
    pub open spec fn color_class_text(self) -> Seq<char> {
        match self {
            MasteryVerdict::Mastered => "text-green-400"@,
            MasteryVerdict::Developing => "text-yellow-400"@,
            MasteryVerdict::Remediate => "text-red-400"@,
        }
    }

    /// Human-readable label.
    pub fn label(&self) -> (r: &'static str)
        ensures
            r@ == self.label_text(),
    {
        match self {
            MasteryVerdict::Mastered => "Mastered",
            MasteryVerdict::Developing => "Developing",
            MasteryVerdict::Remediate => "Remediate",
        }
    }

    /// CSS color class for UI rendering.
    pub fn color_class(&self) -> (r: &'static str)
        ensures
            r@ == self.color_class_text(),
    {
        match self {
            MasteryVerdict::Mastered => "text-green-400",
            MasteryVerdict::Developing => "text-yellow-400",
            MasteryVerdict::Remediate => "text-red-400",
        }
    }

    /// The label as an owned string (the verdict's display form).
    pub fn to_string(&self) -> (r: String)
        ensures
            r@ == self.label_text(),
    {
        self.label().to_owned()
    }
}

/// Self-reported response quality for spaced repetition.
#[derive(Debug, Clone, Copy, PartialEq, Eq, Hash, Structural)]
pub enum Grade {
    /// Complete failure, no recall.
    Again,
    /// Significant difficulty, partial recall.
    Hard,
    /// Moderate effort, successful recall.
    Good,
    /// Effortless recall.
    Easy,
}

impl Grade {
    /// The grade's numeric score.
    pub open spec fn spec_score(self) -> nat {
        match self {
            Grade::Again => 0,
            Grade::Hard => 1,
            Grade::Good => 2,
            Grade::Easy => 3,
        }
    }

    /// The grade's name.
    pub open spec fn label_text(self) -> Seq<char> {
        match self {
            Grade::Again => "Again"@,
            Grade::Hard => "Hard"@,
            Grade::Good => "Good"@,
            Grade::Easy => "Easy"@,
        }
    }

    /// Numeric score in `0..=3`.
    pub fn score(self) -> (r: u8)
        ensures
            r == self.spec_score(),
    {
        match self {
            Grade::Again => 0,
            Grade::Hard => 1,
            Grade::Good => 2,
            Grade::Easy => 3,
        }
    }

    /// The grade's display form.
    pub fn to_string(&self) -> (r: String)
        ensures
            r@ == self.label_text(),
    {
        match self {
            Grade::Again => "Again".to_owned(),
            Grade::Hard => "Hard".to_owned(),
            Grade::Good => "Good".to_owned(),
            Grade::Easy => "Easy".to_owned(),
        }
    }
}

} // verus!
