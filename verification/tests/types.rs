use nexcore_education_machine::types::{CompetencyLevel, Grade, LearningPhase, MasteryVerdict};

// ── LearningPhase ───────────────────────────────────────────────
#[test]
fn learning_phase_ordering() {
    assert_eq!(LearningPhase::Discover.ordinal(), 0);
    assert_eq!(LearningPhase::Master.ordinal(), 4);
}

#[test]
fn learning_phase_next() {
    assert_eq!(LearningPhase::Discover.next(), Some(LearningPhase::Extract));
    assert_eq!(LearningPhase::Extract.next(), Some(LearningPhase::Practice));
    assert_eq!(LearningPhase::Practice.next(), Some(LearningPhase::Assess));
    assert_eq!(LearningPhase::Assess.next(), Some(LearningPhase::Master));
    assert_eq!(LearningPhase::Master.next(), None);
}

#[test]
fn learning_phase_all() {
    let all = LearningPhase::all();
    assert_eq!(all.len(), 5);
    assert_eq!(all[0], LearningPhase::Discover);
    assert_eq!(all[4], LearningPhase::Master);
}

#[test]
fn learning_phase_display() {
    assert_eq!(LearningPhase::Discover.to_string(), "Discover");
    assert_eq!(LearningPhase::Master.to_string(), "Master");
}

// ── CompetencyLevel ─────────────────────────────────────────────
#[test]
fn competency_display() {
    assert_eq!(CompetencyLevel::Expert.to_string(), "Expert");
    assert_eq!(CompetencyLevel::Novice.to_string(), "Novice");
}

// ── MasteryVerdict ──────────────────────────────────────────────
#[test]
fn verdict_color_class() {
    assert_eq!(MasteryVerdict::Mastered.color_class(), "text-green-400");
    assert_eq!(MasteryVerdict::Developing.color_class(), "text-yellow-400");
    assert_eq!(MasteryVerdict::Remediate.color_class(), "text-red-400");
}

// ── Grade ───────────────────────────────────────────────────────
#[test]
fn grade_scores() {
    assert_eq!(Grade::Again.score(), 0);
    assert_eq!(Grade::Hard.score(), 1);
    assert_eq!(Grade::Good.score(), 2);
    assert_eq!(Grade::Easy.score(), 3);
}

#[test]
fn grade_display() {
    assert_eq!(Grade::Again.to_string(), "Again");
    assert_eq!(Grade::Easy.to_string(), "Easy");
}

// ── Further cases ───────────────────────────────────────────────
#[test]
fn all_phases_in_ordinal_order() {
    for (i, p) in LearningPhase::all().iter().enumerate() {
        assert_eq!(p.ordinal(), i);
        assert_eq!(p.label(), p.to_string());
    }
}

#[test]
fn every_label() {
    assert_eq!(LearningPhase::Extract.label(), "Extract");
    assert_eq!(LearningPhase::Practice.label(), "Practice");
    assert_eq!(LearningPhase::Assess.label(), "Assess");
    assert_eq!(CompetencyLevel::Beginner.label(), "Beginner");
    assert_eq!(CompetencyLevel::Intermediate.label(), "Intermediate");
    assert_eq!(CompetencyLevel::Advanced.label(), "Advanced");
    assert_eq!(MasteryVerdict::Mastered.label(), "Mastered");
    assert_eq!(MasteryVerdict::Developing.to_string(), "Developing");
    assert_eq!(MasteryVerdict::Remediate.label(), "Remediate");
    assert_eq!(Grade::Hard.to_string(), "Hard");
    assert_eq!(Grade::Good.to_string(), "Good");
}
