use nexcore_education_machine::error::EduError;

#[test]
fn display_invalid_transition() {
    let e = EduError::InvalidPhaseTransition {
        from: "Discover".to_string(),
        to: "Master".to_string(),
    };
    assert!(e.to_string().contains("Discover"));
    assert!(e.to_string().contains("Master"));
}

#[test]
fn display_subject_not_found() {
    let e = EduError::SubjectNotFound { id: "rust-101".to_string() };
    assert!(e.to_string().contains("rust-101"));
}

#[test]
fn display_lesson_not_found() {
    let e = EduError::LessonNotFound { id: "lesson-1".to_string() };
    assert!(e.to_string().contains("lesson-1"));
}

#[test]
fn display_empty_assessment() {
    let e = EduError::EmptyAssessment;
    assert!(e.to_string().contains("empty"));
}

#[test]
fn display_not_enrolled() {
    let e = EduError::NotEnrolled { subject_id: "math".to_string() };
    assert!(e.to_string().contains("math"));
}

#[test]
fn display_messages_exact() {
    let e = EduError::InvalidPhaseTransition { from: "Discover".to_string(), to: "Master".to_string() };
    assert_eq!(e.to_string(), "invalid transition: Discover -> Master");
    assert_eq!(
        EduError::SubjectNotFound { id: "rust-101".to_string() }.to_string(),
        "subject not found: rust-101"
    );
    assert_eq!(
        EduError::LessonNotFound { id: "lesson-1".to_string() }.to_string(),
        "lesson not found: lesson-1"
    );
    assert_eq!(EduError::EmptyAssessment.to_string(), "assessment cannot be empty");
    assert_eq!(
        EduError::NotEnrolled { subject_id: "math".to_string() }.to_string(),
        "not enrolled in subject: math"
    );
}
