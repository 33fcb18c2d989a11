use nexcore_education_machine::error::EduError;
use nexcore_education_machine::state_machine::{
    can_transition, execute_transition, phases_remaining, suggest_next_phase,
};
use nexcore_education_machine::types::LearningPhase;

// ── Forward transitions (valid) ──────────────────────────────────
#[test]
fn forward_discover_to_extract() {
    assert!(can_transition(LearningPhase::Discover, LearningPhase::Extract));
}

#[test]
fn forward_extract_to_practice() {
    assert!(can_transition(LearningPhase::Extract, LearningPhase::Practice));
}

#[test]
fn forward_practice_to_assess() {
    assert!(can_transition(LearningPhase::Practice, LearningPhase::Assess));
}

#[test]
fn forward_assess_to_master() {
    assert!(can_transition(LearningPhase::Assess, LearningPhase::Master));
}

// ── Backward to Discover (valid) ─────────────────────────────────
#[test]
fn backward_extract_to_discover() {
    assert!(can_transition(LearningPhase::Extract, LearningPhase::Discover));
}

#[test]
fn backward_practice_to_discover() {
    assert!(can_transition(LearningPhase::Practice, LearningPhase::Discover));
}

#[test]
fn backward_assess_to_discover() {
    assert!(can_transition(LearningPhase::Assess, LearningPhase::Discover));
}

#[test]
fn backward_master_to_discover() {
    assert!(can_transition(LearningPhase::Master, LearningPhase::Discover));
}

// ── Invalid transitions ─────────────────────────────────────────
#[test]
fn skip_discover_to_practice() {
    assert!(!can_transition(LearningPhase::Discover, LearningPhase::Practice));
}

#[test]
fn skip_discover_to_master() {
    assert!(!can_transition(LearningPhase::Discover, LearningPhase::Master));
}

#[test]
fn backward_practice_to_extract() {
    // Can only go back to Discover, not to Extract
    assert!(!can_transition(LearningPhase::Practice, LearningPhase::Extract));
}

#[test]
fn self_loop_rejected() {
    assert!(!can_transition(LearningPhase::Discover, LearningPhase::Discover));
    assert!(!can_transition(LearningPhase::Master, LearningPhase::Master));
}

// ── Execute transition ──────────────────────────────────────────
#[test]
fn execute_valid_transition() {
    let result = execute_transition(
        LearningPhase::Discover,
        LearningPhase::Extract,
        "concepts identified",
        1000.0,
    );
    assert!(result.is_ok());
    if let Ok(pt) = result {
        assert_eq!(pt.from, LearningPhase::Discover);
        assert_eq!(pt.to, LearningPhase::Extract);
        assert_eq!(pt.reason, "concepts identified");
    }
}

#[test]
fn execute_invalid_transition() {
    let result = execute_transition(LearningPhase::Discover, LearningPhase::Master, "skip", 1000.0);
    assert!(result.is_err());
}

// ── Helper functions ────────────────────────────────────────────
#[test]
fn phases_remaining_from_discover() {
    assert_eq!(phases_remaining(LearningPhase::Discover), 4);
}

#[test]
fn phases_remaining_from_master() {
    assert_eq!(phases_remaining(LearningPhase::Master), 0);
}

// ── Further cases ───────────────────────────────────────────────
#[test]
fn execute_invalid_transition_names_both_phases() {
    let result = execute_transition(LearningPhase::Extract, LearningPhase::Assess, "skip", 5.0);
    match result {
        Err(EduError::InvalidPhaseTransition { from, to }) => {
            assert_eq!(from, "Extract");
            assert_eq!(to, "Assess");
        }
        _ => panic!("expected an invalid transition error"),
    }
}

#[test]
fn execute_transition_keeps_timestamp() {
    let pt = execute_transition(LearningPhase::Master, LearningPhase::Discover, "new material", 42u64)
        .unwrap();
    assert_eq!(pt.timestamp, 42u64);
    assert_eq!(pt.from, LearningPhase::Master);
    assert_eq!(pt.to, LearningPhase::Discover);
    assert_eq!(pt.reason, "new material");
}

#[test]
fn transition_table_matches_rules() {
    let all = LearningPhase::all();
    for from in all {
        for to in all {
            let forward = to.ordinal() == from.ordinal() + 1;
            let back = *to == LearningPhase::Discover && *from != LearningPhase::Discover;
            assert_eq!(can_transition(*from, *to), forward || back);
            assert_eq!(
                execute_transition(*from, *to, "r", 0u8).is_ok(),
                can_transition(*from, *to)
            );
        }
    }
}

#[test]
fn suggestions_walk_to_master() {
    for start in LearningPhase::all() {
        let mut p = *start;
        for _ in 0..phases_remaining(*start) {
            let q = suggest_next_phase(p).unwrap();
            assert!(can_transition(p, q));
            p = q;
        }
        assert_eq!(p, LearningPhase::Master);
        assert_eq!(suggest_next_phase(p), None);
        assert_eq!(phases_remaining(*start) + start.ordinal(), 4);
    }
}

#[test]
fn suggest_next_phase_values() {
    assert_eq!(suggest_next_phase(LearningPhase::Discover), Some(LearningPhase::Extract));
    assert_eq!(suggest_next_phase(LearningPhase::Assess), Some(LearningPhase::Master));
    assert_eq!(suggest_next_phase(LearningPhase::Master), None);
    assert_eq!(phases_remaining(LearningPhase::Practice), 2);
}
