use nexcore_education_machine::learner::{count_verdicts, enroll_subject, find_subject};
use nexcore_education_machine::types::MasteryVerdict;

fn ids(v: &[&str]) -> Vec<String> {
    v.iter().map(|s| s.to_string()).collect()
}

#[test]
fn find_subject_first_match() {
    let subjects = ids(&["subj1", "rust-101", "subj2"]);
    assert_eq!(find_subject(&subjects, &"rust-101".to_string()), Some(1));
    assert_eq!(find_subject(&subjects, &"subj1".to_string()), Some(0));
    assert_eq!(find_subject(&subjects, &"math".to_string()), None);
    assert_eq!(find_subject(&[], &"math".to_string()), None);
}

#[test]
fn enrolling_twice_adds_once() {
    let mut subjects: Vec<String> = Vec::new();
    assert!(enroll_subject(&mut subjects, "rust-101".to_string()));
    assert!(!enroll_subject(&mut subjects, "rust-101".to_string()));
    assert!(enroll_subject(&mut subjects, "math".to_string()));
    assert_eq!(subjects, ids(&["rust-101", "math"]));
}

#[test]
fn count_verdicts_two_developing() {
    let verdicts = vec![MasteryVerdict::Developing, MasteryVerdict::Developing];
    assert_eq!(count_verdicts(&verdicts), (0, 2, 0));
}

#[test]
fn count_verdicts_mixed() {
    let verdicts = vec![
        MasteryVerdict::Mastered,
        MasteryVerdict::Remediate,
        MasteryVerdict::Developing,
        MasteryVerdict::Mastered,
    ];
    let (m, d, r) = count_verdicts(&verdicts);
    assert_eq!((m, d, r), (2, 1, 1));
    assert_eq!(m + d + r, verdicts.len());
    assert_eq!(count_verdicts(&[]), (0, 0, 0));
}
