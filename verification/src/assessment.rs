//! Assessments: questions, answers and the tally of an answered assessment.

use vstd::prelude::*;

use crate::error::EduError;

verus! {

/// A single assessment question; `D` is the type of its difficulty measure.
#[derive(Debug, Clone)]
pub struct Question<D> {
    /// Unique question identifier.
    pub id: String,
    /// The question text.
    pub prompt: String,
    /// Expected correct answer.
    pub expected_answer: String,
    /// Difficulty level.
    pub difficulty: D,
    /// Concept being tested.
    pub concept: String,
}

/// Result of answering a single question.
#[derive(Debug, Clone)]
pub struct QuestionResult<D> {
    /// Question ID.
    pub question_id: String,
    /// Whether the answer was correct.
    pub correct: bool,
    /// The learner's answer.
    pub given_answer: String,
    /// Question difficulty.
    pub difficulty: D,
}

/// A complete assessment (an ordered set of questions).
#[derive(Debug, Clone)]
pub struct Assessment<D> {
    /// Subject being assessed.
    pub subject_id: String,
    /// Questions in order.
    pub questions: Vec<Question<D>>,
}

impl<D> Assessment<D> {
    /// Create a new, empty assessment for a subject.
    pub fn new(subject_id: &str) -> (r: Assessment<D>)
        ensures
            r.subject_id@ == subject_id@,
            r.questions@ == Seq::<Question<D>>::empty(),
    {
        Assessment { subject_id: subject_id.to_owned(), questions: Vec::new() }
    }

    /// Add a question at the end.
    pub fn add_question(&mut self, question: Question<D>)
        ensures
            final(self).questions@ == old(self).questions@.push(question),
            final(self).subject_id == old(self).subject_id,
    {
        self.questions.push(question);
    }

    /// Number of questions.
    pub fn question_count(&self) -> (r: usize)
        ensures
            r == self.questions@.len(),
    {
        self.questions.len()
    }
}

/// Number of correctly answered results in `s`.
pub open spec fn count_correct<D>(s: Seq<QuestionResult<D>>) -> nat
    decreases s.len(),
{
    if s.len() == 0 {
        0
    } else {
        count_correct(s.drop_last()) + if s.last().correct {
            1nat
        } else {
            0nat
        }
    }
}

/// Tally an answered assessment: the number of correct answers and the
/// number of answers.
///
/// Fails with `EduError::EmptyAssessment` exactly when there are no results.
pub fn tally_results<D>(results: &[QuestionResult<D>]) -> (r: Result<(usize, usize), EduError>)
    ensures
        r is Err <==> results@.len() == 0,
        r matches Err(e) ==> e is EmptyAssessment,
        r matches Ok((correct, total)) ==> correct == count_correct(results@) && total
            == results@.len(),
        r matches Ok((correct, total)) ==> correct == results@.filter(
            |q: QuestionResult<D>| q.correct,
        ).len(),
{
    if results.len() == 0 {
        return Err(EduError::EmptyAssessment);
    }
    let mut correct_count: usize = 0;
    let mut i: usize = 0;
    while i < results.len()
        invariant
            i <= results@.len(),
            correct_count == count_correct(results@.take(i as int)),
            correct_count <= i,
        decreases results@.len() - i,
    {
        proof {
            assert(results@.take(i + 1).drop_last() =~= results@.take(i as int));
        }
        if results[i].correct {
            correct_count = correct_count + 1;
        }
        i = i + 1;
    }
    proof {
        assert(results@.take(results@.len() as int) =~= results@);
        lemma_count_correct_is_filter(results@);
    }
    Ok((correct_count, results.len()))
}

/// Each answer counts on its own, wherever it stands: adding an answer adds
/// one to the count when it is correct and leaves the count alone when it is
/// wrong.
pub proof fn lemma_count_correct_push<D>(s: Seq<QuestionResult<D>>, r: QuestionResult<D>)
    ensures
        count_correct(s.push(r)) == count_correct(s) + if r.correct {
            1int
        } else {
            0int
        },
{
    assert(s.push(r).drop_last() =~= s);
}

/// The count of correct answers is the number of answers marked correct.
pub proof fn lemma_count_correct_is_filter<D>(s: Seq<QuestionResult<D>>)
    ensures
        count_correct(s) == s.filter(|q: QuestionResult<D>| q.correct).len(),
    decreases s.len(),
{
    if s.len() > 0 {
        let pred = |q: QuestionResult<D>| q.correct;
        lemma_count_correct_is_filter(s.drop_last());
        assert(s.drop_last().push(s.last()) =~= s);
        s.drop_last().lemma_filter_len_push(pred, s.last());
    }
}

/// Appending answers adds their counts: the correct answers of `a + b` are
/// those of `a` plus those of `b`.
pub proof fn lemma_count_correct_concat<D>(a: Seq<QuestionResult<D>>, b: Seq<QuestionResult<D>>)
    ensures
        count_correct(a + b) == count_correct(a) + count_correct(b),
    decreases b.len(),
{
    if b.len() > 0 {
        lemma_count_correct_concat(a, b.drop_last());
        assert((a + b).drop_last() =~= a + b.drop_last());
    } else {
        assert(a + b =~= a);
    }
}

/// The number of correct answers never exceeds the number of answers.
pub proof fn lemma_correct_at_most_total<D>(s: Seq<QuestionResult<D>>)
    ensures
        count_correct(s) <= s.len(),
    decreases s.len(),
{
    if s.len() > 0 {
        lemma_correct_at_most_total(s.drop_last());
    }
}

/// Answering every question correctly counts every answer, and answering
/// none correctly counts none.
pub proof fn lemma_all_or_none_correct<D>(s: Seq<QuestionResult<D>>)
    ensures
        (forall|i: int| 0 <= i < s.len() ==> #[trigger] s[i].correct) ==> count_correct(s)
            == s.len(),
        (forall|i: int| 0 <= i < s.len() ==> !(#[trigger] s[i].correct)) ==> count_correct(s)
            == 0,
    decreases s.len(),
{
    if s.len() > 0 {
        lemma_all_or_none_correct(s.drop_last());
        assert(forall|i: int| 0 <= i < s.len() - 1 ==> s.drop_last()[i] == s[i]);
    }
}

} // verus!
