//! Learner bookkeeping: enrolling in a subject at most once, finding an
//! enrollment by subject, and counting the verdicts across enrollments.

use vstd::prelude::*;

use crate::types::MasteryVerdict;

verus! {

/// The texts of a list of subject ids.
pub open spec fn id_texts(ids: Seq<String>) -> Seq<Seq<char>> {
    ids.map_values(|s: String| s@)
}

/// Find the enrollment of a subject: the index of the first entry of
/// `subject_ids` equal to `subject_id`, `None` when there is none.
pub fn find_subject(subject_ids: &[String], subject_id: &String) -> (r: Option<usize>)
    ensures
        r matches Some(i) ==> {
            &&& i < subject_ids@.len()
            &&& subject_ids@[i as int]@ == subject_id@
            &&& forall|j: int| 0 <= j < i ==> (#[trigger] subject_ids@[j])@ != subject_id@
        },
        r is None <==> forall|j: int|
            0 <= j < subject_ids@.len() ==> (#[trigger] subject_ids@[j])@ != subject_id@,
        r is None <==> !id_texts(subject_ids@).contains(subject_id@),
{
    let mut i: usize = 0;
    while i < subject_ids.len()
        invariant
            i <= subject_ids@.len(),
            forall|j: int| 0 <= j < i ==> (#[trigger] subject_ids@[j])@ != subject_id@,
        decreases subject_ids@.len() - i,
    {
        if subject_ids[i] == *subject_id {
            proof {
                assert(id_texts(subject_ids@)[i as int] == subject_id@);
            }
            return Some(i);
        }
        i = i + 1;
    }
    proof {
        if id_texts(subject_ids@).contains(subject_id@) {
            let k = choose|k: int| 0 <= k < id_texts(subject_ids@).len() && id_texts(subject_ids@)[k] == subject_id@;
            assert(subject_ids@[k]@ == subject_id@);
        }
    }
    None
}

/// The subjects after enrolling in `id`: unchanged when already enrolled,
/// otherwise `id` is added at the end.
pub open spec fn enrolled(ids: Seq<Seq<char>>, id: Seq<char>) -> Seq<Seq<char>> {
    if ids.contains(id) {
        ids
    } else {
        ids.push(id)
    }
}

/// Enroll in a subject unless already enrolled: `subject_id` is added at the
/// end of `subject_ids` when no entry equals it. Returns whether it was added.
pub fn enroll_subject(subject_ids: &mut Vec<String>, subject_id: String) -> (added: bool)
    ensures
        id_texts(final(subject_ids)@) == enrolled(id_texts(old(subject_ids)@), subject_id@),
        added == !id_texts(old(subject_ids)@).contains(subject_id@),
{
    match find_subject(subject_ids.as_slice(), &subject_id) {
        Some(_) => false,
        None => {
            let ghost text = subject_id@;
            subject_ids.push(subject_id);
            proof {
                assert(id_texts(subject_ids@) =~= id_texts(old(subject_ids)@).push(text));
            }
            true
        },
    }
}

/// Enrolling never creates a duplicate enrollment: a roster without
/// duplicates keeps none, it then holds the subject, earlier enrollments keep
/// their positions, and enrolling twice in a subject is the same as enrolling
/// once.
pub proof fn lemma_enroll_no_duplicates(ids: Seq<Seq<char>>, id: Seq<char>)
    requires
        ids.no_duplicates(),
    ensures
        enrolled(ids, id).no_duplicates(),
        enrolled(ids, id).contains(id),
        enrolled(ids, id).take(ids.len() as int) == ids,
        enrolled(enrolled(ids, id), id) == enrolled(ids, id),
{
    if !ids.contains(id) {
        assert(ids.push(id)[ids.len() as int] == id);
        assert(ids.push(id).take(ids.len() as int) =~= ids);
    } else {
        assert(ids.take(ids.len() as int) =~= ids);
    }
}

/// Number of entries of `s` equal to `v`.
pub open spec fn verdict_count(s: Seq<MasteryVerdict>, v: MasteryVerdict) -> nat
    decreases s.len(),
{
    if s.len() == 0 {
        0
    } else {
        verdict_count(s.drop_last(), v) + if s.last() == v {
            1nat
        } else {
            0nat
        }
    }
}

/// Count the verdicts of a learner's enrollments:
/// `(mastered, developing, remediate)`.
pub fn count_verdicts(verdicts: &[MasteryVerdict]) -> (r: (usize, usize, usize))
    ensures
        r.0 == verdict_count(verdicts@, MasteryVerdict::Mastered),
        r.1 == verdict_count(verdicts@, MasteryVerdict::Developing),
        r.2 == verdict_count(verdicts@, MasteryVerdict::Remediate),
        r.0 == verdicts@.filter(|x: MasteryVerdict| x == MasteryVerdict::Mastered).len(),
        r.1 == verdicts@.filter(|x: MasteryVerdict| x == MasteryVerdict::Developing).len(),
        r.2 == verdicts@.filter(|x: MasteryVerdict| x == MasteryVerdict::Remediate).len(),
{
    let mut mastered: usize = 0;
    let mut developing: usize = 0;
    let mut remediate: usize = 0;
    let mut i: usize = 0;
    while i < verdicts.len()
        invariant
            i <= verdicts@.len(),
            mastered == verdict_count(verdicts@.take(i as int), MasteryVerdict::Mastered),
            developing == verdict_count(verdicts@.take(i as int), MasteryVerdict::Developing),
            remediate == verdict_count(verdicts@.take(i as int), MasteryVerdict::Remediate),
            mastered + developing + remediate == i,
        decreases verdicts@.len() - i,
    {
        proof {
            assert(verdicts@.take(i + 1).drop_last() =~= verdicts@.take(i as int));
        }
        match verdicts[i] {
            MasteryVerdict::Mastered => mastered = mastered + 1,
            MasteryVerdict::Developing => developing = developing + 1,
            MasteryVerdict::Remediate => remediate = remediate + 1,
        }
        i = i + 1;
    }
    proof {
        assert(verdicts@.take(verdicts@.len() as int) =~= verdicts@);
        lemma_verdict_count_is_filter(verdicts@, MasteryVerdict::Mastered);
        lemma_verdict_count_is_filter(verdicts@, MasteryVerdict::Developing);
        lemma_verdict_count_is_filter(verdicts@, MasteryVerdict::Remediate);
    }
    (mastered, developing, remediate)
}

/// Each verdict counts under itself, whatever its neighbours: adding a
/// verdict `x` adds one to the count of `x` and leaves the other counts alone.
pub proof fn lemma_verdict_count_push(s: Seq<MasteryVerdict>, x: MasteryVerdict, v: MasteryVerdict)
    ensures
        verdict_count(s.push(x), v) == verdict_count(s, v) + if x == v {
            1int
        } else {
            0int
        },
{
    assert(s.push(x).drop_last() =~= s);
}

/// The count of a verdict is the number of positions holding it.
pub proof fn lemma_verdict_count_is_filter(s: Seq<MasteryVerdict>, v: MasteryVerdict)
    ensures
        verdict_count(s, v) == s.filter(|x: MasteryVerdict| x == v).len(),
    decreases s.len(),
{
    if s.len() > 0 {
        let pred = |x: MasteryVerdict| x == v;
        lemma_verdict_count_is_filter(s.drop_last(), v);
        assert(s.drop_last().push(s.last()) =~= s);
        s.drop_last().lemma_filter_len_push(pred, s.last());
    }
}

/// Counting the verdicts of two lists one after the other adds their counts.
pub proof fn lemma_verdict_count_concat(a: Seq<MasteryVerdict>, b: Seq<MasteryVerdict>, v: MasteryVerdict)
    ensures
        verdict_count(a + b, v) == verdict_count(a, v) + verdict_count(b, v),
    decreases b.len(),
{
    if b.len() > 0 {
        lemma_verdict_count_concat(a, b.drop_last(), v);
        assert((a + b).drop_last() =~= a + b.drop_last());
    } else {
        assert(a + b =~= a);
    }
}

/// The mastered, developing and remediate counts add up to the number of
/// verdicts counted.
pub proof fn lemma_verdict_counts_partition(s: Seq<MasteryVerdict>)
    ensures
        verdict_count(s, MasteryVerdict::Mastered) + verdict_count(s, MasteryVerdict::Developing)
            + verdict_count(s, MasteryVerdict::Remediate) == s.len(),
    decreases s.len(),
{
    if s.len() > 0 {
        lemma_verdict_counts_partition(s.drop_last());
    }
}

} // verus!
