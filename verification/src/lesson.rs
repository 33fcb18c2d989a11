//! Learning content: lessons made of ordered steps.

use vstd::prelude::*;

verus! {

/// Mapping from a domain concept to its primitive decomposition.
#[derive(Debug, Clone)]
pub struct PrimitiveMapping {
    /// The domain concept being decomposed.
    pub concept: String,
    /// Tier classification (T1, T2-P, T2-C, T3).
    pub tier: String,
    /// Primitive symbols involved.
    pub primitives: Vec<String>,
    /// Dominant primitive.
    pub dominant: String,
}

/// Type of lesson content.
#[derive(Debug, Clone)]
pub enum LessonContent {
    /// Textual explanation.
    Text {
        /// The content body.
        body: String,
    },
    /// Primitive decomposition exercise.
    Decomposition {
        /// Concept to decompose.
        concept: String,
        /// Expected primitive mapping.
        expected: PrimitiveMapping,
    },
    /// Practice exercise.
    Exercise {
        /// Exercise prompt.
        prompt: String,
        /// Hints available.
        hints: Vec<String>,
        /// Reference solution.
        solution: String,
    },
}

/// A single step within a lesson.
#[derive(Debug, Clone)]
pub struct LessonStep {
    /// Step title.
    pub title: String,
    /// Content for this step.
    pub content: LessonContent,
    /// Ordinal position.
    pub order: usize,
}

/// A complete lesson; `D` is the type of its difficulty measure.
#[derive(Debug, Clone)]
pub struct Lesson<D> {
    /// Unique identifier.
    pub id: String,
    /// Display title.
    pub title: String,
    /// Brief description.
    pub description: String,
    /// Subject this lesson belongs to.
    pub subject_id: String,
    /// Difficulty level.
    pub difficulty: D,
    /// Ordered steps.
    pub steps: Vec<LessonStep>,
    /// Primitive mappings taught in this lesson.
    pub mappings: Vec<PrimitiveMapping>,
    /// Prerequisites (lesson IDs).
    pub prerequisites: Vec<String>,
}

impl<D> Lesson<D> {
    /// Each step's `order` is its position in the lesson.
    pub open spec fn wf(&self) -> bool {
        forall|i: int| 0 <= i < self.steps@.len() ==> (#[trigger] self.steps@[i]).order == i
    }

    /// `self` is `old` with one step appended, whose order is the number of
    /// steps before it and whose title is `title`; nothing else changed.
    pub open spec fn appended_step(self, old: Self, title: Seq<char>) -> bool {
        &&& self.steps@.len() == old.steps@.len() + 1
        &&& self.steps@.take(old.steps@.len() as int) == old.steps@
        &&& self.steps@.last().title@ == title
        &&& self.steps@.last().order == old.steps@.len()
        &&& self.id == old.id
        &&& self.title == old.title
        &&& self.description == old.description
        &&& self.subject_id == old.subject_id
        &&& self.difficulty == old.difficulty
        &&& self.mappings == old.mappings
        &&& self.prerequisites == old.prerequisites
    }

    /// Create a new lesson with no description, steps, mappings or
    /// prerequisites.
    pub fn new(id: &str, title: &str, subject_id: &str, difficulty: D) -> (r: Lesson<D>)
        ensures
            r.id@ == id@,
            r.title@ == title@,
            r.description@ == Seq::<char>::empty(),
            r.subject_id@ == subject_id@,
            r.difficulty == difficulty,
            r.steps@ == Seq::<LessonStep>::empty(),
            r.mappings@ == Seq::<PrimitiveMapping>::empty(),
            r.prerequisites@ == Seq::<String>::empty(),
            r.wf(),
    {
        Lesson {
            id: id.to_owned(),
            title: title.to_owned(),
            description: String::new(),
            subject_id: subject_id.to_owned(),
            difficulty,
            steps: Vec::new(),
            mappings: Vec::new(),
            prerequisites: Vec::new(),
        }
    }

    /// Add a text step.
    pub fn add_text_step(&mut self, title: &str, body: &str)
        ensures
            final(self).appended_step(*old(self), title@),
            final(self).steps@.last().content matches LessonContent::Text { body: b } && b@
                == body@,
            old(self).wf() ==> final(self).wf(),
    {
        let order = self.steps.len();
        self.steps.push(
            LessonStep {
                title: title.to_owned(),
                content: LessonContent::Text { body: body.to_owned() },
                order,
            },
        );
        proof {
            assert(self.steps@.take(old(self).steps@.len() as int) =~= old(self).steps@);
        }
    }

    /// Add a primitive decomposition step.
    pub fn add_decomposition_step(&mut self, title: &str, concept: &str, expected: PrimitiveMapping)
        ensures
            final(self).appended_step(*old(self), title@),
            final(self).steps@.last().content matches LessonContent::Decomposition {
                concept: c,
                expected: e,
            } && c@ == concept@ && e == expected,
            old(self).wf() ==> final(self).wf(),
    {
        let order = self.steps.len();
        self.steps.push(
            LessonStep {
                title: title.to_owned(),
                content: LessonContent::Decomposition { concept: concept.to_owned(), expected },
                order,
            },
        );
        proof {
            assert(self.steps@.take(old(self).steps@.len() as int) =~= old(self).steps@);
        }
    }

    /// Add a practice exercise step, without hints.
    pub fn add_exercise_step(&mut self, title: &str, prompt: &str, solution: &str)
        ensures
            final(self).appended_step(*old(self), title@),
            final(self).steps@.last().content matches LessonContent::Exercise {
                prompt: p,
                hints: h,
                solution: s,
            } && p@ == prompt@ && h@ == Seq::<String>::empty() && s@ == solution@,
            old(self).wf() ==> final(self).wf(),
    {
        let order = self.steps.len();
        self.steps.push(
            LessonStep {
                title: title.to_owned(),
                content: LessonContent::Exercise {
                    prompt: prompt.to_owned(),
                    hints: Vec::new(),
                    solution: solution.to_owned(),
                },
                order,
            },
        );
        proof {
            assert(self.steps@.take(old(self).steps@.len() as int) =~= old(self).steps@);
        }
    }

    /// Add a primitive mapping taught by the lesson.
    pub fn add_mapping(&mut self, mapping: PrimitiveMapping)
        ensures
            final(self).mappings@ == old(self).mappings@.push(mapping),
            final(self).id == old(self).id,
            final(self).title == old(self).title,
            final(self).description == old(self).description,
            final(self).subject_id == old(self).subject_id,
            final(self).difficulty == old(self).difficulty,
            final(self).steps == old(self).steps,
            final(self).prerequisites == old(self).prerequisites,
    {
        self.mappings.push(mapping);
    }

    /// Number of steps.
    pub fn step_count(&self) -> (r: usize)
        ensures
            r == self.steps@.len(),
    {
        self.steps.len()
    }
}

} // verus!
