//! Domain-agnostic subject: an ordered curriculum of lesson references.

use vstd::prelude::*;

use crate::numerals::{append_decimal, decimal_text};

verus! {

/// Reference to a lesson within a subject.
#[derive(Debug, Clone, PartialEq, Eq, Hash)]
pub struct LessonRef {
    /// Unique lesson identifier.
    pub id: String,
    /// Display title.
    pub title: String,
    /// Ordinal position in the curriculum.
    pub order: usize,
}

/// A subject (domain of study).
#[derive(Debug, Clone)]
pub struct Subject {
    /// Unique identifier.
    pub id: String,
    /// Display name.
    pub name: String,
    /// Brief description.
    pub description: String,
    /// Ordered lesson references forming the curriculum.
    pub lessons: Vec<LessonRef>,
    /// Domain tags for categorization.
    pub tags: Vec<String>,
}

impl Subject {
    /// Each lesson's `order` is its position in the curriculum.
    pub open spec fn wf(&self) -> bool {
        forall|i: int| 0 <= i < self.lessons@.len() ==> (#[trigger] self.lessons@[i]).order == i
    }

    /// The subject's display form: its name and the number of lessons.
    pub open spec fn display_text(&self) -> Seq<char> {
        self.name@ + " ("@ + decimal_text(self.lessons@.len()) + " lessons)"@
    }

    /// Create a new subject with an empty curriculum and no tags.
    pub fn new(id: &str, name: &str, description: &str) -> (r: Subject)
        ensures
            r.id@ == id@,
            r.name@ == name@,
            r.description@ == description@,
            r.lessons@ == Seq::<LessonRef>::empty(),
            r.tags@ == Seq::<String>::empty(),
            r.wf(),
    {
        Subject {
            id: id.to_owned(),
            name: name.to_owned(),
            description: description.to_owned(),
            lessons: Vec::new(),
            tags: Vec::new(),
        }
    }

    /// Add a lesson reference at the end of the curriculum; its order is
    /// the number of lessons before it.
    pub fn add_lesson(&mut self, id: &str, title: &str)
        ensures
            final(self).lessons@.len() == old(self).lessons@.len() + 1,
            final(self).lessons@.take(old(self).lessons@.len() as int) == old(self).lessons@,
            final(self).lessons@.last().id@ == id@,
            final(self).lessons@.last().title@ == title@,
            final(self).lessons@.last().order == old(self).lessons@.len(),
            final(self).id == old(self).id,
            final(self).name == old(self).name,
            final(self).description == old(self).description,
            final(self).tags == old(self).tags,
            old(self).wf() ==> final(self).wf(),
    {
        let order = self.lessons.len();
        self.lessons.push(LessonRef { id: id.to_owned(), title: title.to_owned(), order });
        proof {
            assert(self.lessons@.take(old(self).lessons@.len() as int) =~= old(self).lessons@);
        }
    }

    /// Add a tag.
    pub fn add_tag(&mut self, tag: &str)
        ensures
            final(self).tags@.len() == old(self).tags@.len() + 1,
            final(self).tags@.take(old(self).tags@.len() as int) == old(self).tags@,
            final(self).tags@.last()@ == tag@,
            final(self).id == old(self).id,
            final(self).name == old(self).name,
            final(self).description == old(self).description,
            final(self).lessons == old(self).lessons,
    {
        self.tags.push(tag.to_owned());
        proof {
            assert(self.tags@.take(old(self).tags@.len() as int) =~= old(self).tags@);
        }
    }

    /// Number of lessons in the curriculum.
    pub fn lesson_count(&self) -> (r: usize)
        ensures
            r == self.lessons@.len(),
    {
        self.lessons.len()
    }

    /// Get a lesson by index; `None` past the end of the curriculum.
    pub fn lesson_at(&self, index: usize) -> (r: Option<&LessonRef>)
        ensures
            index < self.lessons@.len() ==> r == Some(&self.lessons@[index as int]),
            index >= self.lessons@.len() ==> r is None,
    {
        if index < self.lessons.len() {
            Some(&self.lessons[index])
        } else {
            None
        }
    }

    /// The subject's display form, `"<name> (<n> lessons)"`.
    pub fn to_string(&self) -> (r: String)
        ensures
            r@ == self.display_text(),
    {
        let mut s = self.name.clone();
        s.append(" (");
        append_decimal(&mut s, self.lessons.len());
        s.append(" lessons)");
        s
    }
}

} // verus!
