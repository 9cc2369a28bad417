//! Immutable content value types: stories, questions, and the per-question
//! progress record kept by a session.

use vstd::prelude::*;

verus! {

/// How a single question is asked. Only multiple choice exists today; the
/// enum is the extensibility point for future kinds.
pub enum QuestionKind {
    MultipleChoice { choices: Vec<String>, correct_index: usize },
}

/// One comprehension question. `paragraph_index` is an advisory reference
/// into the story's paragraphs; it is not enforced and may dangle after
/// fallback truncation.
pub struct Question {
    pub text: String,
    pub paragraph_index: usize,
    pub kind: QuestionKind,
}

/// A story: a title, paragraphs in reading order, and questions in the order
/// they are asked.
pub struct Story {
    pub title: String,
    pub paragraphs: Vec<String>,
    pub questions: Vec<Question>,
}

/// Mutable per-question record. Invariant (kept by the session controller):
/// `is_correct` and `skipped` are never both true, and once either is true
/// the entry is terminal and never changes again.
#[derive(Clone, Copy, PartialEq, Eq, Structural, Debug)]
pub struct QuestionProgress {
    pub attempts: u32,
    pub is_correct: bool,
    pub skipped: bool,
}

impl QuestionProgress {
    /// A fresh, untouched entry.
    pub open spec fn initial_spec() -> QuestionProgress {
        QuestionProgress { attempts: 0, is_correct: false, skipped: false }
    }

    pub fn initial() -> (r: QuestionProgress)
        ensures
            r == QuestionProgress::initial_spec(),
    {
        QuestionProgress { attempts: 0, is_correct: false, skipped: false }
    }

    /// An entry is terminal once it is answered correctly or skipped.
    pub open spec fn terminal_spec(self) -> bool {
        self.is_correct || self.skipped
    }

    pub fn terminal(&self) -> (r: bool)
        ensures
            r == self.terminal_spec(),
    {
        self.is_correct || self.skipped
    }
}

/// A fresh progress vector of `k` untouched entries, allocated whenever a
/// story is installed and whenever a quiz is reset.
pub fn fresh_progress(k: usize) -> (r: Vec<QuestionProgress>)
    ensures
        r@.len() == k,
        forall|i: int| 0 <= i < r@.len() ==> r@[i] == QuestionProgress::initial_spec(),
{
    let mut v: Vec<QuestionProgress> = Vec::new();
    let mut i: usize = 0;
    while i < k
        invariant
            i <= k,
            v@.len() == i,
            forall|j: int| 0 <= j < v@.len() ==> v@[j] == QuestionProgress::initial_spec(),
        decreases k - i,
    {
        v.push(QuestionProgress::initial());
        i = i + 1;
    }
    v
}

impl Question {
    /// The choices offered by this question.
    pub open spec fn choices_spec(self) -> Seq<String> {
        match self.kind {
            QuestionKind::MultipleChoice { choices, .. } => choices@,
        }
    }

    /// The index of the correct choice.
    pub open spec fn correct_index_spec(self) -> int {
        match self.kind {
            QuestionKind::MultipleChoice { correct_index, .. } => correct_index as int,
        }
    }

    /// A well-formed question offers at least two choices and its correct
    /// answer is one of them. Remotely generated content is not validated
    /// against this; the built-in fallback pool satisfies it.
    pub open spec fn wf(self) -> bool {
        &&& 2 <= self.choices_spec().len()
        &&& 0 <= self.correct_index_spec() < self.choices_spec().len()
    }

    pub fn choice_count(&self) -> (r: usize)
        ensures
            r == self.choices_spec().len(),
    {
        match &self.kind {
            QuestionKind::MultipleChoice { choices, .. } => choices.len(),
        }
    }
}

/// Every observable of the two questions agrees: the text's characters,
/// the advisory paragraph reference, each choice's characters, and the
/// correct index. (A `String` shows spec code nothing beyond its
/// characters, so this is content equality of question values.)
pub open spec fn question_content_eq(a: Question, b: Question) -> bool {
    &&& a.text@ == b.text@
    &&& a.paragraph_index == b.paragraph_index
    &&& a.choices_spec().len() == b.choices_spec().len()
    &&& (forall|i: int|
        0 <= i < a.choices_spec().len() ==> (#[trigger] a.choices_spec()[i])@
            == b.choices_spec()[i]@)
    &&& a.correct_index_spec() == b.correct_index_spec()
}

/// Every observable of the two stories agrees: the title's characters,
/// each paragraph's characters, and each question's content.
pub open spec fn story_content_eq(a: Story, b: Story) -> bool {
    &&& a.title@ == b.title@
    &&& a.paragraphs@.len() == b.paragraphs@.len()
    &&& (forall|i: int|
        0 <= i < a.paragraphs@.len() ==> (#[trigger] a.paragraphs@[i])@ == b.paragraphs@[i]@)
    &&& a.questions@.len() == b.questions@.len()
    &&& (forall|i: int|
        0 <= i < a.questions@.len() ==> question_content_eq(
            #[trigger] a.questions@[i],
            b.questions@[i],
        ))
}

/// Whether a submitted selection answers the question correctly: a choice
/// must be selected and must equal the question's correct index.
pub fn is_answer_correct(q: &Question, selected_choice: Option<usize>) -> (r: bool)
    ensures
        r == (selected_choice matches Some(i) && i == q.correct_index_spec()),
{
    match &q.kind {
        QuestionKind::MultipleChoice { correct_index, .. } => match selected_choice {
            Some(i) => i == *correct_index,
            None => false,
        },
    }
}

} // verus!
