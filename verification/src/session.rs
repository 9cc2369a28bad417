//! The session controller: one learner's run through a single story,
//! advanced by synchronous transitions.
//!
//! The session moves through five phases: topic selection, loading,
//! reading, questioning, finished. Every transition is a method that
//! mutates the session atomically; its contract states the full effect.
//! The only suspension point is the content-source call: `generate_story`
//! hands back a request ticket, the caller performs the call, and
//! `resolve_content` installs the outcome — or discards it if it is stale.

use vstd::prelude::*;

use crate::fallback::{clamped_count_spec, in_pool, pick_fallback_story, truncation_of};
use crate::model::{fresh_progress, is_answer_correct, Question, QuestionProgress, Story};
use crate::scoring::{correct_count, grade_for, grade_of, rounded_score, score_percent, Grade};

verus! {

/// Coarse stage of a session.
#[derive(Clone, Copy, PartialEq, Eq, Structural, Debug)]
pub enum SessionPhase {
    SelectTopic,
    LoadingStory,
    ReadStory,
    Questioning,
    Finished,
}

/// Where the installed story came from; for display only.
#[derive(Clone, Copy, PartialEq, Eq, Structural, Debug)]
pub enum ContentSource {
    Remote,
    Fallback,
}

/// The ticket handed to the content-source collaborator by
/// `Session::generate_story`. The token identifies the request so that a
/// stale completion can be recognized and discarded.
pub struct StoryRequest {
    pub topic: String,
    pub target_audience_level: u32,
    pub paragraph_count: u8,
    pub question_count: u32,
    pub token: u64,
}

/// Whitespace trimming as a pure function of the character sequence.
pub uninterp spec fn trim_of(s: Seq<char>) -> Seq<char>;

/// Relies on `str::trim`: removes leading and trailing whitespace, a
/// function of the characters alone, named `trim_of` here.
#[verifier::external_body]
fn trimmed(s: &str) -> (r: String)
    ensures
        r@ == trim_of(s@),
{
    s.trim().to_owned()
}

/// The full state of one learner's run through a single story.
pub struct Session {
    pub topic: String,
    pub requested_paragraph_count: u8,
    pub story: Option<Story>,
    pub progress: Vec<QuestionProgress>,
    pub current_index: usize,
    pub selected_choice: Option<usize>,
    pub phase: SessionPhase,
    pub content_source: ContentSource,
    pub last_error: Option<String>,
    pub pending_token: u64,
}

/// The session-visible message for a blank topic.
pub open spec fn msg_empty_topic() -> Seq<char> {
    "Please enter a story topic first."@
}

/// The session-visible message for acting without a loaded story.
pub open spec fn msg_no_story() -> Seq<char> {
    "No story is loaded yet."@
}

/// The session-visible message for submitting with no choice selected.
pub open spec fn msg_no_choice() -> Seq<char> {
    "Please choose an answer before checking."@
}

/// The session's visible error is exactly `msg`.
pub open spec fn error_is(s: Session, msg: Seq<char>) -> bool {
    s.last_error matches Some(m) && m@ == msg
}

/// All fields of `a` and `b` agree except possibly the visible error.
pub open spec fn same_core(a: Session, b: Session) -> bool {
    &&& a.topic == b.topic
    &&& a.requested_paragraph_count == b.requested_paragraph_count
    &&& a.story == b.story
    &&& a.progress == b.progress
    &&& a.current_index == b.current_index
    &&& a.selected_choice == b.selected_choice
    &&& a.phase == b.phase
    &&& a.content_source == b.content_source
    &&& a.pending_token == b.pending_token
}

/// The fields that quiz actions never touch agree between `a` and `b`.
pub open spec fn same_installed_story(a: Session, b: Session) -> bool {
    &&& a.topic == b.topic
    &&& a.requested_paragraph_count == b.requested_paragraph_count
    &&& a.story == b.story
    &&& a.content_source == b.content_source
    &&& a.pending_token == b.pending_token
}

impl Session {
    /// The number of questions of the installed story, zero without one.
    pub open spec fn questions_len(self) -> int {
        match self.story {
            Some(st) => st.questions@.len() as int,
            None => 0,
        }
    }

    /// The questions of the installed story.
    pub open spec fn questions_spec(self) -> Seq<Question>
        recommends
            self.story is Some,
    {
        self.story->0.questions@
    }

    /// The progress entry the learner currently faces.
    pub open spec fn current_entry(self) -> QuestionProgress
        recommends
            (self.current_index as int) < self.progress@.len(),
    {
        self.progress@[self.current_index as int]
    }

    /// The session invariant: the paragraph request stays in range, the
    /// progress vector mirrors the installed story's questions one to one,
    /// no entry is both correct and skipped, a story is present in every
    /// phase that shows one, and the current index is valid while
    /// questioning.
    pub open spec fn wf(self) -> bool {
        &&& 1 <= self.requested_paragraph_count <= 6
        &&& self.progress@.len() == self.questions_len()
        &&& forall|i: int|
            0 <= i < self.progress@.len() ==> !((#[trigger] self.progress@[i]).is_correct
                && self.progress@[i].skipped)
        &&& (self.phase == SessionPhase::ReadStory || self.phase == SessionPhase::Questioning
            || self.phase == SessionPhase::Finished) ==> self.story is Some
        &&& self.phase == SessionPhase::ReadStory ==> self.current_index == 0
        &&& self.phase == SessionPhase::Questioning ==> if self.progress@.len() == 0 {
            self.current_index == 0
        } else {
            (self.current_index as int) < self.progress@.len()
        }
    }

    /// A session in its initial state, the pending-generation token aside.
    pub open spec fn at_start_except_token(self) -> bool {
        &&& self.topic@ == Seq::<char>::empty()
        &&& self.requested_paragraph_count == 3
        &&& self.story is None
        &&& self.progress@ == Seq::<QuestionProgress>::empty()
        &&& self.current_index == 0
        &&& self.selected_choice is None
        &&& self.phase == SessionPhase::SelectTopic
        &&& self.content_source == ContentSource::Fallback
        &&& self.last_error is None
    }

    /// A freshly created session: topic selection, no story, no progress.
    pub fn new() -> (s: Session)
        ensures
            s.at_start_except_token(),
            s.pending_token == 0,
            s.wf(),
    {
        Session {
            topic: String::new(),
            requested_paragraph_count: 3,
            story: None,
            progress: Vec::new(),
            current_index: 0,
            selected_choice: None,
            phase: SessionPhase::SelectTopic,
            content_source: ContentSource::Fallback,
            last_error: None,
            pending_token: 0,
        }
    }

    /// Records the topic the learner typed; nothing else moves.
    pub fn set_topic(&mut self, topic: String)
        requires
            old(self).wf(),
        ensures
            final(self).wf(),
            final(self).topic == topic,
            final(self).requested_paragraph_count == old(self).requested_paragraph_count,
            final(self).story == old(self).story,
            final(self).progress == old(self).progress,
            final(self).current_index == old(self).current_index,
            final(self).selected_choice == old(self).selected_choice,
            final(self).phase == old(self).phase,
            final(self).content_source == old(self).content_source,
            final(self).last_error == old(self).last_error,
            final(self).pending_token == old(self).pending_token,
    {
        self.topic = topic;
    }

    /// Records the requested paragraph count, clamped to 1 through 6;
    /// nothing else moves.
    pub fn set_paragraph_count(&mut self, n: u8)
        requires
            old(self).wf(),
        ensures
            final(self).wf(),
            final(self).requested_paragraph_count == clamped_count_spec(n),
            final(self).topic == old(self).topic,
            final(self).story == old(self).story,
            final(self).progress == old(self).progress,
            final(self).current_index == old(self).current_index,
            final(self).selected_choice == old(self).selected_choice,
            final(self).phase == old(self).phase,
            final(self).content_source == old(self).content_source,
            final(self).last_error == old(self).last_error,
            final(self).pending_token == old(self).pending_token,
    {
        self.requested_paragraph_count = crate::fallback::clamped_count(n);
    }

    /// Returns the whole session to its initial state, from any phase. The
    /// pending-generation token alone is preserved: it keeps growing across
    /// restarts so that the completion of a generation requested before the
    /// restart can never be mistaken for one requested after it.
    pub fn restart(&mut self)
        ensures
            final(self).wf(),
            final(self).at_start_except_token(),
            final(self).pending_token == old(self).pending_token,
    {
        self.topic = String::new();
        self.requested_paragraph_count = 3;
        self.story = None;
        self.progress = Vec::new();
        self.current_index = 0;
        self.selected_choice = None;
        self.phase = SessionPhase::SelectTopic;
        self.content_source = ContentSource::Fallback;
        self.last_error = None;
    }
    /// Begins a story generation. While a generation is already pending the
    /// event is refused outright; with a topic that is blank after trimming
    /// a recoverable error is surfaced and nothing else moves. Otherwise the
    /// session suspends in the loading phase and hands back the request
    /// ticket for the content-source collaborator, stamped with a fresh
    /// token. The installed story and its progress stay untouched until the
    /// outcome arrives.
    pub fn generate_story(&mut self) -> (r: Option<StoryRequest>)
        requires
            old(self).wf(),
            old(self).pending_token < u64::MAX,
        ensures
            final(self).wf(),
            old(self).phase == SessionPhase::LoadingStory ==> r is None && *final(self) == *old(
                self,
            ),
            old(self).phase != SessionPhase::LoadingStory && trim_of(old(self).topic@).len() == 0
                ==> r is None && same_core(*old(self), *final(self)) && error_is(
                *final(self),
                msg_empty_topic(),
            ),
            old(self).phase != SessionPhase::LoadingStory && trim_of(old(self).topic@).len() > 0
                ==> ({
                &&& r matches Some(req)
                &&& req.topic@ == trim_of(old(self).topic@)
                &&& req.target_audience_level == 5
                &&& req.paragraph_count == old(self).requested_paragraph_count
                &&& req.question_count == 4
                &&& req.token == final(self).pending_token
                &&& final(self).pending_token == old(self).pending_token + 1
                &&& final(self).phase == SessionPhase::LoadingStory
                &&& final(self).last_error is None
                &&& final(self).topic == old(self).topic
                &&& final(self).requested_paragraph_count == old(self).requested_paragraph_count
                &&& final(self).story == old(self).story
                &&& final(self).progress == old(self).progress
                &&& final(self).current_index == old(self).current_index
                &&& final(self).selected_choice == old(self).selected_choice
                &&& final(self).content_source == old(self).content_source
            }),
    {
        if self.phase == SessionPhase::LoadingStory {
            return None;
        }
        let topic_value = trimmed(self.topic.as_str());
        if topic_value.as_str().is_empty() {
            self.last_error = Some("Please enter a story topic first.".to_owned());
            return None;
        }
        self.last_error = None;
        self.phase = SessionPhase::LoadingStory;
        self.pending_token = self.pending_token + 1;
        Some(
            StoryRequest {
                topic: topic_value,
                target_audience_level: 5,
                paragraph_count: self.requested_paragraph_count,
                question_count: 4,
                token: self.pending_token,
            },
        )
    }

    /// Installs the outcome of the content-source call stamped `token`. A
    /// completion that is stale — the session is no longer loading, or the
    /// token is not the one of the most recent request — is discarded
    /// silently. A successful outcome installs the returned story; a failed
    /// one surfaces the diagnostic, draws a fallback story instead, and the
    /// flow proceeds as if generation had succeeded. Either way the
    /// progress vector is allocated fresh, one untouched entry per
    /// question, and reading begins.
    pub fn resolve_content(&mut self, token: u64, outcome: Result<Story, String>)
        requires
            old(self).wf(),
        ensures
            final(self).wf(),
            old(self).phase != SessionPhase::LoadingStory || token != old(self).pending_token
                ==> *final(self) == *old(self),
            old(self).phase == SessionPhase::LoadingStory && token == old(self).pending_token
                ==> ({
                &&& final(self).phase == SessionPhase::ReadStory
                &&& final(self).current_index == 0
                &&& final(self).selected_choice is None
                &&& final(self).topic == old(self).topic
                &&& final(self).requested_paragraph_count == old(self).requested_paragraph_count
                &&& final(self).pending_token == old(self).pending_token
                &&& final(self).story is Some
                &&& final(self).progress@.len() == final(self).questions_len()
                &&& forall|i: int|
                    0 <= i < final(self).progress@.len() ==> final(self).progress@[i]
                        == QuestionProgress::initial_spec()
                &&& (outcome matches Ok(st) ==> ({
                    &&& final(self).story == Some(st)
                    &&& final(self).content_source == ContentSource::Remote
                    &&& final(self).last_error is None
                }))
                &&& (outcome matches Err(msg) ==> ({
                    &&& final(self).content_source == ContentSource::Fallback
                    &&& final(self).last_error == Some(msg)
                    &&& (exists|full: Story| #[trigger] in_pool(full) && truncation_of(
                        final(self).story->0,
                        full,
                        old(self).requested_paragraph_count,
                    ))
                    &&& final(self).questions_len() == 3
                    &&& (forall|i: int|
                        0 <= i < final(self).questions_spec().len()
                            ==> (#[trigger] final(self).questions_spec()[i]).wf())
                    &&& final(self).story->0.paragraphs@.len() == (
                    if clamped_count_spec(old(self).requested_paragraph_count) >= 3 {
                        3int
                    } else {
                        clamped_count_spec(old(self).requested_paragraph_count) as int
                    })
                }))
            }),
    {
        if !(self.phase == SessionPhase::LoadingStory && token == self.pending_token) {
            return;
        }
        let story = match outcome {
            Ok(st) => {
                self.content_source = ContentSource::Remote;
                self.last_error = None;
                st
            },
            Err(msg) => {
                self.content_source = ContentSource::Fallback;
                self.last_error = Some(msg);
                pick_fallback_story(self.requested_paragraph_count)
            },
        };
        let k = story.questions.len();
        self.progress = fresh_progress(k);
        self.story = Some(story);
        self.current_index = 0;
        self.selected_choice = None;
        self.phase = SessionPhase::ReadStory;
    }

    /// The learner has read the story: questioning begins. In any phase but
    /// reading the event is ignored.
    pub fn acknowledge_read(&mut self)
        requires
            old(self).wf(),
        ensures
            final(self).wf(),
            old(self).phase == SessionPhase::ReadStory ==> ({
                &&& final(self).phase == SessionPhase::Questioning
                &&& same_installed_story(*old(self), *final(self))
                &&& final(self).progress == old(self).progress
                &&& final(self).current_index == old(self).current_index
                &&& final(self).selected_choice == old(self).selected_choice
                &&& final(self).last_error == old(self).last_error
            }),
            old(self).phase != SessionPhase::ReadStory ==> *final(self) == *old(self),
    {
        if self.phase == SessionPhase::ReadStory {
            self.phase = SessionPhase::Questioning;
        }
    }

    /// Whether the review event is acted on: a story must be on display.
    pub open spec fn can_review(self) -> bool {
        &&& self.story is Some
        &&& (self.phase == SessionPhase::ReadStory || self.phase == SessionPhase::Questioning
            || self.phase == SessionPhase::Finished)
    }

    /// Returns to the story text, reachable mid-quiz too: all progress is
    /// reset, the quiz restarts on the same story. Without a story on
    /// display the event is ignored.
    pub fn review_story(&mut self)
        requires
            old(self).wf(),
        ensures
            final(self).wf(),
            !old(self).can_review() ==> *final(self) == *old(self),
            old(self).can_review() ==> ({
                &&& final(self).phase == SessionPhase::ReadStory
                &&& same_installed_story(*old(self), *final(self))
                &&& final(self).progress@.len() == old(self).progress@.len()
                &&& (forall|i: int|
                    0 <= i < final(self).progress@.len() ==> final(self).progress@[i]
                        == QuestionProgress::initial_spec())
                &&& final(self).current_index == 0
                &&& final(self).selected_choice is None
                &&& final(self).last_error is None
            }),
    {
        if self.story.is_none() {
            return;
        }
        if !(self.phase == SessionPhase::ReadStory || self.phase == SessionPhase::Questioning
            || self.phase == SessionPhase::Finished) {
            return;
        }
        self.last_error = None;
        self.selected_choice = None;
        self.current_index = 0;
        let k = self.progress.len();
        self.progress = fresh_progress(k);
        self.phase = SessionPhase::ReadStory;
    }

    /// The question the learner currently faces.
    pub open spec fn current_question(self) -> Question
        recommends
            self.story is Some,
            (self.current_index as int) < self.questions_spec().len(),
    {
        self.questions_spec()[self.current_index as int]
    }

    /// Whether selecting choice `i` is acted on: the session must be
    /// questioning a valid index and `i` must be in range of the current
    /// question's choices.
    pub open spec fn can_select(self, i: int) -> bool {
        &&& self.phase == SessionPhase::Questioning
        &&& self.story is Some
        &&& (self.current_index as int) < self.progress@.len()
        &&& 0 <= i < self.current_question().choices_spec().len()
    }

    /// Records the learner's in-progress choice for the current question;
    /// it does not advance anything. An out-of-range selection, or one made
    /// while not questioning, is ignored.
    pub fn select_choice(&mut self, i: usize)
        requires
            old(self).wf(),
        ensures
            final(self).wf(),
            !old(self).can_select(i as int) ==> *final(self) == *old(self),
            old(self).can_select(i as int) ==> ({
                &&& final(self).selected_choice == Some(i)
                &&& same_installed_story(*old(self), *final(self))
                &&& final(self).progress == old(self).progress
                &&& final(self).current_index == old(self).current_index
                &&& final(self).phase == old(self).phase
                &&& final(self).last_error == old(self).last_error
            }),
    {
        if !(self.phase == SessionPhase::Questioning) {
            return;
        }
        let in_range = match &self.story {
            None => false,
            Some(st) => {
                if self.current_index < self.progress.len() {
                    i < st.questions[self.current_index].choice_count()
                } else {
                    false
                }
            },
        };
        if in_range {
            self.selected_choice = Some(i);
        }
    }

    /// Resets every progress entry and returns to the first question on the
    /// same story. With no questions to retry the event only clears the
    /// error.
    pub fn retry_story(&mut self)
        requires
            old(self).wf(),
        ensures
            final(self).wf(),
            final(self).last_error is None,
            old(self).progress@.len() == 0 ==> same_core(*old(self), *final(self)),
            old(self).progress@.len() > 0 ==> ({
                &&& final(self).phase == SessionPhase::Questioning
                &&& same_installed_story(*old(self), *final(self))
                &&& final(self).progress@.len() == old(self).progress@.len()
                &&& (forall|i: int|
                    0 <= i < final(self).progress@.len() ==> final(self).progress@[i]
                        == QuestionProgress::initial_spec())
                &&& final(self).current_index == 0
                &&& final(self).selected_choice is None
            }),
    {
        self.last_error = None;
        if self.progress.len() == 0 {
            return;
        }
        let k = self.progress.len();
        self.progress = fresh_progress(k);
        self.current_index = 0;
        self.selected_choice = None;
        self.phase = SessionPhase::Questioning;
    }

    /// Whether the session is questioning a valid, still-open entry: the
    /// position in which submitting or skipping acts.
    pub open spec fn entry_open(self) -> bool {
        &&& self.story is Some
        &&& self.phase == SessionPhase::Questioning
        &&& (self.current_index as int) < self.progress@.len()
        &&& !self.current_entry().terminal_spec()
    }

    /// Whether a submission counts an attempt: the entry is open and a
    /// choice is selected.
    pub open spec fn submit_counts(self) -> bool {
        &&& self.entry_open()
        &&& self.selected_choice is Some
    }

    /// Whether the selected choice answers the current question correctly.
    pub open spec fn selection_correct(self) -> bool
        recommends
            self.story is Some,
            (self.current_index as int) < self.questions_spec().len(),
    {
        self.selected_choice matches Some(i) && i == self.current_question().correct_index_spec()
    }

    /// Checks the selected choice against the current question. An attempt
    /// is counted whenever a choice is present and the entry is open. A
    /// correct answer makes the entry terminal and advances: to the next
    /// question with the selection cleared, or, from the last question,
    /// straight to the finished phase. An incorrect answer leaves the
    /// index, the selection and the entry's flags alone, so the learner may
    /// retry indefinitely. Submitting with no choice selected surfaces a
    /// recoverable error and counts nothing; submitting on a terminal
    /// entry, or outside questioning, is ignored. Any previous error is
    /// cleared first.
    pub fn submit_answer(&mut self)
        requires
            old(self).wf(),
            old(self).submit_counts() ==> old(self).current_entry().attempts < u32::MAX,
        ensures
            final(self).wf(),
            // no story at all: recoverable error, nothing else moves
            old(self).story is None ==> same_core(*old(self), *final(self)) && error_is(
                *final(self),
                msg_no_story(),
            ),
            // not questioning, index out of range, or entry already
            // terminal: ignored, the old error is cleared
            old(self).story is Some && !old(self).entry_open() ==> same_core(
                *old(self),
                *final(self),
            ) && final(self).last_error is None,
            // no choice selected: recoverable error, no attempt counted
            old(self).entry_open() && old(self).selected_choice is None ==> same_core(
                *old(self),
                *final(self),
            ) && error_is(*final(self), msg_no_choice()),
            // a counted attempt increments the entry's attempts exactly once
            old(self).submit_counts() ==> ({
                &&& same_installed_story(*old(self), *final(self))
                &&& final(self).last_error is None
                &&& final(self).progress@.len() == old(self).progress@.len()
                &&& (forall|j: int|
                    0 <= j < old(self).progress@.len() && j != old(self).current_index as int
                        ==> final(self).progress@[j] == old(self).progress@[j])
                &&& final(self).progress@[old(self).current_index as int].attempts == old(
                    self,
                ).current_entry().attempts + 1
                &&& final(self).progress@[old(self).current_index as int].skipped == false
            }),
            // incorrect: the entry stays open, nothing advances
            old(self).submit_counts() && !old(self).selection_correct() ==> ({
                &&& final(self).progress@[old(self).current_index as int].is_correct == false
                &&& final(self).current_index == old(self).current_index
                &&& final(self).selected_choice == old(self).selected_choice
                &&& final(self).phase == SessionPhase::Questioning
            }),
            // correct: the entry becomes terminal and the session advances
            old(self).submit_counts() && old(self).selection_correct() ==> ({
                &&& final(self).progress@[old(self).current_index as int].is_correct == true
                &&& (old(self).current_index as int + 1 < old(self).progress@.len() ==> ({
                    &&& final(self).current_index == old(self).current_index + 1
                    &&& final(self).selected_choice is None
                    &&& final(self).phase == SessionPhase::Questioning
                }))
                &&& (old(self).current_index as int + 1 == old(self).progress@.len() ==> ({
                    &&& final(self).phase == SessionPhase::Finished
                    &&& final(self).current_index == old(self).current_index
                    &&& final(self).selected_choice == old(self).selected_choice
                }))
            }),
    {
        self.last_error = None;
        if self.story.is_none() {
            self.last_error = Some("No story is loaded yet.".to_owned());
            return;
        }
        if !(self.phase == SessionPhase::Questioning) {
            return;
        }
        let idx = self.current_index;
        if idx >= self.progress.len() {
            return;
        }
        let entry = self.progress[idx];
        if entry.terminal() {
            return;
        }
        let selected = self.selected_choice;
        if selected.is_none() {
            self.last_error = Some("Please choose an answer before checking.".to_owned());
            return;
        }
        let correct = match &self.story {
            Some(st) => is_answer_correct(&st.questions[idx], selected),
            None => false,
        };
        let mut updated = entry;
        updated.attempts = updated.attempts + 1;
        if correct {
            updated.is_correct = true;
            self.progress[idx] = updated;
            let next = idx + 1;
            if next < self.progress.len() {
                self.current_index = next;
                self.selected_choice = None;
            } else {
                self.phase = SessionPhase::Finished;
            }
        } else {
            self.progress[idx] = updated;
        }
    }

    /// Skips the current question: the entry becomes terminal with
    /// `skipped` set, earns nothing, and the session advances exactly as a
    /// correct answer would. Skipping a terminal entry, or skipping outside
    /// questioning, is ignored; the error message is left as it was.
    pub fn skip_question(&mut self)
        requires
            old(self).wf(),
        ensures
            final(self).wf(),
            !old(self).entry_open() ==> *final(self) == *old(self),
            old(self).entry_open() ==> ({
                &&& same_installed_story(*old(self), *final(self))
                &&& final(self).last_error == old(self).last_error
                &&& final(self).progress@.len() == old(self).progress@.len()
                &&& (forall|j: int|
                    0 <= j < old(self).progress@.len() && j != old(self).current_index as int
                        ==> final(self).progress@[j] == old(self).progress@[j])
                &&& final(self).progress@[old(self).current_index as int] == (QuestionProgress {
                    skipped: true,
                    ..old(self).current_entry()
                })
                &&& (old(self).current_index as int + 1 < old(self).progress@.len() ==> ({
                    &&& final(self).current_index == old(self).current_index + 1
                    &&& final(self).selected_choice is None
                    &&& final(self).phase == SessionPhase::Questioning
                }))
                &&& (old(self).current_index as int + 1 == old(self).progress@.len() ==> ({
                    &&& final(self).phase == SessionPhase::Finished
                    &&& final(self).current_index == old(self).current_index
                    &&& final(self).selected_choice == old(self).selected_choice
                }))
            }),
    {
        if self.story.is_none() {
            return;
        }
        if !(self.phase == SessionPhase::Questioning) {
            return;
        }
        let idx = self.current_index;
        if idx >= self.progress.len() {
            return;
        }
        let entry = self.progress[idx];
        if entry.terminal() {
            return;
        }
        let mut updated = entry;
        updated.skipped = true;
        self.progress[idx] = updated;
        let next = idx + 1;
        if next < self.progress.len() {
            self.current_index = next;
            self.selected_choice = None;
        } else {
            self.phase = SessionPhase::Finished;
        }
    }

    /// Whether the session has something to grade: an installed story with
    /// at least one question and its progress vector.
    pub open spec fn has_score(self) -> bool {
        &&& self.story is Some
        &&& self.questions_len() > 0
        &&& self.progress@.len() > 0
    }

    /// The rounded score of this session's progress.
    pub open spec fn score_spec(self) -> int
        recommends
            self.has_score(),
    {
        rounded_score(correct_count(self.progress@), self.progress@.len() as int)
    }

    /// The rounded score and grade, or `None` when there is nothing to
    /// grade (no story, or a story without questions).
    pub fn score_report(&self) -> (r: Option<(u32, Grade)>)
        requires
            self.wf(),
        ensures
            (r is Some) == self.has_score(),
            r matches Some(p) ==> ({
                &&& p.0 as int == self.score_spec()
                &&& p.0 <= 100
                &&& p.1 == grade_of(p.0 as int)
            }),
    {
        let has_questions = match &self.story {
            None => false,
            Some(st) => st.questions.len() > 0,
        };
        if !has_questions || self.progress.len() == 0 {
            return None;
        }
        match score_percent(&self.progress) {
            Some(s) => Some((s, grade_for(s))),
            None => None,
        }
    }

    /// Whether a finished quiz may be retried: there is a score and it is
    /// strictly below 100.
    pub fn can_retry(&self) -> (r: bool)
        requires
            self.wf(),
        ensures
            r == (self.has_score() && self.score_spec() < 100),
    {
        match self.score_report() {
            Some((s, _)) => s < 100,
            None => false,
        }
    }
}

} // verus!
