use story_trainer::model::{Question, QuestionKind, Story};
use story_trainer::scoring::Grade;
use story_trainer::session::{ContentSource, Session, SessionPhase};

fn question(correct_index: usize) -> Question {
    Question {
        text: "What happened?".to_string(),
        paragraph_index: 0,
        kind: QuestionKind::MultipleChoice {
            choices: vec!["one".to_string(), "two".to_string(), "three".to_string()],
            correct_index,
        },
    }
}

fn story(correct: &[usize]) -> Story {
    Story {
        title: "A Test Story".to_string(),
        paragraphs: vec!["Once upon a time.".to_string()],
        questions: correct.iter().map(|&c| question(c)).collect(),
    }
}

/// Drives a fresh session to the questioning phase on a story whose
/// questions have the given correct indices.
fn questioning_session(correct: &[usize]) -> Session {
    let mut s = Session::new();
    s.set_topic("dinosaurs".to_string());
    let req = s.generate_story().expect("topic is not blank");
    s.resolve_content(req.token, Ok(story(correct)));
    s.acknowledge_read();
    assert_eq!(s.phase, SessionPhase::Questioning);
    s
}

#[test]
fn fresh_session_initial_state() {
    let s = Session::new();
    assert_eq!(s.topic, "");
    assert_eq!(s.requested_paragraph_count, 3);
    assert!(s.story.is_none());
    assert!(s.progress.is_empty());
    assert_eq!(s.current_index, 0);
    assert_eq!(s.selected_choice, None);
    assert_eq!(s.phase, SessionPhase::SelectTopic);
    assert_eq!(s.content_source, ContentSource::Fallback);
    assert_eq!(s.last_error, None);
    assert_eq!(s.pending_token, 0);
}

#[test]
fn install_initializes_progress() {
    let s = questioning_session(&[0, 1, 2, 0]);
    assert_eq!(s.progress.len(), 4);
    for entry in &s.progress {
        assert_eq!(entry.attempts, 0);
        assert!(!entry.is_correct);
        assert!(!entry.skipped);
    }
    assert_eq!(s.current_index, 0);
    assert_eq!(s.content_source, ContentSource::Remote);
    assert_eq!(s.last_error, None);
}

#[test]
fn failed_generation_falls_back() {
    let mut s = Session::new();
    s.set_topic("dinosaurs".to_string());
    let req = s.generate_story().expect("topic is not blank");
    s.resolve_content(req.token, Err("Could not reach the generator.".to_string()));
    assert_eq!(s.phase, SessionPhase::ReadStory);
    assert_eq!(s.content_source, ContentSource::Fallback);
    assert_eq!(s.last_error.as_deref(), Some("Could not reach the generator."));
    let st = s.story.as_ref().expect("a fallback story is installed");
    assert_eq!(st.questions.len(), 3);
    assert_eq!(st.paragraphs.len(), 3);
    assert_eq!(s.progress.len(), 3);
}

#[test]
fn correct_answer_advances_and_clears_selection() {
    let mut s = questioning_session(&[1, 0]);
    s.select_choice(1);
    s.submit_answer();
    assert_eq!(s.current_index, 1);
    assert_eq!(s.selected_choice, None);
    assert_eq!(s.phase, SessionPhase::Questioning);
    assert!(s.progress[0].is_correct);
    assert_eq!(s.progress[0].attempts, 1);
}

#[test]
fn correct_answer_on_last_question_finishes() {
    let mut s = questioning_session(&[1, 0]);
    s.select_choice(1);
    s.submit_answer();
    s.select_choice(0);
    s.submit_answer();
    assert_eq!(s.phase, SessionPhase::Finished);
    assert!(s.progress[1].is_correct);
}

#[test]
fn incorrect_answer_counts_attempts_without_advancing() {
    let mut s = questioning_session(&[2]);
    s.select_choice(0);
    s.submit_answer();
    assert_eq!(s.current_index, 0);
    assert!(!s.progress[0].is_correct);
    assert_eq!(s.progress[0].attempts, 1);
    assert_eq!(s.phase, SessionPhase::Questioning);
    s.submit_answer();
    assert_eq!(s.progress[0].attempts, 2);
    assert_eq!(s.current_index, 0);
}

#[test]
fn skip_advances_like_a_correct_answer_but_scores_nothing() {
    let mut s = questioning_session(&[0, 1]);
    s.skip_question();
    assert_eq!(s.current_index, 1);
    assert_eq!(s.selected_choice, None);
    assert!(s.progress[0].skipped);
    assert!(!s.progress[0].is_correct);
    assert_eq!(s.progress[0].attempts, 0);
    s.skip_question();
    assert_eq!(s.phase, SessionPhase::Finished);
    let (score, _) = s.score_report().expect("two questions were graded");
    assert_eq!(score, 0);
}

#[test]
fn events_after_finish_are_ignored() {
    let mut s = questioning_session(&[1]);
    s.select_choice(1);
    s.submit_answer();
    assert_eq!(s.phase, SessionPhase::Finished);
    let attempts = s.progress[0].attempts;
    s.submit_answer();
    s.skip_question();
    assert_eq!(s.progress[0].attempts, attempts);
    assert!(s.progress[0].is_correct);
    assert!(!s.progress[0].skipped);
    assert_eq!(s.phase, SessionPhase::Finished);
}

#[test]
fn submitting_without_a_choice_sets_error_and_counts_nothing() {
    let mut s = questioning_session(&[0]);
    s.submit_answer();
    assert_eq!(s.last_error.as_deref(), Some("Please choose an answer before checking."));
    assert_eq!(s.progress[0].attempts, 0);
    assert_eq!(s.phase, SessionPhase::Questioning);
    // the error clears on the next successful action
    s.select_choice(0);
    s.submit_answer();
    assert_eq!(s.last_error, None);
    assert_eq!(s.phase, SessionPhase::Finished);
}

#[test]
fn submitting_without_a_story_sets_error() {
    let mut s = Session::new();
    s.submit_answer();
    assert_eq!(s.last_error.as_deref(), Some("No story is loaded yet."));
    assert_eq!(s.phase, SessionPhase::SelectTopic);
}

#[test]
fn blank_topic_is_rejected() {
    let mut s = Session::new();
    s.set_topic("   \t  ".to_string());
    assert!(s.generate_story().is_none());
    assert_eq!(s.last_error.as_deref(), Some("Please enter a story topic first."));
    assert_eq!(s.phase, SessionPhase::SelectTopic);
}

#[test]
fn request_carries_trimmed_topic_and_fixed_parameters() {
    let mut s = Session::new();
    s.set_topic("  space rockets  ".to_string());
    s.set_paragraph_count(4);
    let req = s.generate_story().expect("topic is not blank");
    assert_eq!(req.topic, "space rockets");
    assert_eq!(req.target_audience_level, 5);
    assert_eq!(req.paragraph_count, 4);
    assert_eq!(req.question_count, 4);
    assert_eq!(req.token, s.pending_token);
}

#[test]
fn generate_is_refused_while_loading() {
    let mut s = Session::new();
    s.set_topic("dinosaurs".to_string());
    let first = s.generate_story();
    assert!(first.is_some());
    let token = s.pending_token;
    assert!(s.generate_story().is_none());
    assert_eq!(s.phase, SessionPhase::LoadingStory);
    assert_eq!(s.pending_token, token);
}

#[test]
fn stale_resolution_is_discarded() {
    let mut s = Session::new();
    s.set_topic("dinosaurs".to_string());
    let stale = s.generate_story().expect("first request");
    s.restart();
    s.set_topic("volcanoes".to_string());
    let fresh = s.generate_story().expect("second request");
    assert!(fresh.token > stale.token);
    // the completion of the pre-restart request must not land
    s.resolve_content(stale.token, Ok(story(&[0])));
    assert_eq!(s.phase, SessionPhase::LoadingStory);
    assert!(s.story.is_none());
    // the live one does
    s.resolve_content(fresh.token, Ok(story(&[0])));
    assert_eq!(s.phase, SessionPhase::ReadStory);
    assert!(s.story.is_some());
}

#[test]
fn resolution_after_restart_is_discarded() {
    let mut s = Session::new();
    s.set_topic("dinosaurs".to_string());
    let req = s.generate_story().expect("request");
    s.restart();
    s.resolve_content(req.token, Ok(story(&[0])));
    assert_eq!(s.phase, SessionPhase::SelectTopic);
    assert!(s.story.is_none());
}

#[test]
fn four_question_run_scores_seventy_five() {
    // Q1 correct first try, Q2 correct on the second try, Q3 skipped,
    // Q4 correct first try: 3 of 4 correct, 75%, a C.
    let mut s = questioning_session(&[1, 2, 0, 1]);
    s.select_choice(1);
    s.submit_answer();
    s.select_choice(0);
    s.submit_answer();
    s.select_choice(2);
    s.submit_answer();
    s.skip_question();
    s.select_choice(1);
    s.submit_answer();
    assert_eq!(s.phase, SessionPhase::Finished);
    assert_eq!(
        s.progress.iter().map(|e| e.attempts).collect::<Vec<_>>(),
        vec![1, 2, 0, 1]
    );
    let (score, grade) = s.score_report().expect("four questions were graded");
    assert_eq!(score, 75);
    assert_eq!(grade, Grade::C);
    assert_eq!(grade.letter(), "C");
    assert_eq!(grade.label(), "Needs Practice");
    assert!(s.can_retry());
}

#[test]
fn perfect_run_scores_one_hundred_without_retry() {
    let mut s = questioning_session(&[0, 1, 2]);
    s.select_choice(0);
    s.submit_answer();
    s.select_choice(1);
    s.submit_answer();
    s.select_choice(2);
    s.submit_answer();
    assert_eq!(s.phase, SessionPhase::Finished);
    let (score, grade) = s.score_report().expect("three questions were graded");
    assert_eq!(score, 100);
    assert_eq!(grade, Grade::A);
    assert_eq!(grade.letter(), "A");
    assert!(!s.can_retry());
}

#[test]
fn retry_resets_mixed_progress() {
    // progress reaches [correct, skipped, incorrect-pending]
    let mut s = questioning_session(&[1, 0, 2]);
    s.select_choice(1);
    s.submit_answer();
    s.skip_question();
    s.select_choice(0);
    s.submit_answer();
    assert!(s.progress[0].is_correct);
    assert!(s.progress[1].skipped);
    assert_eq!(s.progress[2].attempts, 1);
    s.retry_story();
    assert_eq!(s.progress.len(), 3);
    for entry in &s.progress {
        assert_eq!(entry.attempts, 0);
        assert!(!entry.is_correct);
        assert!(!entry.skipped);
    }
    assert_eq!(s.current_index, 0);
    assert_eq!(s.selected_choice, None);
    assert_eq!(s.phase, SessionPhase::Questioning);
}

#[test]
fn restart_matches_a_fresh_session_except_the_token() {
    let mut s = questioning_session(&[1, 0]);
    s.set_paragraph_count(6);
    s.select_choice(0);
    s.submit_answer();
    s.restart();
    let fresh = Session::new();
    assert_eq!(s.topic, fresh.topic);
    assert_eq!(s.requested_paragraph_count, fresh.requested_paragraph_count);
    assert!(s.story.is_none());
    assert!(s.progress.is_empty());
    assert_eq!(s.current_index, fresh.current_index);
    assert_eq!(s.selected_choice, fresh.selected_choice);
    assert_eq!(s.phase, fresh.phase);
    assert_eq!(s.content_source, fresh.content_source);
    assert_eq!(s.last_error, fresh.last_error);
    // the generation token alone survives, so stale completions stay stale
    assert!(s.pending_token > fresh.pending_token);
}

#[test]
fn review_story_restarts_the_quiz_on_the_same_story() {
    let mut s = questioning_session(&[1, 0]);
    s.select_choice(1);
    s.submit_answer();
    assert!(s.progress[0].is_correct);
    s.review_story();
    assert_eq!(s.phase, SessionPhase::ReadStory);
    assert_eq!(s.progress.len(), 2);
    for entry in &s.progress {
        assert_eq!(entry.attempts, 0);
        assert!(!entry.is_correct);
        assert!(!entry.skipped);
    }
    assert_eq!(s.current_index, 0);
    assert_eq!(s.story.as_ref().unwrap().title, "A Test Story");
}

#[test]
fn out_of_range_selection_is_ignored() {
    let mut s = questioning_session(&[0]);
    s.select_choice(7);
    assert_eq!(s.selected_choice, None);
    s.select_choice(2);
    assert_eq!(s.selected_choice, Some(2));
}

#[test]
fn paragraph_count_is_clamped() {
    let mut s = Session::new();
    s.set_paragraph_count(10);
    assert_eq!(s.requested_paragraph_count, 6);
    s.set_paragraph_count(0);
    assert_eq!(s.requested_paragraph_count, 1);
    // a clamped oversized request leaves a three-paragraph fallback story whole
    s.set_paragraph_count(10);
    s.set_topic("dinosaurs".to_string());
    let req = s.generate_story().expect("topic is not blank");
    s.resolve_content(req.token, Err("generator offline".to_string()));
    assert_eq!(s.story.as_ref().unwrap().paragraphs.len(), 3);
}
