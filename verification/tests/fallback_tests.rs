use story_trainer::fallback::{fallback_pool, pick_fallback_story, truncate_story};
use story_trainer::model::{QuestionKind, Story};

fn pool_titles() -> Vec<String> {
    fallback_pool().into_iter().map(|st| st.title).collect()
}

#[test]
fn pool_has_five_distinct_stories() {
    let titles = pool_titles();
    assert_eq!(titles.len(), 5);
    for i in 0..titles.len() {
        for j in 0..i {
            assert_ne!(titles[i], titles[j]);
        }
    }
}

#[test]
fn pool_titles_come_in_order() {
    let expected = vec![
        "The Science Fair Mystery".to_string(),
        "The Lost Backpack on the Bus".to_string(),
        "The Classroom Garden".to_string(),
        "The Library Map Challenge".to_string(),
        "The Rainy Day Coding Club".to_string(),
    ];
    assert_eq!(pool_titles(), expected);
}

#[test]
fn pool_questions_reference_existing_paragraphs() {
    for story in fallback_pool() {
        for q in &story.questions {
            assert!(q.paragraph_index < story.paragraphs.len());
            assert!(!q.text.is_empty());
        }
        assert!(!story.title.is_empty());
        for p in &story.paragraphs {
            assert!(!p.is_empty());
        }
    }
}

#[test]
fn pool_stories_are_well_formed() {
    for story in fallback_pool() {
        assert_eq!(story.paragraphs.len(), 3);
        assert_eq!(story.questions.len(), 3);
        for q in &story.questions {
            let QuestionKind::MultipleChoice { choices, correct_index } = &q.kind;
            assert!(choices.len() >= 2);
            assert!(*correct_index < choices.len());
        }
    }
}

fn sample_story() -> Story {
    fallback_pool().pop().unwrap()
}

#[test]
fn oversized_request_is_clamped_before_truncation() {
    // A request for 10 paragraphs is clamped to 6; a pool story has only 3,
    // so all 3 survive unchanged.
    let story = sample_story();
    let original_paragraphs = story.paragraphs.clone();
    let truncated = truncate_story(story, 10);
    assert_eq!(truncated.paragraphs, original_paragraphs);
    assert_eq!(truncated.questions.len(), 3);
}

#[test]
fn truncation_keeps_leading_paragraphs_and_all_questions() {
    let story = sample_story();
    let title = story.title.clone();
    let first_paragraph = story.paragraphs[0].clone();
    let question_count = story.questions.len();
    let truncated = truncate_story(story, 2);
    assert_eq!(truncated.title, title);
    assert_eq!(truncated.paragraphs.len(), 2);
    assert_eq!(truncated.paragraphs[0], first_paragraph);
    assert_eq!(truncated.questions.len(), question_count);
}

#[test]
fn zero_request_keeps_one_paragraph() {
    let story = sample_story();
    let truncated = truncate_story(story, 0);
    assert_eq!(truncated.paragraphs.len(), 1);
}

#[test]
fn picked_story_comes_from_the_pool() {
    let titles = pool_titles();
    for _ in 0..20 {
        let story = pick_fallback_story(6);
        assert!(titles.contains(&story.title));
        assert_eq!(story.paragraphs.len(), 3);
        assert_eq!(story.questions.len(), 3);
    }
}

#[test]
fn picked_story_is_truncated_to_the_request() {
    for _ in 0..10 {
        let story = pick_fallback_story(1);
        assert_eq!(story.paragraphs.len(), 1);
        assert_eq!(story.questions.len(), 3);
    }
}
