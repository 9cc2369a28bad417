//! Fallback story selection: when the remote content generator is
//! unavailable, a story is drawn uniformly at random from a fixed pool of
//! authored stories and its paragraphs are truncated to the requested count.
//!
//! The pool is never mutated in place: each call builds fresh values, and the
//! selector operates on those.

use vstd::prelude::*;

use rand::Rng;

use crate::model::{question_content_eq, story_content_eq, Question, QuestionKind, Story};

verus! {

/// How many stories the fallback pool holds.
pub open spec fn pool_len() -> int {
    5
}

/// Structural facts that hold of every story in the fallback pool: three
/// paragraphs, three well-formed multiple-choice questions.
pub open spec fn pool_story_wf(st: Story) -> bool {
    &&& st.paragraphs@.len() == 3
    &&& st.questions@.len() == 3
    &&& forall|i: int| 0 <= i < st.questions@.len() ==> (#[trigger] st.questions@[i]).wf()
}

/// The content of one multiple-choice pool question: its text, its
/// advisory paragraph reference, its four choices, and its correct index.
pub open spec fn mc_question_spec(
    q: Question,
    text: Seq<char>,
    paragraph_index: int,
    choice0: Seq<char>,
    choice1: Seq<char>,
    choice2: Seq<char>,
    choice3: Seq<char>,
    correct: int,
) -> bool {
    &&& q.text@ == text
    &&& q.paragraph_index as int == paragraph_index
    &&& q.choices_spec().len() == 4
    &&& q.choices_spec()[0]@ == choice0
    &&& q.choices_spec()[1]@ == choice1
    &&& q.choices_spec()[2]@ == choice2
    &&& q.choices_spec()[3]@ == choice3
    &&& q.correct_index_spec() == correct
}

/// The full content of the science-fair pool story.
pub open spec fn is_science_fair_story(st: Story) -> bool {
    &&& st.title@ == "The Science Fair Mystery"@
    &&& st.paragraphs@.len() == 3
    &&& st.paragraphs@[0]@
        == "Maya loved science more than anything. When her school announced a science fair, she decided to build a tiny wind turbine that could power a small light bulb."@
    &&& st.paragraphs@[1]@
        == "For weeks, she tested different blade shapes in front of a fan. Some blades barely moved, but others spun so fast that the bulb flickered to life."@
    &&& st.paragraphs@[2]@
        == "On the day of the fair, Maya discovered that her project table had been bumped, and her blades were scattered on the floor. She stayed calm, rebuilt the turbine, and showed the judges how testing and patience helped her design improve."@
    &&& st.questions@.len() == 3
    &&& mc_question_spec(
        st.questions@[0],
        "What was Maya building for the science fair?"@,
        0,
        "A robot that could talk"@,
        "A tiny wind turbine"@,
        "A solar-powered car"@,
        "A model of the solar system"@,
        1,
    )
    &&& mc_question_spec(
        st.questions@[1],
        "Where did Maya test her different blade shapes?"@,
        1,
        "In a swimming pool"@,
        "In front of a fan"@,
        "On the school roof"@,
        "In the gym"@,
        1,
    )
    &&& mc_question_spec(
        st.questions@[2],
        "How did Maya react when she saw her blades on the floor?"@,
        2,
        "She shouted at her classmates"@,
        "She went home and quit the fair"@,
        "She stayed calm and rebuilt the turbine"@,
        "She asked the judges to skip her project"@,
        2,
    )
}

/// The full content of the lost-backpack pool story.
pub open spec fn is_lost_backpack_story(st: Story) -> bool {
    &&& st.title@ == "The Lost Backpack on the Bus"@
    &&& st.paragraphs@.len() == 3
    &&& st.paragraphs@[0]@
        == "Jamal always double-checked his backpack before leaving school. One rainy afternoon, he rushed to catch the bus and forgot to zip it closed."@
    &&& st.paragraphs@[1]@
        == "On the ride home, the bus bumped over a pothole. Jamal\u{2019}s notebook slid out of his open backpack and under the seat without him noticing."@
    &&& st.paragraphs@[2]@
        == "When he got home, Jamal realized his notebook was missing. He thought carefully about his day and remembered the bump on the bus, so he called the bus driver and they found the notebook under the seat."@
    &&& st.questions@.len() == 3
    &&& mc_question_spec(
        st.questions@[0],
        "What did Jamal forget to do before he got on the bus?"@,
        0,
        "Put on his shoes"@,
        "Zip his backpack"@,
        "Finish his homework"@,
        "Call his friend"@,
        1,
    )
    &&& mc_question_spec(
        st.questions@[1],
        "Where did the notebook go when the bus hit the pothole?"@,
        1,
        "Out the window"@,
        "Into another student\u{2019}s backpack"@,
        "Under the seat"@,
        "Onto the driver\u{2019}s chair"@,
        2,
    )
    &&& mc_question_spec(
        st.questions@[2],
        "How did Jamal finally find his notebook?"@,
        2,
        "He searched the school hallway"@,
        "He called the bus driver"@,
        "His teacher brought it home"@,
        "A friend mailed it to him"@,
        1,
    )
}

/// The full content of the classroom-garden pool story.
pub open spec fn is_classroom_garden_story(st: Story) -> bool {
    &&& st.title@ == "The Classroom Garden"@
    &&& st.paragraphs@.len() == 3
    &&& st.paragraphs@[0]@
        == "Ms. Lopez brought small pots, soil, and seeds to class. She told her students they would grow a mini garden on the windowsill."@
    &&& st.paragraphs@[1]@
        == "Each student planted a seed and wrote their name on the pot. Some seeds sprouted quickly, while others took more time to peek through the soil."@
    &&& st.paragraphs@[2]@
        == "When one student\u{2019}s seed did not sprout, the class worked together to check the soil, water, and sunlight. They planted a new seed, and the student learned that plants sometimes need a second chance too."@
    &&& st.questions@.len() == 3
    &&& mc_question_spec(
        st.questions@[0],
        "Where did the class keep their mini garden?"@,
        0,
        "On the playground"@,
        "In the gym"@,
        "On the windowsill"@,
        "In the cafeteria"@,
        2,
    )
    &&& mc_question_spec(
        st.questions@[1],
        "What did each student write on their pot?"@,
        1,
        "A science question"@,
        "A funny joke"@,
        "Their favorite color"@,
        "Their name"@,
        3,
    )
    &&& mc_question_spec(
        st.questions@[2],
        "What did the class do when one seed did not sprout?"@,
        2,
        "They threw the pot away"@,
        "They ignored it"@,
        "They checked the plant\u{2019}s needs and tried again"@,
        "They stopped watering all the plants"@,
        2,
    )
}

/// The full content of the library-map pool story.
pub open spec fn is_library_map_story(st: Story) -> bool {
    &&& st.title@ == "The Library Map Challenge"@
    &&& st.paragraphs@.len() == 3
    &&& st.paragraphs@[0]@
        == "The school librarian, Mr. Lee, created a map of the library with clues. He told the class they would use the map to find a hidden box of bookmarks."@
    &&& st.paragraphs@[1]@
        == "The map showed different sections, like history, science, and sports. Each clue led to a new shelf and taught the students how books were organized."@
    &&& st.paragraphs@[2]@
        == "When the class finally found the hidden box, Mr. Lee explained that learning to read maps could help them explore both books and the real world."@
    &&& st.questions@.len() == 3
    &&& mc_question_spec(
        st.questions@[0],
        "What did the map in the library lead to?"@,
        0,
        "A secret doorway"@,
        "A hidden box of bookmarks"@,
        "A new computer lab"@,
        "A stack of comic books"@,
        1,
    )
    &&& mc_question_spec(
        st.questions@[1],
        "Which section was mentioned on the library map?"@,
        1,
        "Weather"@,
        "History"@,
        "Cooking"@,
        "Music videos"@,
        1,
    )
    &&& mc_question_spec(
        st.questions@[2],
        "What did Mr. Lee want students to learn from the map challenge?"@,
        2,
        "How to whisper quietly"@,
        "How to walk faster"@,
        "How to read maps and explore"@,
        "How to put books on the floor"@,
        2,
    )
}

/// The full content of the coding-club pool story.
pub open spec fn is_coding_club_story(st: Story) -> bool {
    &&& st.title@ == "The Rainy Day Coding Club"@
    &&& st.paragraphs@.len() == 3
    &&& st.paragraphs@[0]@
        == "On a rainy Friday, the after-school coding club met in the computer lab. Their challenge was to program a character to move through a simple maze."@
    &&& st.paragraphs@[1]@
        == "At first, the character kept bumping into walls. The students tested different commands, like turn, move forward, and repeat, until the character reached the goal."@
    &&& st.paragraphs@[2]@
        == "By the end of the club, the students realized that fixing mistakes was a normal part of coding, and each error had helped them understand the maze better."@
    &&& st.questions@.len() == 3
    &&& mc_question_spec(
        st.questions@[0],
        "What was the challenge at the coding club?"@,
        0,
        "Build a robot dog"@,
        "Program a character to move through a maze"@,
        "Design a new video game console"@,
        "Write a story about coding"@,
        1,
    )
    &&& mc_question_spec(
        st.questions@[1],
        "Which type of commands did the students test?"@,
        1,
        "Sing and dance"@,
        "Turn, move forward, and repeat"@,
        "Jump and spin"@,
        "Erase and redraw"@,
        1,
    )
    &&& mc_question_spec(
        st.questions@[2],
        "What did the students learn about mistakes in coding?"@,
        2,
        "Mistakes mean you should quit"@,
        "Mistakes are normal and help you learn"@,
        "Only teachers can fix mistakes"@,
        "Mistakes always break the computer"@,
        1,
    )
}

/// `st` is, content for content, one of the five pool stories.
pub open spec fn in_pool(st: Story) -> bool {
    ||| is_science_fair_story(st)
    ||| is_lost_backpack_story(st)
    ||| is_classroom_garden_story(st)
    ||| is_library_map_story(st)
    ||| is_coding_club_story(st)
}

/// The full content of the fallback pool: the five stories, in order.
pub open spec fn pool_spec(pool: Seq<Story>) -> bool {
    &&& pool.len() == pool_len()
    &&& is_science_fair_story(pool[0])
    &&& is_lost_backpack_story(pool[1])
    &&& is_classroom_garden_story(pool[2])
    &&& is_library_map_story(pool[3])
    &&& is_coding_club_story(pool[4])
}

/// The requested paragraph count clamped to the supported range.
pub open spec fn clamped_count_spec(n: u8) -> u8 {
    if n < 1 {
        1
    } else if n > 6 {
        6
    } else {
        n
    }
}

/// Clamps a requested paragraph count to the supported range of 1 through 6.
pub fn clamped_count(n: u8) -> (r: u8)
    ensures
        r == clamped_count_spec(n),
        1 <= r <= 6,
{
    if n < 1 {
        1
    } else if n > 6 {
        6
    } else {
        n
    }
}

/// Relies on `rand::Rng::gen_range` over `rand::thread_rng`: returns a
/// uniformly random index below `n`. It panics only on an empty range,
/// which `n > 0` rules out; nothing more than the bound can be promised of
/// a random draw.
#[verifier::external_body]
fn random_index(n: usize) -> (r: usize)
    requires
        n > 0,
    ensures
        r < n,
{
    rand::thread_rng().gen_range(0..n)
}

fn story_science_fair() -> (r: Story)
    ensures
        pool_story_wf(r),
        is_science_fair_story(r),
{
    Story {
        title: "The Science Fair Mystery".to_owned(),
        paragraphs: vec![
            "Maya loved science more than anything. When her school announced a science fair, she decided to build a tiny wind turbine that could power a small light bulb.".to_owned(),
            "For weeks, she tested different blade shapes in front of a fan. Some blades barely moved, but others spun so fast that the bulb flickered to life.".to_owned(),
            "On the day of the fair, Maya discovered that her project table had been bumped, and her blades were scattered on the floor. She stayed calm, rebuilt the turbine, and showed the judges how testing and patience helped her design improve.".to_owned(),
        ],
        questions: vec![
            Question {
                text: "What was Maya building for the science fair?".to_owned(),
                paragraph_index: 0,
                kind: QuestionKind::MultipleChoice {
                    choices: vec![
                        "A robot that could talk".to_owned(),
                        "A tiny wind turbine".to_owned(),
                        "A solar-powered car".to_owned(),
                        "A model of the solar system".to_owned(),
                    ],
                    correct_index: 1,
                },
            },
            Question {
                text: "Where did Maya test her different blade shapes?".to_owned(),
                paragraph_index: 1,
                kind: QuestionKind::MultipleChoice {
                    choices: vec![
                        "In a swimming pool".to_owned(),
                        "In front of a fan".to_owned(),
                        "On the school roof".to_owned(),
                        "In the gym".to_owned(),
                    ],
                    correct_index: 1,
                },
            },
            Question {
                text: "How did Maya react when she saw her blades on the floor?".to_owned(),
                paragraph_index: 2,
                kind: QuestionKind::MultipleChoice {
                    choices: vec![
                        "She shouted at her classmates".to_owned(),
                        "She went home and quit the fair".to_owned(),
                        "She stayed calm and rebuilt the turbine".to_owned(),
                        "She asked the judges to skip her project".to_owned(),
                    ],
                    correct_index: 2,
                },
            },
        ],
    }
}

fn story_lost_backpack() -> (r: Story)
    ensures
        pool_story_wf(r),
        is_lost_backpack_story(r),
{
    Story {
        title: "The Lost Backpack on the Bus".to_owned(),
        paragraphs: vec![
            "Jamal always double-checked his backpack before leaving school. One rainy afternoon, he rushed to catch the bus and forgot to zip it closed.".to_owned(),
            "On the ride home, the bus bumped over a pothole. Jamal\u{2019}s notebook slid out of his open backpack and under the seat without him noticing.".to_owned(),
            "When he got home, Jamal realized his notebook was missing. He thought carefully about his day and remembered the bump on the bus, so he called the bus driver and they found the notebook under the seat.".to_owned(),
        ],
        questions: vec![
            Question {
                text: "What did Jamal forget to do before he got on the bus?".to_owned(),
                paragraph_index: 0,
                kind: QuestionKind::MultipleChoice {
                    choices: vec![
                        "Put on his shoes".to_owned(),
                        "Zip his backpack".to_owned(),
                        "Finish his homework".to_owned(),
                        "Call his friend".to_owned(),
                    ],
                    correct_index: 1,
                },
            },
            Question {
                text: "Where did the notebook go when the bus hit the pothole?".to_owned(),
                paragraph_index: 1,
                kind: QuestionKind::MultipleChoice {
                    choices: vec![
                        "Out the window".to_owned(),
                        "Into another student\u{2019}s backpack".to_owned(),
                        "Under the seat".to_owned(),
                        "Onto the driver\u{2019}s chair".to_owned(),
                    ],
                    correct_index: 2,
                },
            },
            Question {
                text: "How did Jamal finally find his notebook?".to_owned(),
                paragraph_index: 2,
                kind: QuestionKind::MultipleChoice {
                    choices: vec![
                        "He searched the school hallway".to_owned(),
                        "He called the bus driver".to_owned(),
                        "His teacher brought it home".to_owned(),
                        "A friend mailed it to him".to_owned(),
                    ],
                    correct_index: 1,
                },
            },
        ],
    }
}

fn story_classroom_garden() -> (r: Story)
    ensures
        pool_story_wf(r),
        is_classroom_garden_story(r),
{
    Story {
        title: "The Classroom Garden".to_owned(),
        paragraphs: vec![
            "Ms. Lopez brought small pots, soil, and seeds to class. She told her students they would grow a mini garden on the windowsill.".to_owned(),
            "Each student planted a seed and wrote their name on the pot. Some seeds sprouted quickly, while others took more time to peek through the soil.".to_owned(),
            "When one student\u{2019}s seed did not sprout, the class worked together to check the soil, water, and sunlight. They planted a new seed, and the student learned that plants sometimes need a second chance too.".to_owned(),
        ],
        questions: vec![
            Question {
                text: "Where did the class keep their mini garden?".to_owned(),
                paragraph_index: 0,
                kind: QuestionKind::MultipleChoice {
                    choices: vec![
                        "On the playground".to_owned(),
                        "In the gym".to_owned(),
                        "On the windowsill".to_owned(),
                        "In the cafeteria".to_owned(),
                    ],
                    correct_index: 2,
                },
            },
            Question {
                text: "What did each student write on their pot?".to_owned(),
                paragraph_index: 1,
                kind: QuestionKind::MultipleChoice {
                    choices: vec![
                        "A science question".to_owned(),
                        "A funny joke".to_owned(),
                        "Their favorite color".to_owned(),
                        "Their name".to_owned(),
                    ],
                    correct_index: 3,
                },
            },
            Question {
                text: "What did the class do when one seed did not sprout?".to_owned(),
                paragraph_index: 2,
                kind: QuestionKind::MultipleChoice {
                    choices: vec![
                        "They threw the pot away".to_owned(),
                        "They ignored it".to_owned(),
                        "They checked the plant\u{2019}s needs and tried again".to_owned(),
                        "They stopped watering all the plants".to_owned(),
                    ],
                    correct_index: 2,
                },
            },
        ],
    }
}

fn story_library_map() -> (r: Story)
    ensures
        pool_story_wf(r),
        is_library_map_story(r),
{
    Story {
        title: "The Library Map Challenge".to_owned(),
        paragraphs: vec![
            "The school librarian, Mr. Lee, created a map of the library with clues. He told the class they would use the map to find a hidden box of bookmarks.".to_owned(),
            "The map showed different sections, like history, science, and sports. Each clue led to a new shelf and taught the students how books were organized.".to_owned(),
            "When the class finally found the hidden box, Mr. Lee explained that learning to read maps could help them explore both books and the real world.".to_owned(),
        ],
        questions: vec![
            Question {
                text: "What did the map in the library lead to?".to_owned(),
                paragraph_index: 0,
                kind: QuestionKind::MultipleChoice {
                    choices: vec![
                        "A secret doorway".to_owned(),
                        "A hidden box of bookmarks".to_owned(),
                        "A new computer lab".to_owned(),
                        "A stack of comic books".to_owned(),
                    ],
                    correct_index: 1,
                },
            },
            Question {
                text: "Which section was mentioned on the library map?".to_owned(),
                paragraph_index: 1,
                kind: QuestionKind::MultipleChoice {
                    choices: vec![
                        "Weather".to_owned(),
                        "History".to_owned(),
                        "Cooking".to_owned(),
                        "Music videos".to_owned(),
                    ],
                    correct_index: 1,
                },
            },
            Question {
                text: "What did Mr. Lee want students to learn from the map challenge?".to_owned(),
                paragraph_index: 2,
                kind: QuestionKind::MultipleChoice {
                    choices: vec![
                        "How to whisper quietly".to_owned(),
                        "How to walk faster".to_owned(),
                        "How to read maps and explore".to_owned(),
                        "How to put books on the floor".to_owned(),
                    ],
                    correct_index: 2,
                },
            },
        ],
    }
}

fn story_coding_club() -> (r: Story)
    ensures
        pool_story_wf(r),
        is_coding_club_story(r),
{
    Story {
        title: "The Rainy Day Coding Club".to_owned(),
        paragraphs: vec![
            "On a rainy Friday, the after-school coding club met in the computer lab. Their challenge was to program a character to move through a simple maze.".to_owned(),
            "At first, the character kept bumping into walls. The students tested different commands, like turn, move forward, and repeat, until the character reached the goal.".to_owned(),
            "By the end of the club, the students realized that fixing mistakes was a normal part of coding, and each error had helped them understand the maze better.".to_owned(),
        ],
        questions: vec![
            Question {
                text: "What was the challenge at the coding club?".to_owned(),
                paragraph_index: 0,
                kind: QuestionKind::MultipleChoice {
                    choices: vec![
                        "Build a robot dog".to_owned(),
                        "Program a character to move through a maze".to_owned(),
                        "Design a new video game console".to_owned(),
                        "Write a story about coding".to_owned(),
                    ],
                    correct_index: 1,
                },
            },
            Question {
                text: "Which type of commands did the students test?".to_owned(),
                paragraph_index: 1,
                kind: QuestionKind::MultipleChoice {
                    choices: vec![
                        "Sing and dance".to_owned(),
                        "Turn, move forward, and repeat".to_owned(),
                        "Jump and spin".to_owned(),
                        "Erase and redraw".to_owned(),
                    ],
                    correct_index: 1,
                },
            },
            Question {
                text: "What did the students learn about mistakes in coding?".to_owned(),
                paragraph_index: 2,
                kind: QuestionKind::MultipleChoice {
                    choices: vec![
                        "Mistakes mean you should quit".to_owned(),
                        "Mistakes are normal and help you learn".to_owned(),
                        "Only teachers can fix mistakes".to_owned(),
                        "Mistakes always break the computer".to_owned(),
                    ],
                    correct_index: 1,
                },
            },
        ],
    }
}

/// The canonical fallback pool. Every story in it has three paragraphs and
/// three well-formed multiple-choice questions.
pub fn fallback_pool() -> (r: Vec<Story>)
    ensures
        r@.len() == pool_len(),
        forall|i: int| 0 <= i < r@.len() ==> pool_story_wf(#[trigger] r@[i]),
        pool_spec(r@),
{
    let v: Vec<Story> = vec![
        story_science_fair(),
        story_lost_backpack(),
        story_classroom_garden(),
        story_library_map(),
        story_coding_club(),
    ];
    v
}

/// `r` is `full` with its paragraphs truncated to the clamped request:
/// the title and every question untouched, and only trailing paragraphs
/// beyond the clamped count removed.
pub open spec fn truncation_of(r: Story, full: Story, requested: u8) -> bool {
    &&& r.title == full.title
    &&& r.questions == full.questions
    &&& r.paragraphs@ == (if clamped_count_spec(requested) as int >= full.paragraphs@.len() {
        full.paragraphs@
    } else {
        full.paragraphs@.take(clamped_count_spec(requested) as int)
    })
}

/// Truncates a story's paragraphs to the clamped requested count, keeping
/// the title and all questions untouched. Truncation removes trailing
/// paragraphs only; questions are never removed or renumbered, so a
/// question's advisory paragraph reference may outlive its paragraph.
pub fn truncate_story(story: Story, requested_paragraph_count: u8) -> (r: Story)
    ensures
        truncation_of(r, story, requested_paragraph_count),
{
    let desired: usize = clamped_count(requested_paragraph_count) as usize;
    let mut story = story;
    if story.paragraphs.len() > desired {
        story.paragraphs.truncate(desired);
    }
    proof {
        assert(story.paragraphs@ =~= (if clamped_count_spec(requested_paragraph_count) as int
            >= story.paragraphs@.len() {
            story.paragraphs@
        } else {
            story.paragraphs@.take(clamped_count_spec(requested_paragraph_count) as int)
        }));
    }
    story
}

/// Draws one story uniformly at random from the fallback pool and truncates
/// its paragraphs to the clamped requested count. Which of the five pool
/// stories is drawn is random; what holds of every outcome is that the
/// result is one of them, truncated: three well-formed questions, and as
/// many paragraphs as the clamped request allows, up to the three the pool
/// stories have.
pub fn pick_fallback_story(requested_paragraph_count: u8) -> (r: Story)
    ensures
        (exists|full: Story| #[trigger] in_pool(full) && truncation_of(
            r,
            full,
            requested_paragraph_count,
        )),
        r.questions@.len() == 3,
        forall|i: int| 0 <= i < r.questions@.len() ==> (#[trigger] r.questions@[i]).wf(),
        r.paragraphs@.len() == (if clamped_count_spec(requested_paragraph_count) >= 3 {
            3int
        } else {
            clamped_count_spec(requested_paragraph_count) as int
        }),
        1 <= r.paragraphs@.len() <= 3,
{
    let mut pool = fallback_pool();
    let idx = random_index(pool.len());
    let chosen = pool.swap_remove(idx);
    proof {
        assert(in_pool(chosen));
    }
    let ghost full = chosen;
    let r = truncate_story(chosen, requested_paragraph_count);
    proof {
        assert(in_pool(full) && truncation_of(r, full, requested_paragraph_count));
    }
    r
}

/// Two stories that satisfy the same pool-story description agree in every
/// observable.
proof fn lemma_matching_pool_stories_content_eq(a: Story, b: Story)
    requires
        (is_science_fair_story(a) && is_science_fair_story(b)) || (is_lost_backpack_story(a)
            && is_lost_backpack_story(b)) || (is_classroom_garden_story(a)
            && is_classroom_garden_story(b)) || (is_library_map_story(a) && is_library_map_story(
            b,
        )) || (is_coding_club_story(a) && is_coding_club_story(b)),
    ensures
        story_content_eq(a, b),
{
    assert forall|i: int| 0 <= i < a.paragraphs@.len() implies (#[trigger] a.paragraphs@[i])@
        == b.paragraphs@[i]@ by {
        assert(i == 0 || i == 1 || i == 2);
    }
    assert forall|i: int| 0 <= i < a.questions@.len() implies question_content_eq(
        #[trigger] a.questions@[i],
        b.questions@[i],
    ) by {
        assert(i == 0 || i == 1 || i == 2);
        assert forall|j: int|
            0 <= j < a.questions@[i].choices_spec().len() implies (#[trigger] a.questions@[
        i].choices_spec()[j])@ == b.questions@[i].choices_spec()[j]@ by {
            assert(j == 0 || j == 1 || j == 2 || j == 3);
        }
    }
}

/// The pool is a fixed constant: any two pools satisfying its description
/// — in particular the results of any two `fallback_pool` calls — have the
/// same length and, story for story, the same title, paragraphs, question
/// texts, choices, and correct indices. Spec code observes a `String` only
/// through its characters, so content equality is the strongest equality
/// statable across separately built values.
pub proof fn lemma_pool_is_constant(p1: Seq<Story>, p2: Seq<Story>)
    requires
        pool_spec(p1),
        pool_spec(p2),
    ensures
        p1.len() == p2.len(),
        forall|i: int| 0 <= i < p1.len() ==> story_content_eq(#[trigger] p1[i], p2[i]),
{
    assert forall|i: int| 0 <= i < p1.len() implies story_content_eq(#[trigger] p1[i], p2[i]) by {
        lemma_matching_pool_stories_content_eq(p1[i], p2[i]);
    }
}

} // verus!
