//! Scoring and grading: a pure function of the final progress state.
//!
//! Each of the `total` questions is worth `100 / total` points (an exact
//! rational, not pre-rounded); correct entries earn it, skipped or pending
//! entries earn nothing. The displayed score is the sum rounded to the
//! nearest integer, halves away from zero, which for the non-negative
//! rational `100 * correct / total` is `(200 * correct + total) / (2 * total)`
//! in integer arithmetic.

use vstd::prelude::*;

use crate::model::QuestionProgress;

verus! {

/// How many entries of `s` are answered correctly.
pub open spec fn correct_count(s: Seq<QuestionProgress>) -> int
    decreases s.len(),
{
    if s.len() == 0 {
        0
    } else {
        correct_count(s.drop_last()) + if s.last().is_correct {
            1int
        } else {
            0int
        }
    }
}

/// The displayed score for `correct` correct answers out of `total`
/// questions: `100 * correct / total` rounded half away from zero.
pub open spec fn rounded_score(correct: int, total: int) -> int
    recommends
        0 < total,
{
    (200 * correct + total) / (2 * total)
}

/// Computes the displayed score: `None` when there are no entries to grade,
/// otherwise the rounded percentage, which always lies between 0 and 100.
pub fn score_percent(progress: &Vec<QuestionProgress>) -> (r: Option<u32>)
    ensures
        (r is Some) == (progress@.len() > 0),
        progress@.len() > 0 ==> (r matches Some(s) && s as int == rounded_score(
            correct_count(progress@),
            progress@.len() as int,
        ) && s <= 100),
{
    let total: usize = progress.len();
    if total == 0 {
        return None;
    }
    let mut correct: usize = 0;
    let mut i: usize = 0;
    while i < total
        invariant
            i <= total,
            total == progress@.len(),
            correct == correct_count(progress@.take(i as int)),
            correct <= i,
        decreases total - i,
    {
        proof {
            assert(progress@.take(i + 1).drop_last() =~= progress@.take(i as int));
            assert(progress@.take(i + 1).last() == progress@[i as int]);
        }
        if progress[i].is_correct {
            correct = correct + 1;
        }
        i = i + 1;
    }
    proof {
        assert(progress@.take(total as int) =~= progress@);
    }
    let c: u128 = correct as u128;
    let t: u128 = total as u128;
    let score: u128 = (200 * c + t) / (2 * t);
    proof {
        lemma_rounded_score_bounds(correct as int, total as int);
    }
    Some(score as u32)
}

/// With `correct` out of `total` entries correct, the rounded score lies
/// between 0 and 100.
pub proof fn lemma_rounded_score_bounds(correct: int, total: int)
    requires
        0 < total,
        0 <= correct <= total,
    ensures
        0 <= rounded_score(correct, total) <= 100,
{
    assert(0 <= (200 * correct + total) / (2 * total) <= 100) by (nonlinear_arith)
        requires
            0 < total,
            0 <= correct <= total,
    ;
}

/// Removing entry `i` removes exactly its contribution to the correct
/// count.
pub proof fn lemma_correct_count_remove(s: Seq<QuestionProgress>, i: int)
    requires
        0 <= i < s.len(),
    ensures
        correct_count(s) == correct_count(s.remove(i)) + if s[i].is_correct {
            1int
        } else {
            0int
        },
    decreases s.len(),
{
    if i == s.len() - 1 {
        assert(s.remove(i) =~= s.drop_last());
    } else {
        assert(s.remove(i).drop_last() =~= s.drop_last().remove(i));
        assert(s.remove(i).last() == s.last());
        lemma_correct_count_remove(s.drop_last(), i);
    }
}

/// Replacing entry `i` swaps its contribution for the new entry's.
pub proof fn lemma_correct_count_update(s: Seq<QuestionProgress>, i: int, e: QuestionProgress)
    requires
        0 <= i < s.len(),
    ensures
        correct_count(s.update(i, e)) == correct_count(s) - (if s[i].is_correct {
            1int
        } else {
            0int
        }) + (if e.is_correct {
            1int
        } else {
            0int
        }),
{
    lemma_correct_count_remove(s, i);
    lemma_correct_count_remove(s.update(i, e), i);
    assert(s.update(i, e).remove(i) =~= s.remove(i));
}

/// Marking an entry skipped earns nothing: the correct count, and with it
/// the score, is exactly what it was.
pub proof fn lemma_skip_scores_nothing(s: Seq<QuestionProgress>, i: int)
    requires
        0 <= i < s.len(),
    ensures
        correct_count(s.update(i, (QuestionProgress { skipped: true, ..s[i] }))) == correct_count(
            s,
        ),
{
    lemma_correct_count_update(s, i, (QuestionProgress { skipped: true, ..s[i] }));
}

/// With entries correct pointwise at least where `p1`'s are, `p2` has at
/// least as many correct entries.
pub proof fn lemma_correct_count_pointwise_le(p1: Seq<QuestionProgress>, p2: Seq<QuestionProgress>)
    requires
        p1.len() == p2.len(),
        forall|i: int| 0 <= i < p1.len() ==> ((#[trigger] p1[i]).is_correct ==> p2[i].is_correct),
    ensures
        correct_count(p1) <= correct_count(p2),
    decreases p1.len(),
{
    if p1.len() > 0 {
        assert(forall|i: int|
            0 <= i < p1.drop_last().len() ==> ((#[trigger] p1.drop_last()[i]).is_correct
                ==> p2.drop_last()[i].is_correct)) by {
            assert(forall|i: int|
                0 <= i < p1.drop_last().len() ==> #[trigger] p1.drop_last()[i] == p1[i]
                    && p2.drop_last()[i] == p2[i]);
        }
        lemma_correct_count_pointwise_le(p1.drop_last(), p2.drop_last());
        assert(p1.last() == p1[p1.len() - 1]);
        assert(p2.last() == p2[p1.len() - 1]);
    }
}

/// The score is monotonically non-decreasing: a progress state whose
/// correct entries include those of another, entry for entry, scores at
/// least as much.
pub proof fn lemma_score_monotone(p1: Seq<QuestionProgress>, p2: Seq<QuestionProgress>)
    requires
        p1.len() == p2.len(),
        0 < p1.len(),
        forall|i: int| 0 <= i < p1.len() ==> ((#[trigger] p1[i]).is_correct ==> p2[i].is_correct),
    ensures
        rounded_score(correct_count(p1), p1.len() as int) <= rounded_score(
            correct_count(p2),
            p2.len() as int,
        ),
{
    lemma_correct_count_pointwise_le(p1, p2);
    let t = p1.len() as int;
    let a = correct_count(p1);
    let b = correct_count(p2);
    assert((200 * a + t) / (2 * t) <= (200 * b + t) / (2 * t)) by (nonlinear_arith)
        requires
            0 < t,
            a <= b,
    ;
}

/// Two progress states that are rearrangements of one another have the same
/// correct count.
pub proof fn lemma_correct_count_permutation(
    p1: Seq<QuestionProgress>,
    p2: Seq<QuestionProgress>,
)
    requires
        p1.to_multiset() == p2.to_multiset(),
    ensures
        correct_count(p1) == correct_count(p2),
    decreases p1.len(),
{
    broadcast use vstd::seq_lib::group_to_multiset_ensures;

    if p1.len() == 0 {
        assert(p1.len() == p1.to_multiset().len());
        assert(p2.len() == p2.to_multiset().len());
        assert(p2.len() == 0);
    } else {
        let x = p1.last();
        let last = p1.len() - 1;
        assert(p1.remove(last) =~= p1.drop_last());
        assert(p1.to_multiset().count(x) > 0);
        assert(p2.to_multiset().count(x) > 0);
        assert(p2.contains(x));
        let i = choose|i: int| 0 <= i < p2.len() && p2[i] == x;
        assert(p1.drop_last().to_multiset() =~= p1.to_multiset().remove(x));
        assert(p2.remove(i).to_multiset() =~= p2.to_multiset().remove(x));
        lemma_correct_count_permutation(p1.drop_last(), p2.remove(i));
        lemma_correct_count_remove(p2, i);
    }
}

/// The score is invariant to the order in which the questions were
/// answered: progress states that are rearrangements of one another score
/// the same.
pub proof fn lemma_score_order_invariant(p1: Seq<QuestionProgress>, p2: Seq<QuestionProgress>)
    requires
        p1.to_multiset() == p2.to_multiset(),
        0 < p1.len(),
    ensures
        p2.len() == p1.len(),
        rounded_score(correct_count(p1), p1.len() as int) == rounded_score(
            correct_count(p2),
            p2.len() as int,
        ),
{
    broadcast use vstd::seq_lib::group_to_multiset_ensures;

    assert(p1.len() == p1.to_multiset().len());
    assert(p2.len() == p2.to_multiset().len());
    lemma_correct_count_permutation(p1, p2);
}

/// How many entries of `s` are terminal (correct or skipped).
pub open spec fn terminal_count(s: Seq<QuestionProgress>) -> int
    decreases s.len(),
{
    if s.len() == 0 {
        0
    } else {
        terminal_count(s.drop_last()) + if s.last().terminal_spec() {
            1int
        } else {
            0int
        }
    }
}

/// How many questions are already completed (answered correctly or
/// skipped), as shown in the progress line.
pub fn completed_count(progress: &Vec<QuestionProgress>) -> (r: usize)
    ensures
        r as int == terminal_count(progress@),
{
    let total: usize = progress.len();
    let mut done: usize = 0;
    let mut i: usize = 0;
    while i < total
        invariant
            i <= total,
            total == progress@.len(),
            done as int == terminal_count(progress@.take(i as int)),
            done <= i,
        decreases total - i,
    {
        proof {
            assert(progress@.take(i + 1).drop_last() =~= progress@.take(i as int));
            assert(progress@.take(i + 1).last() == progress@[i as int]);
        }
        if progress[i].is_correct || progress[i].skipped {
            done = done + 1;
        }
        i = i + 1;
    }
    proof {
        assert(progress@.take(total as int) =~= progress@);
    }
    done
}

/// The attempt count as displayed. A correct entry can carry a count above
/// one from earlier misses; presentation clamps it to one without touching
/// the stored value.
pub open spec fn display_attempts_spec(p: QuestionProgress) -> int {
    if p.is_correct && p.attempts > 1 {
        1
    } else {
        p.attempts as int
    }
}

pub fn display_attempts(p: &QuestionProgress) -> (r: u32)
    ensures
        r as int == display_attempts_spec(*p),
{
    if p.is_correct && p.attempts > 1 {
        1
    } else {
        p.attempts
    }
}

/// The letter grade attached to a rounded score.
#[derive(Clone, Copy, PartialEq, Eq, Structural, Debug)]
pub enum Grade {
    A,
    B,
    C,
    Unsatisfactory,
}

/// The grade earned by a rounded score.
pub open spec fn grade_of(score: int) -> Grade {
    if score >= 90 {
        Grade::A
    } else if score >= 80 {
        Grade::B
    } else if score >= 70 {
        Grade::C
    } else {
        Grade::Unsatisfactory
    }
}

pub fn grade_for(score: u32) -> (g: Grade)
    ensures
        g == grade_of(score as int),
{
    if score >= 90 {
        Grade::A
    } else if score >= 80 {
        Grade::B
    } else if score >= 70 {
        Grade::C
    } else {
        Grade::Unsatisfactory
    }
}

impl Grade {
    /// The short grade string shown beside the score.
    pub fn letter(&self) -> (r: &'static str)
        ensures
            *self == Grade::A ==> r@ == "A"@,
            *self == Grade::B ==> r@ == "B"@,
            *self == Grade::C ==> r@ == "C"@,
            *self == Grade::Unsatisfactory ==> r@ == "Unsatisfactory"@,
    {
        match self {
            Grade::A => "A",
            Grade::B => "B",
            Grade::C => "C",
            Grade::Unsatisfactory => "Unsatisfactory",
        }
    }

    /// The encouraging label shown beside the grade.
    pub fn label(&self) -> (r: &'static str)
        ensures
            *self == Grade::A ==> r@ == "Excellent"@,
            *self == Grade::B ==> r@ == "Good"@,
            *self == Grade::C ==> r@ == "Needs Practice"@,
            *self == Grade::Unsatisfactory ==> r@ == "Keep Working!"@,
    {
        match self {
            Grade::A => "Excellent",
            Grade::B => "Good",
            Grade::C => "Needs Practice",
            Grade::Unsatisfactory => "Keep Working!",
        }
    }
}

} // verus!
