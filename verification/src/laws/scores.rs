//! Scores and probabilities are compared as the numbers they stand for.
use vstd::prelude::*;

use crate::handlers::confident;
use crate::models::Timestamp;
use crate::models::VerificationView;
use crate::score::Probability;
use crate::score::Score;
use crate::verify::answers;
use crate::verify::possible_score;

verus! {

/// A score is no number just when its exponent is full and its fraction is not
/// zero; between numbers, positive ones go by their bits, negative ones the
/// other way, and both zeros are the same.
pub proof fn scores_go_by_their_bits(a: Score, b: Score)
    ensures
        a.nan() <==> a.bits % 0x8000_0000_0000_0000 > 0x7ff0_0000_0000_0000,
        a.nan() || b.nan() ==> !a.le(b),
        !a.nan() && !b.nan() ==> {
            let negative_a = a.bits >= 0x8000_0000_0000_0000;
            let negative_b = b.bits >= 0x8000_0000_0000_0000;
            &&& !negative_a && !negative_b ==> (a.le(b) <==> a.bits <= b.bits)
            &&& negative_a && negative_b ==> (a.le(b) <==> b.bits <= a.bits)
            &&& negative_a && !negative_b ==> a.le(b)
            &&& !negative_a && negative_b ==> (a.le(b) <==> a.bits == 0 && b.bits
                == 0x8000_0000_0000_0000)
        },
{
}

/// Between numbers, one score is at most the other or the other way round, and
/// being at most goes on from one to the next.
pub proof fn scores_are_in_order(a: Score, b: Score, c: Score)
    requires
        !a.nan(),
        !b.nan(),
        !c.nan(),
    ensures
        a.le(a),
        a.le(b) || b.le(a),
        a.le(b) && b.le(c) ==> a.le(c),
{
}

/// A probability is no number just when its exponent is full and its fraction
/// is not zero; between numbers, positive ones go by their bits, negative ones
/// the other way, and both zeros are the same.
pub proof fn probabilities_go_by_their_bits(a: Probability, b: Probability)
    ensures
        a.nan() <==> a.bits % 0x8000_0000 > 0x7f80_0000,
        a.nan() || b.nan() ==> !a.gt(b),
        !a.nan() && !b.nan() ==> {
            let negative_a = a.bits >= 0x8000_0000;
            let negative_b = b.bits >= 0x8000_0000;
            &&& !negative_a && !negative_b ==> (a.gt(b) <==> a.bits > b.bits)
            &&& negative_a && negative_b ==> (a.gt(b) <==> a.bits < b.bits)
            &&& negative_a && !negative_b ==> !a.gt(b)
            &&& !negative_a && negative_b ==> (a.gt(b) <==> a.bits > 0 || b.bits > 0x8000_0000)
        },
{
}

/// A score is possible from 0 to 1, with minus zero; it answers the question
/// from 0.5 on; and it lets hits be mined just when it is a number above 0.70,
/// or no number.
pub proof fn thresholds_by_their_bits(
    score: Score,
    answers_question: bool,
    model: Seq<char>,
    checked_at: Timestamp,
)
    ensures
        possible_score(score) <==> score.bits <= 0x3ff0_0000_0000_0000 || score.bits
            == 0x8000_0000_0000_0000,
        possible_score(score) ==> (answers(score) <==> 0x3fe0_0000_0000_0000 <= score.bits
            < 0x8000_0000_0000_0000),
        possible_score(score) ==> (confident(
            VerificationView::Checked { score, answers_question, model, checked_at },
        ) <==> 0x3fe6_6666_6666_6666 < score.bits < 0x8000_0000_0000_0000),
        confident(VerificationView::Checked { score, answers_question, model, checked_at }) <==> (
        score.bits % 0x8000_0000_0000_0000 > 0x7ff0_0000_0000_0000) || (0x3fe6_6666_6666_6666
            < score.bits < 0x8000_0000_0000_0000),
{
}

/// Hits are never mined without a verdict.
pub proof fn only_verdicts_are_confident(text: Seq<char>)
    ensures
        !confident(VerificationView::Failed { message: text }),
        !confident(VerificationView::Skipped { reason: text }),
{
}

} // verus!
