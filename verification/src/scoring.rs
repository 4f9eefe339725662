//! From the votes on one submission to its row of the leaderboard.
//!
//! Votes are on an ordinal scale that runs from 1 to 5. Each criterion is
//! aggregated by its median, the medians are combined with fixed weights, and
//! both are scaled to integers: a criterion to the range up to 1000, the
//! composite to the range up to 10000.

use vstd::prelude::*;
use crate::median::{
    lemma_median_ignores_order,
    lemma_median_within_bounds,
    median,
    median_doubled,
    sorted,
    Median,
};
use crate::permutation::{lemma_map_same_elements, same_elements};

verus! {

/// Weight of the problem-fit criterion, in hundredths.
pub const WEIGHT_PROBLEM_FIT: i64 = 25;

/// Weight of the clarity criterion, in hundredths.
pub const WEIGHT_CLARITY: i64 = 20;

/// Weight of the style-interpretation criterion, in hundredths.
pub const WEIGHT_STYLE: i64 = 20;

/// Weight of the originality criterion, in hundredths.
pub const WEIGHT_ORIGINALITY: i64 = 15;

/// Weight of the overall-quality criterion, in hundredths.
pub const WEIGHT_OVERALL: i64 = 20;

/// The five judged criteria.
#[derive(Clone, Copy, Debug, PartialEq, Eq, Structural)]
pub enum Criterion {
    ProblemFit,
    Clarity,
    StyleInterpretation,
    Originality,
    OverallQuality,
}

/// One value per judged criterion.
#[derive(Debug)]
pub struct CriterionScores<T> {
    pub problem_fit: T,
    pub clarity: T,
    pub style_interpretation: T,
    pub originality: T,
    pub overall_quality: T,
}

/// One judge's scores for one submission.
#[derive(Clone, Copy, Debug, PartialEq, Eq, Structural)]
pub struct Vote {
    pub submission_id: i32,
    pub user_id: i32,
    pub problem_fit_score: i32,
    pub clarity_score: i32,
    pub style_interpretation_score: i32,
    pub originality_score: i32,
    pub overall_quality_score: i32,
}

impl Vote {
    /// Whether this vote was cast by the user `user_id`, who alone may change
    /// it.
    pub fn cast_by(&self, user_id: i32) -> (own: bool)
        ensures
            own == (self.user_id == user_id),
    {
        self.user_id == user_id
    }

    /// The score that this vote gives on `criterion`.
    pub open spec fn score_for(self, criterion: Criterion) -> i32 {
        match criterion {
            Criterion::ProblemFit => self.problem_fit_score,
            Criterion::Clarity => self.clarity_score,
            Criterion::StyleInterpretation => self.style_interpretation_score,
            Criterion::Originality => self.originality_score,
            Criterion::OverallQuality => self.overall_quality_score,
        }
    }
}

/// A row of the leaderboard: the scaled medians of one submission and its
/// scaled composite.
#[derive(Clone, Copy, Debug, PartialEq, Eq, Structural)]
pub struct Score {
    pub submission_id: i32,
    pub problem_fit_score: i32,
    pub visual_clarity_score: i32,
    pub style_interpretation_score: i32,
    pub originality_score: i32,
    pub overall_quality_score: i32,
    pub final_score: i32,
}

/// The quotient `num / den` rounded toward zero.
pub open spec fn toward_zero(num: int, den: int) -> int
    recommends
        den > 0,
{
    if num >= 0 {
        num / den
    } else {
        -((-num) / den)
    }
}

/// `x` held to the range of `i32`.
pub open spec fn saturated(x: int) -> int {
    if x < i32::MIN {
        i32::MIN as int
    } else if x > i32::MAX {
        i32::MAX as int
    } else {
        x
    }
}

/// A median `doubled / 2` times 200, rounded toward zero, as an `i32`.
pub open spec fn scaled_to_1000(doubled: int) -> int {
    saturated(toward_zero(doubled * 200, 2))
}

/// A composite `weighted / 200` times 2000, rounded toward zero, as an `i32`.
pub open spec fn scaled_final(weighted: int) -> int {
    saturated(toward_zero(weighted * 2000, 200))
}

/// The weighted sum of five doubled medians, the weights in hundredths: 200
/// times the weighted average of the medians.
pub open spec fn weighted_sum(doubled: CriterionScores<int>) -> int {
    WEIGHT_PROBLEM_FIT * doubled.problem_fit + WEIGHT_CLARITY * doubled.clarity + WEIGHT_STYLE
        * doubled.style_interpretation + WEIGHT_ORIGINALITY * doubled.originality + WEIGHT_OVERALL
        * doubled.overall_quality
}

/// The weighted average of five medians, held exactly in two-hundredths.
#[derive(Clone, Copy, Debug)]
pub struct Composite {
    weighted: i64,
}

impl Composite {
    #[verifier::type_invariant]
    spec fn in_range(self) -> bool {
        200 * i32::MIN <= self.weighted <= 200 * i32::MAX
    }

    /// 200 times the value of this composite.
    pub closed spec fn two_hundredths(self) -> int {
        self.weighted as int
    }

    /// Whether the value lies within what five medians can average to. Every
    /// `Composite` that executable code holds is valid.
    pub open spec fn valid(self) -> bool {
        200 * i32::MIN <= self.two_hundredths() <= 200 * i32::MAX
    }

    /// 200 times the value of this composite.
    pub fn times_200(&self) -> (w: i64)
        ensures
            w == self.two_hundredths(),
            self.valid(),
    {
        proof {
            use_type_invariant(self);
        }
        self.weighted
    }
}

/// The doubled values of five medians.
pub open spec fn doubled_of(raw: CriterionScores<Median>) -> CriterionScores<int> {
    CriterionScores {
        problem_fit: raw.problem_fit.doubled(),
        clarity: raw.clarity.doubled(),
        style_interpretation: raw.style_interpretation.doubled(),
        originality: raw.originality.doubled(),
        overall_quality: raw.overall_quality.doubled(),
    }
}

/// The weighted average of the five medians.
pub fn weighted_average(raw: &CriterionScores<Median>) -> (composite: Composite)
    ensures
        composite.two_hundredths() == weighted_sum(doubled_of(*raw)),
        composite.valid(),
{
    let problem_fit: i64 = raw.problem_fit.twice();
    let clarity: i64 = raw.clarity.twice();
    let style: i64 = raw.style_interpretation.twice();
    let originality: i64 = raw.originality.twice();
    let overall: i64 = raw.overall_quality.twice();
    Composite {
        weighted: WEIGHT_PROBLEM_FIT * problem_fit + WEIGHT_CLARITY * clarity + WEIGHT_STYLE
            * style + WEIGHT_ORIGINALITY * originality + WEIGHT_OVERALL * overall,
    }
}

/// Scales a median from the scale of the votes to that of a leaderboard
/// criterion: 1 becomes 200 and 5 becomes 1000.
pub fn scale_to_1000(score: Median) -> (scaled: i32)
    ensures
        scaled == scaled_to_1000(score.doubled()),
{
    let doubled: i64 = score.twice();
    let wide: i64 = doubled * 100;
    if wide > i32::MAX as i64 {
        i32::MAX
    } else if wide < i32::MIN as i64 {
        i32::MIN
    } else {
        wide as i32
    }
}

/// Scales a composite from the scale of the votes to that of the final score:
/// 1 becomes 2000 and 5 becomes 10000.
pub fn scale_final(score: Composite) -> (scaled: i32)
    ensures
        scaled == scaled_final(score.two_hundredths()),
{
    let weighted: i64 = score.times_200();
    let wide: i64 = weighted * 10;
    if wide > i32::MAX as i64 {
        i32::MAX
    } else if wide < i32::MIN as i64 {
        i32::MIN
    } else {
        wide as i32
    }
}

/// The five weights add up to one, that is to a hundred hundredths.
pub proof fn lemma_weights_sum_to_one()
    ensures
        WEIGHT_PROBLEM_FIT + WEIGHT_CLARITY + WEIGHT_STYLE + WEIGHT_ORIGINALITY + WEIGHT_OVERALL
            == 100,
{
}

/// The weighted average of five equal medians is that median: where every
/// criterion has the doubled median `doubled`, the composite in two-hundredths
/// is a hundred times `doubled`.
pub proof fn lemma_composite_of_equal_medians(doubled: int)
    ensures
        weighted_sum(
            CriterionScores {
                problem_fit: doubled,
                clarity: doubled,
                style_interpretation: doubled,
                originality: doubled,
                overall_quality: doubled,
            },
        ) == 100 * doubled,
{
}

/// The weighted average lies between the least and the greatest of the five
/// medians.
pub proof fn lemma_composite_within_bounds(doubled: CriterionScores<int>, low: int, high: int)
    requires
        low <= doubled.problem_fit <= high,
        low <= doubled.clarity <= high,
        low <= doubled.style_interpretation <= high,
        low <= doubled.originality <= high,
        low <= doubled.overall_quality <= high,
    ensures
        100 * low <= weighted_sum(doubled) <= 100 * high,
{
}

/// Scaling a median loses nothing: rounding never takes effect, and unless
/// the result leaves the range of `i32` it is the median times 200.
pub proof fn lemma_scaled_median_is_exact(doubled: int)
    ensures
        toward_zero(doubled * 200, 2) * 2 == doubled * 200,
        i32::MIN <= 100 * doubled <= i32::MAX ==> scaled_to_1000(doubled) == 100 * doubled,
{
}

/// Scaling a composite loses nothing: rounding never takes effect, and unless
/// the result leaves the range of `i32` it is the composite times 2000.
pub proof fn lemma_scaled_composite_is_exact(weighted: int)
    ensures
        toward_zero(weighted * 2000, 200) * 200 == weighted * 2000,
        i32::MIN <= 10 * weighted <= i32::MAX ==> scaled_final(weighted) == 10 * weighted,
{
}

/// Rounding toward zero gives the integer next to the quotient on the side of
/// zero: it is no farther from zero than the quotient and less than one away
/// from it.
pub proof fn lemma_toward_zero_rounds(num: int, den: int)
    requires
        den > 0,
    ensures
        num >= 0 ==> toward_zero(num, den) * den <= num < (toward_zero(num, den) + 1) * den,
        num <= 0 ==> (toward_zero(num, den) - 1) * den < num <= toward_zero(num, den) * den,
        toward_zero(-num, den) == -toward_zero(num, den),
{
    vstd::arithmetic::div_mod::lemma_fundamental_div_mod(num, den);
    vstd::arithmetic::div_mod::lemma_fundamental_div_mod(-num, den);
    vstd::arithmetic::div_mod::lemma_mod_bound(num, den);
    vstd::arithmetic::div_mod::lemma_mod_bound(-num, den);
    assert((toward_zero(num, den) + 1) * den == toward_zero(num, den) * den + den)
        by (nonlinear_arith);
    assert((toward_zero(num, den) - 1) * den == toward_zero(num, den) * den - den)
        by (nonlinear_arith);
    assert(den * (num / den) == (num / den) * den) by (nonlinear_arith);
    assert(den * ((-num) / den) == ((-num) / den) * den) by (nonlinear_arith);
    assert((-((-num) / den)) * den == -(((-num) / den) * den)) by (nonlinear_arith);
}

/// The scores that `votes` give on `criterion`, in the order of the votes.
pub open spec fn column(votes: Seq<Vote>, criterion: Criterion) -> Seq<i32> {
    votes.map_values(|v: Vote| v.score_for(criterion))
}

/// The doubled median of each criterion over `votes`.
pub open spec fn medians_doubled(votes: Seq<Vote>) -> CriterionScores<int>
    recommends
        votes.len() > 0,
{
    CriterionScores {
        problem_fit: median_doubled(column(votes, Criterion::ProblemFit)),
        clarity: median_doubled(column(votes, Criterion::Clarity)),
        style_interpretation: median_doubled(column(votes, Criterion::StyleInterpretation)),
        originality: median_doubled(column(votes, Criterion::Originality)),
        overall_quality: median_doubled(column(votes, Criterion::OverallQuality)),
    }
}

/// The leaderboard row that the non-empty `votes` earn the submission
/// `submission_id`.
pub open spec fn score_of(submission_id: i32, votes: Seq<Vote>) -> Score
    recommends
        votes.len() > 0,
{
    let doubled = medians_doubled(votes);
    Score {
        submission_id,
        problem_fit_score: scaled_to_1000(doubled.problem_fit) as i32,
        visual_clarity_score: scaled_to_1000(doubled.clarity) as i32,
        style_interpretation_score: scaled_to_1000(doubled.style_interpretation) as i32,
        originality_score: scaled_to_1000(doubled.originality) as i32,
        overall_quality_score: scaled_to_1000(doubled.overall_quality) as i32,
        final_score: scaled_final(weighted_sum(doubled)) as i32,
    }
}

impl Vote {
    /// Whether every score of this vote is on the scale from 1 to 5.
    pub open spec fn on_scale(self) -> bool {
        forall|criterion: Criterion| 1 <= #[trigger] self.score_for(criterion) <= 5
    }
}

/// The row of a submission does not depend on the order of its votes.
pub proof fn lemma_score_ignores_vote_order(submission_id: i32, votes: Seq<Vote>, other: Seq<Vote>)
    requires
        same_elements(votes, other),
    ensures
        score_of(submission_id, votes) == score_of(submission_id, other),
{
    assert forall|criterion: Criterion|
        median_doubled(#[trigger] column(votes, criterion)) == median_doubled(
            column(other, criterion),
        ) by {
        lemma_map_same_elements(votes, other, |v: Vote| v.score_for(criterion));
        lemma_median_ignores_order(column(votes, criterion), column(other, criterion));
    }
    assert(medians_doubled(votes) == medians_doubled(other));
}

/// Votes on the scale from 1 to 5 give a row on the scales of the
/// leaderboard, and nothing is lost to rounding or to the range of `i32`:
/// each criterion is its median times 200, from 200 to 1000, and the final
/// score is the weighted average of the medians times 2000, from 2000 to
/// 10000.
pub proof fn lemma_score_stays_on_scale(submission_id: i32, votes: Seq<Vote>)
    requires
        votes.len() > 0,
        forall|i: int| 0 <= i < votes.len() ==> (#[trigger] votes[i]).on_scale(),
    ensures
        ({
            let row = score_of(submission_id, votes);
            let doubled = medians_doubled(votes);
            &&& row.problem_fit_score == 100 * doubled.problem_fit
            &&& row.visual_clarity_score == 100 * doubled.clarity
            &&& row.style_interpretation_score == 100 * doubled.style_interpretation
            &&& row.originality_score == 100 * doubled.originality
            &&& row.overall_quality_score == 100 * doubled.overall_quality
            &&& row.final_score == 10 * weighted_sum(doubled)
            &&& 200 <= row.problem_fit_score <= 1000
            &&& 200 <= row.visual_clarity_score <= 1000
            &&& 200 <= row.style_interpretation_score <= 1000
            &&& 200 <= row.originality_score <= 1000
            &&& 200 <= row.overall_quality_score <= 1000
            &&& 2000 <= row.final_score <= 10000
        }),
{
    assert forall|criterion: Criterion|
        2 <= median_doubled(#[trigger] column(votes, criterion)) <= 10 by {
        let scores = column(votes, criterion);
        assert forall|i: int| 0 <= i < scores.len() implies 1 <= #[trigger] scores[i] <= 5 by {
            assert(votes[i].on_scale());
            assert(scores[i] == votes[i].score_for(criterion));
        }
        lemma_median_within_bounds(scores, 1, 5);
    }
    let doubled = medians_doubled(votes);
    assert(2 <= median_doubled(column(votes, Criterion::ProblemFit)) <= 10);
    assert(2 <= median_doubled(column(votes, Criterion::Clarity)) <= 10);
    assert(2 <= median_doubled(column(votes, Criterion::StyleInterpretation)) <= 10);
    assert(2 <= median_doubled(column(votes, Criterion::Originality)) <= 10);
    assert(2 <= median_doubled(column(votes, Criterion::OverallQuality)) <= 10);
    lemma_composite_within_bounds(doubled, 2, 10);
}

/// Gathers the scores of `votes` criterion by criterion.
pub fn collect_scores(votes: &Vec<Vote>) -> (scores: CriterionScores<Vec<i32>>)
    ensures
        scores.problem_fit@ == column(votes@, Criterion::ProblemFit),
        scores.clarity@ == column(votes@, Criterion::Clarity),
        scores.style_interpretation@ == column(votes@, Criterion::StyleInterpretation),
        scores.originality@ == column(votes@, Criterion::Originality),
        scores.overall_quality@ == column(votes@, Criterion::OverallQuality),
{
    let mut scores = CriterionScores::<Vec<i32>> {
        problem_fit: Vec::new(),
        clarity: Vec::new(),
        style_interpretation: Vec::new(),
        originality: Vec::new(),
        overall_quality: Vec::new(),
    };
    let mut i: usize = 0;
    while i < votes.len()
        invariant
            i <= votes@.len(),
            scores.problem_fit@ == column(votes@.take(i as int), Criterion::ProblemFit),
            scores.clarity@ == column(votes@.take(i as int), Criterion::Clarity),
            scores.style_interpretation@ == column(
                votes@.take(i as int),
                Criterion::StyleInterpretation,
            ),
            scores.originality@ == column(votes@.take(i as int), Criterion::Originality),
            scores.overall_quality@ == column(votes@.take(i as int), Criterion::OverallQuality),
        decreases votes@.len() - i,
    {
        let vote = &votes[i];
        scores.problem_fit.push(vote.problem_fit_score);
        scores.clarity.push(vote.clarity_score);
        scores.style_interpretation.push(vote.style_interpretation_score);
        scores.originality.push(vote.originality_score);
        scores.overall_quality.push(vote.overall_quality_score);
        proof {
            let before = votes@.take(i as int);
            let after = votes@.take(i + 1);
            assert(after =~= before.push(votes@[i as int]));
            assert forall|c: Criterion| #[trigger]
                column(after, c) == column(before, c).push(votes@[i as int].score_for(c)) by {
                assert(column(after, c) =~= column(before, c).push(votes@[i as int].score_for(c)));
            }
        }
        i += 1;
    }
    proof {
        assert(votes@.take(votes@.len() as int) =~= votes@);
    }
    scores
}

/// Twice the median of `s`, or zero when `s` is empty.
pub open spec fn median_or_zero(s: Seq<i32>) -> int {
    if s.len() == 0 {
        0
    } else {
        median_doubled(s)
    }
}

/// The median of each criterion over the gathered scores, which are sorted in
/// place. A criterion without scores counts as zero.
pub fn raw_medians(scores: &mut CriterionScores<Vec<i32>>) -> (raw: CriterionScores<Median>)
    ensures
        raw.problem_fit.doubled() == median_or_zero(old(scores).problem_fit@),
        raw.clarity.doubled() == median_or_zero(old(scores).clarity@),
        raw.style_interpretation.doubled() == median_or_zero(old(scores).style_interpretation@),
        raw.originality.doubled() == median_or_zero(old(scores).originality@),
        raw.overall_quality.doubled() == median_or_zero(old(scores).overall_quality@),
        final(scores).problem_fit@ == sorted(old(scores).problem_fit@),
        final(scores).clarity@ == sorted(old(scores).clarity@),
        final(scores).style_interpretation@ == sorted(old(scores).style_interpretation@),
        final(scores).originality@ == sorted(old(scores).originality@),
        final(scores).overall_quality@ == sorted(old(scores).overall_quality@),
{
    let problem_fit = match median(&mut scores.problem_fit) {
        Some(m) => m,
        None => Median::of_value(0),
    };
    let clarity = match median(&mut scores.clarity) {
        Some(m) => m,
        None => Median::of_value(0),
    };
    let style_interpretation = match median(&mut scores.style_interpretation) {
        Some(m) => m,
        None => Median::of_value(0),
    };
    let originality = match median(&mut scores.originality) {
        Some(m) => m,
        None => Median::of_value(0),
    };
    let overall_quality = match median(&mut scores.overall_quality) {
        Some(m) => m,
        None => Median::of_value(0),
    };
    CriterionScores { problem_fit, clarity, style_interpretation, originality, overall_quality }
}

/// The leaderboard row of the submission `submission_id` from the votes cast
/// on it; a submission without votes gets none.
pub fn score_submission(submission_id: i32, votes: &Vec<Vote>) -> (row: Option<Score>)
    ensures
        row == if votes@.len() == 0 {
            None
        } else {
            Some(score_of(submission_id, votes@))
        },
{
    if votes.len() == 0 {
        return None;
    }
    let mut aggregate_scores = collect_scores(votes);
    let raw_scores = raw_medians(&mut aggregate_scores);
    let weighted = weighted_average(&raw_scores);
    Some(
        Score {
            submission_id,
            problem_fit_score: scale_to_1000(raw_scores.problem_fit),
            visual_clarity_score: scale_to_1000(raw_scores.clarity),
            style_interpretation_score: scale_to_1000(raw_scores.style_interpretation),
            originality_score: scale_to_1000(raw_scores.originality),
            overall_quality_score: scale_to_1000(raw_scores.overall_quality),
            final_score: scale_final(weighted),
        },
    )
}

} // verus!
