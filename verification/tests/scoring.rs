use contest_ranking::median::Median;
use contest_ranking::scoring::{
    collect_scores, raw_medians, scale_final, scale_to_1000, score_submission, weighted_average,
    CriterionScores, Score, Vote, WEIGHT_CLARITY, WEIGHT_ORIGINALITY, WEIGHT_OVERALL,
    WEIGHT_PROBLEM_FIT, WEIGHT_STYLE,
};

fn vote(submission_id: i32, user_id: i32, scores: [i32; 5]) -> Vote {
    Vote {
        submission_id,
        user_id,
        problem_fit_score: scores[0],
        clarity_score: scores[1],
        style_interpretation_score: scores[2],
        originality_score: scores[3],
        overall_quality_score: scores[4],
    }
}

fn all_equal(value: i32) -> CriterionScores<Median> {
    CriterionScores {
        problem_fit: Median::of_value(value),
        clarity: Median::of_value(value),
        style_interpretation: Median::of_value(value),
        originality: Median::of_value(value),
        overall_quality: Median::of_value(value),
    }
}

#[test]
fn scale_to_1000_of_whole_medians() {
    assert_eq!(scale_to_1000(Median::of_value(5)), 1000);
    assert_eq!(scale_to_1000(Median::of_value(1)), 200);
    assert_eq!(scale_to_1000(Median::of_value(3)), 600);
    assert_eq!(scale_to_1000(Median::of_value(0)), 0);
}

#[test]
fn scale_to_1000_of_half_medians() {
    assert_eq!(scale_to_1000(Median::of_pair(3, 4)), 700);
    assert_eq!(scale_to_1000(Median::of_pair(1, 2)), 300);
    assert_eq!(scale_to_1000(Median::of_pair(-1, -2)), -300);
}

#[test]
fn scale_to_1000_saturates() {
    assert_eq!(scale_to_1000(Median::of_value(i32::MAX)), i32::MAX);
    assert_eq!(scale_to_1000(Median::of_value(i32::MIN)), i32::MIN);
    assert_eq!(scale_to_1000(Median::of_value(10_737_418)), 2_147_483_600);
    assert_eq!(scale_to_1000(Median::of_value(10_737_419)), i32::MAX);
    assert_eq!(scale_to_1000(Median::of_value(-10_737_418)), -2_147_483_600);
    assert_eq!(scale_to_1000(Median::of_value(-10_737_419)), i32::MIN);
}

#[test]
fn weights_sum_to_one() {
    assert_eq!(
        WEIGHT_PROBLEM_FIT + WEIGHT_CLARITY + WEIGHT_STYLE + WEIGHT_ORIGINALITY + WEIGHT_OVERALL,
        100
    );
    assert_eq!(WEIGHT_PROBLEM_FIT, 25);
    assert_eq!(WEIGHT_CLARITY, 20);
    assert_eq!(WEIGHT_STYLE, 20);
    assert_eq!(WEIGHT_ORIGINALITY, 15);
    assert_eq!(WEIGHT_OVERALL, 20);
}

#[test]
fn composite_of_all_fives_is_five() {
    let composite = weighted_average(&all_equal(5));
    assert_eq!(composite.times_200(), 1000);
    assert_eq!(composite.times_200() as f64 / 200.0, 5.0);
    assert_eq!(scale_final(composite), 10000);
}

#[test]
fn composite_of_all_ones_is_one() {
    let composite = weighted_average(&all_equal(1));
    assert_eq!(composite.times_200() as f64 / 200.0, 1.0);
    assert_eq!(scale_final(composite), 2000);
}

#[test]
fn composite_weighs_each_criterion() {
    let raw = CriterionScores {
        problem_fit: Median::of_value(3),
        clarity: Median::of_value(5),
        style_interpretation: Median::of_value(1),
        originality: Median::of_value(3),
        overall_quality: Median::of_value(4),
    };
    let composite = weighted_average(&raw);
    assert_eq!(composite.times_200(), 640);
    assert_eq!(composite.times_200() as f64 / 200.0, 3.2);
    assert_eq!(scale_final(composite), 6400);
}

#[test]
fn composite_tells_the_criteria_apart() {
    let mut raw = all_equal(0);
    raw.problem_fit = Median::of_value(1);
    assert_eq!(scale_final(weighted_average(&raw)), 500);
    let mut raw = all_equal(0);
    raw.clarity = Median::of_value(1);
    assert_eq!(scale_final(weighted_average(&raw)), 400);
    let mut raw = all_equal(0);
    raw.style_interpretation = Median::of_value(1);
    assert_eq!(scale_final(weighted_average(&raw)), 400);
    let mut raw = all_equal(0);
    raw.originality = Median::of_value(1);
    assert_eq!(scale_final(weighted_average(&raw)), 300);
    let mut raw = all_equal(0);
    raw.overall_quality = Median::of_value(1);
    assert_eq!(scale_final(weighted_average(&raw)), 400);
}

#[test]
fn scale_final_saturates() {
    assert_eq!(scale_final(weighted_average(&all_equal(i32::MAX))), i32::MAX);
    assert_eq!(scale_final(weighted_average(&all_equal(i32::MIN))), i32::MIN);
}

#[test]
fn end_to_end_scenario() {
    let votes = vec![
        vote(7, 1, [2, 5, 1, 3, 4]),
        vote(7, 2, [3, 5, 1, 3, 4]),
        vote(7, 3, [4, 5, 1, 3, 4]),
    ];
    let row = score_submission(7, &votes).unwrap();
    assert_eq!(
        row,
        Score {
            submission_id: 7,
            problem_fit_score: 600,
            visual_clarity_score: 1000,
            style_interpretation_score: 200,
            originality_score: 600,
            overall_quality_score: 800,
            final_score: 6400,
        }
    );
}

#[test]
fn all_five_votes_give_the_top_score() {
    let votes = vec![vote(1, 1, [5; 5]), vote(1, 2, [5; 5])];
    let row = score_submission(1, &votes).unwrap();
    assert_eq!(row.problem_fit_score, 1000);
    assert_eq!(row.visual_clarity_score, 1000);
    assert_eq!(row.style_interpretation_score, 1000);
    assert_eq!(row.originality_score, 1000);
    assert_eq!(row.overall_quality_score, 1000);
    assert_eq!(row.final_score, 10000);
}

#[test]
fn no_votes_give_no_row() {
    let votes: Vec<Vote> = Vec::new();
    assert_eq!(score_submission(3, &votes), None);
}

#[test]
fn even_number_of_votes_gives_half_steps() {
    let votes = vec![vote(2, 1, [1, 2, 3, 4, 5]), vote(2, 2, [2, 3, 4, 5, 5])];
    let row = score_submission(2, &votes).unwrap();
    assert_eq!(row.problem_fit_score, 300);
    assert_eq!(row.visual_clarity_score, 500);
    assert_eq!(row.style_interpretation_score, 700);
    assert_eq!(row.originality_score, 900);
    assert_eq!(row.overall_quality_score, 1000);
    // 1.5 * 0.25 + 2.5 * 0.20 + 3.5 * 0.20 + 4.5 * 0.15 + 5 * 0.20 = 3.25
    assert_eq!(row.final_score, 6500);
}

#[test]
fn row_does_not_depend_on_vote_order() {
    let a = vote(4, 1, [1, 5, 2, 4, 3]);
    let b = vote(4, 2, [3, 3, 3, 3, 3]);
    let c = vote(4, 3, [5, 1, 4, 2, 3]);
    let d = vote(4, 4, [4, 4, 2, 2, 1]);
    let first = score_submission(4, &vec![a, b, c, d]);
    let second = score_submission(4, &vec![d, c, b, a]);
    let third = score_submission(4, &vec![b, d, a, c]);
    assert_eq!(first, second);
    assert_eq!(first, third);
}

#[test]
fn collect_scores_gathers_by_criterion() {
    let votes = vec![vote(1, 1, [1, 2, 3, 4, 5]), vote(1, 2, [5, 4, 3, 2, 1])];
    let scores = collect_scores(&votes);
    assert_eq!(scores.problem_fit, vec![1, 5]);
    assert_eq!(scores.clarity, vec![2, 4]);
    assert_eq!(scores.style_interpretation, vec![3, 3]);
    assert_eq!(scores.originality, vec![4, 2]);
    assert_eq!(scores.overall_quality, vec![5, 1]);
}

#[test]
fn raw_medians_count_a_missing_criterion_as_zero() {
    let mut scores = CriterionScores {
        problem_fit: vec![4, 2, 3],
        clarity: Vec::new(),
        style_interpretation: vec![5, 4],
        originality: vec![1],
        overall_quality: vec![2, 2],
    };
    let raw = raw_medians(&mut scores);
    assert_eq!(raw.problem_fit.twice(), 6);
    assert_eq!(raw.clarity.twice(), 0);
    assert_eq!(raw.style_interpretation.twice(), 9);
    assert_eq!(raw.originality.twice(), 2);
    assert_eq!(raw.overall_quality.twice(), 4);
    assert_eq!(scores.problem_fit, vec![2, 3, 4]);
    assert_eq!(scores.style_interpretation, vec![4, 5]);
}

#[test]
fn vote_is_cast_by_its_user_only() {
    let v = vote(1, 42, [3; 5]);
    assert!(v.cast_by(42));
    assert!(!v.cast_by(41));
    assert!(!v.cast_by(1));
}
