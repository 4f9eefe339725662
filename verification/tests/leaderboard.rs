use contest_ranking::leaderboard::{select_votes, GenLeaderboard, Submission};
use contest_ranking::scoring::{Score, Vote};

fn vote(submission_id: i32, user_id: i32, scores: [i32; 5]) -> Vote {
    Vote {
        submission_id,
        user_id,
        problem_fit_score: scores[0],
        clarity_score: scores[1],
        style_interpretation_score: scores[2],
        originality_score: scores[3],
        overall_quality_score: scores[4],
    }
}

fn contest() -> (Vec<Submission>, Vec<Vote>) {
    let submissions = vec![Submission { id: 10 }, Submission { id: 20 }, Submission { id: 30 }];
    let votes = vec![
        vote(30, 1, [5, 5, 5, 5, 5]),
        vote(10, 1, [2, 5, 1, 3, 4]),
        vote(10, 2, [3, 5, 1, 3, 4]),
        vote(30, 2, [1, 1, 1, 1, 1]),
        vote(10, 3, [4, 5, 1, 3, 4]),
    ];
    (submissions, votes)
}

fn pairs(scores: &[Score]) -> Vec<(i32, i32)> {
    let mut pairs: Vec<(i32, i32)> = scores.iter().map(|s| (s.submission_id, s.final_score)).collect();
    pairs.sort();
    pairs
}

#[test]
fn select_votes_keeps_those_of_the_submission_in_order() {
    let (_, votes) = contest();
    let cast = select_votes(&votes, 10);
    assert_eq!(cast, vec![votes[1], votes[2], votes[4]]);
    assert_eq!(select_votes(&votes, 20), Vec::<Vote>::new());
}

#[test]
fn leaderboard_has_a_row_for_each_submission_with_votes() {
    let (submissions, votes) = contest();
    let scores = GenLeaderboard.run(&submissions, &votes);
    assert_eq!(
        scores,
        vec![
            Score {
                submission_id: 10,
                problem_fit_score: 600,
                visual_clarity_score: 1000,
                style_interpretation_score: 200,
                originality_score: 600,
                overall_quality_score: 800,
                final_score: 6400,
            },
            Score {
                submission_id: 30,
                problem_fit_score: 600,
                visual_clarity_score: 600,
                style_interpretation_score: 600,
                originality_score: 600,
                overall_quality_score: 600,
                final_score: 6000,
            },
        ]
    );
}

#[test]
fn submission_without_votes_has_no_row() {
    let (submissions, votes) = contest();
    let scores = GenLeaderboard.run(&submissions, &votes);
    assert!(scores.iter().all(|s| s.submission_id != 20));
    assert_eq!(scores.len(), 2);
    assert!(scores.len() <= submissions.len());
}

#[test]
fn no_votes_at_all_give_an_empty_leaderboard() {
    let (submissions, _) = contest();
    assert!(GenLeaderboard.run(&submissions, &Vec::new()).is_empty());
}

#[test]
fn no_submissions_give_an_empty_leaderboard() {
    let (_, votes) = contest();
    assert!(GenLeaderboard.run(&Vec::new(), &votes).is_empty());
}

#[test]
fn votes_on_unknown_submissions_are_left_out() {
    let submissions = vec![Submission { id: 1 }];
    let votes = vec![vote(2, 1, [5; 5]), vote(1, 1, [1; 5])];
    let scores = GenLeaderboard.run(&submissions, &votes);
    assert_eq!(scores.len(), 1);
    assert_eq!(scores[0].submission_id, 1);
    assert_eq!(scores[0].final_score, 2000);
}

#[test]
fn recompute_with_unchanged_votes_is_identical() {
    let (submissions, votes) = contest();
    let first = GenLeaderboard.run(&submissions, &votes);
    let second = GenLeaderboard.run(&submissions, &votes);
    assert_eq!(first, second);
}

#[test]
fn recompute_does_not_depend_on_the_order_of_the_data() {
    let (submissions, votes) = contest();
    let first = GenLeaderboard.run(&submissions, &votes);
    let mut votes_again = votes.clone();
    votes_again.reverse();
    assert_eq!(GenLeaderboard.run(&submissions, &votes_again), first);
    let mut submissions_again = submissions.clone();
    submissions_again.reverse();
    let second = GenLeaderboard.run(&submissions_again, &votes_again);
    assert_eq!(pairs(&second), pairs(&first));
    assert_eq!(pairs(&first), vec![(10, 6400), (30, 6000)]);
}
