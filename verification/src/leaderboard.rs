//! The leaderboard of a whole contest: one row for each submission that
//! received a vote, computed afresh from the votes every time.

use vstd::prelude::*;
use crate::permutation::{
    lemma_filter_same_elements,
    lemma_map_same_elements,
    lemma_same_elements_same_length,
    same_elements,
};
use crate::scoring::{lemma_score_ignores_vote_order, score_of, score_submission, Score, Vote};

verus! {

/// An entry that competes for a rank.
#[derive(Clone, Copy, Debug, PartialEq, Eq, Structural)]
pub struct Submission {
    pub id: i32,
}

/// Whether `vote` was cast on the submission `submission_id`.
pub open spec fn cast_on(submission_id: i32) -> spec_fn(Vote) -> bool {
    |vote: Vote| vote.submission_id == submission_id
}

/// The votes among `votes` that were cast on the submission `submission_id`,
/// in their order.
pub open spec fn votes_for(votes: Seq<Vote>, submission_id: i32) -> Seq<Vote> {
    votes.filter(cast_on(submission_id))
}

/// Whether `submission` has a vote among `votes`.
pub open spec fn has_votes(votes: Seq<Vote>) -> spec_fn(Submission) -> bool {
    |submission: Submission| votes_for(votes, submission.id).len() > 0
}

/// The row that `votes` earn `submission`.
pub open spec fn row_of(votes: Seq<Vote>) -> spec_fn(Submission) -> Score {
    |submission: Submission| score_of(submission.id, votes_for(votes, submission.id))
}

/// The leaderboard of `submissions` under `votes`: in the order of the
/// submissions, the row of each one that has a vote.
pub open spec fn leaderboard_of(submissions: Seq<Submission>, votes: Seq<Vote>) -> Seq<Score> {
    submissions.filter(has_votes(votes)).map_values(row_of(votes))
}

/// How the leaderboard grows with one more submission: by its row if it has a
/// vote, and not at all if it has none.
pub proof fn lemma_leaderboard_with_one_more(
    submissions: Seq<Submission>,
    next: Submission,
    votes: Seq<Vote>,
)
    ensures
        leaderboard_of(submissions.push(next), votes) == if votes_for(votes, next.id).len() == 0 {
            leaderboard_of(submissions, votes)
        } else {
            leaderboard_of(submissions, votes).push(score_of(next.id, votes_for(votes, next.id)))
        },
{
    submissions.lemma_filter_push(next, has_votes(votes));
    let voted = submissions.filter(has_votes(votes));
    assert(voted.push(next).map_values(row_of(votes)) =~= voted.map_values(row_of(votes)).push(
        row_of(votes)(next),
    ));
}

/// The leaderboard never has more rows than there are submissions with a
/// vote: it has exactly one for each of them.
pub proof fn lemma_one_row_per_voted_submission(submissions: Seq<Submission>, votes: Seq<Vote>)
    ensures
        leaderboard_of(submissions, votes).len() == submissions.filter(has_votes(votes)).len(),
        leaderboard_of(submissions, votes).len() <= submissions.len(),
{
    submissions.lemma_filter_len(has_votes(votes));
}

/// A submission without votes has no row: every row of the leaderboard
/// belongs to one of the submissions, and that submission has a vote.
pub proof fn lemma_rows_belong_to_voted_submissions(
    submissions: Seq<Submission>,
    votes: Seq<Vote>,
    i: int,
)
    requires
        0 <= i < leaderboard_of(submissions, votes).len(),
    ensures
        votes_for(votes, leaderboard_of(submissions, votes)[i].submission_id).len() > 0,
        submissions.contains(
            Submission { id: leaderboard_of(submissions, votes)[i].submission_id },
        ),
{
    lemma_one_row_per_voted_submission(submissions, votes);
    let voted = submissions.filter(has_votes(votes));
    submissions.lemma_filter_pred(has_votes(votes), i);
    assert(has_votes(votes)(voted[i]));
    assert(voted.contains(voted[i]));
    submissions.lemma_filter_contains_rev(has_votes(votes), voted[i]);
    assert(voted[i] == Submission { id: voted[i].id });
}

/// The leaderboard does not depend on the order of the votes: votes that
/// are the same, each as often, give the same rows in the same order.
pub proof fn lemma_leaderboard_ignores_vote_order(
    submissions: Seq<Submission>,
    votes: Seq<Vote>,
    other: Seq<Vote>,
)
    requires
        same_elements(votes, other),
    ensures
        leaderboard_of(submissions, votes) == leaderboard_of(submissions, other),
{
    assert forall|submission: Submission| #[trigger]
        has_votes(votes)(submission) == has_votes(other)(submission) by {
        let id = submission.id;
        lemma_filter_same_elements(votes, other, cast_on(id));
        lemma_same_elements_same_length(votes_for(votes, id), votes_for(other, id));
    }
    assert forall|submission: Submission| #[trigger]
        row_of(votes)(submission) == row_of(other)(submission) by {
        let id = submission.id;
        lemma_filter_same_elements(votes, other, cast_on(id));
        lemma_score_ignores_vote_order(id, votes_for(votes, id), votes_for(other, id));
    }
    assert(has_votes(votes) =~= has_votes(other));
    assert(row_of(votes) =~= row_of(other));
}

/// Recomputing from unchanged data gives the same leaderboard, in whatever
/// order the data comes: the same submissions and the same votes, each as
/// often, give the same rows, each as often. Only the order of the rows
/// follows that of the submissions.
pub proof fn lemma_recompute_gives_same_rows(
    submissions: Seq<Submission>,
    votes: Seq<Vote>,
    submissions_again: Seq<Submission>,
    votes_again: Seq<Vote>,
)
    requires
        same_elements(submissions, submissions_again),
        same_elements(votes, votes_again),
    ensures
        same_elements(
            leaderboard_of(submissions, votes),
            leaderboard_of(submissions_again, votes_again),
        ),
        submissions == submissions_again ==> leaderboard_of(submissions, votes) == leaderboard_of(
            submissions_again,
            votes_again,
        ),
{
    lemma_leaderboard_ignores_vote_order(submissions_again, votes, votes_again);
    lemma_filter_same_elements(submissions, submissions_again, has_votes(votes));
    lemma_map_same_elements(
        submissions.filter(has_votes(votes)),
        submissions_again.filter(has_votes(votes)),
        row_of(votes),
    );
}

/// The votes among `votes` that were cast on the submission `submission_id`.
pub fn select_votes(votes: &Vec<Vote>, submission_id: i32) -> (cast: Vec<Vote>)
    ensures
        cast@ == votes_for(votes@, submission_id),
{
    let mut cast: Vec<Vote> = Vec::new();
    let mut i: usize = 0;
    proof {
        assert(votes@.take(0).filter(cast_on(submission_id)) =~= Seq::empty()) by {
            reveal(Seq::filter);
        }
    }
    while i < votes.len()
        invariant
            i <= votes@.len(),
            cast@ == votes_for(votes@.take(i as int), submission_id),
        decreases votes@.len() - i,
    {
        proof {
            votes@.take(i as int).lemma_filter_push(votes@[i as int], cast_on(submission_id));
            assert(votes@.take(i + 1) =~= votes@.take(i as int).push(votes@[i as int]));
        }
        if votes[i].submission_id == submission_id {
            cast.push(votes[i]);
        }
        i += 1;
    }
    proof {
        assert(votes@.take(votes@.len() as int) =~= votes@);
    }
    cast
}

/// The task that regenerates the leaderboard.
pub struct GenLeaderboard;

impl GenLeaderboard {
    /// Computes the whole leaderboard from all submissions and all votes. It
    /// replaces whatever leaderboard was stored before: no earlier row enters
    /// into it.
    pub fn run(&self, submissions: &Vec<Submission>, votes: &Vec<Vote>) -> (scores: Vec<Score>)
        ensures
            scores@ == leaderboard_of(submissions@, votes@),
    {
        let mut scores: Vec<Score> = Vec::new();
        let mut i: usize = 0;
        proof {
            assert(leaderboard_of(submissions@.take(0), votes@) =~= Seq::empty()) by {
                reveal(Seq::filter);
            }
        }
        while i < submissions.len()
            invariant
                i <= submissions@.len(),
                scores@ == leaderboard_of(submissions@.take(i as int), votes@),
            decreases submissions@.len() - i,
        {
            let submission = &submissions[i];
            let cast = select_votes(votes, submission.id);
            proof {
                assert(submissions@.take(i + 1) =~= submissions@.take(i as int).push(*submission));
                lemma_leaderboard_with_one_more(submissions@.take(i as int), *submission, votes@);
            }
            match score_submission(submission.id, &cast) {
                Some(score) => {
                    scores.push(score);
                },
                None => {},
            }
            i += 1;
        }
        proof {
            assert(submissions@.take(submissions@.len() as int) =~= submissions@);
        }
        scores
    }
}

} // verus!
