//! Ranking of contest submissions: exact median aggregation of the judges'
//! votes into a leaderboard, and the controller that moves a contest through
//! its phases exactly once per transition.

pub mod median;
pub mod permutation;
pub mod scoring;
pub mod leaderboard;
pub mod clock;
pub mod controller;
