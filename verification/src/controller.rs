//! The phase controller: on every tick of a timer it decides which of the two
//! transitions of a contest are due, and sees each of them through once.
//!
//! A tick is a small state machine. The caller loads the stored
//! configuration, begins the tick, then performs the action of each state and
//! reports whether it succeeded, until the tick has finished.

use vstd::prelude::*;
use crate::clock::{current_time, Timestamp};

verus! {

/// The configuration of a contest: the ends of its two windows and the flags
/// that record which transitions have been made.
#[derive(Clone, Copy, Debug, PartialEq, Eq, Structural)]
pub struct ContestConfig {
    pub submission_end: Option<Timestamp>,
    pub voting_end: Option<Timestamp>,
    pub assigned: bool,
    pub leaderboard_generated: bool,
    pub show_leaderboard: bool,
}

/// Whether a window with the end `end` has closed at `now`: it has an end,
/// and `now` is strictly later.
pub open spec fn window_closed(end: Option<Timestamp>, now: Timestamp) -> bool {
    match end {
        Some(end) => now.later_than(end),
        None => false,
    }
}

impl ContestConfig {
    /// Whether the submissions are to be assigned to voters at `now`.
    pub open spec fn assignment_due(self, now: Timestamp) -> bool {
        window_closed(self.submission_end, now) && !self.assigned
    }

    /// Whether the leaderboard is to be generated at `now`.
    pub open spec fn leaderboard_due(self, now: Timestamp) -> bool {
        window_closed(self.voting_end, now) && !self.leaderboard_generated
    }

    /// This configuration with `assigned` set.
    pub open spec fn marked_assigned(self) -> ContestConfig {
        ContestConfig { assigned: true, ..self }
    }

    /// This configuration with `leaderboard_generated` set.
    pub open spec fn marked_generated(self) -> ContestConfig {
        ContestConfig { leaderboard_generated: true, ..self }
    }
}

/// How a tick ended.
#[derive(Clone, Copy, Debug, PartialEq, Eq, Structural)]
pub enum TickOutcome {
    /// No configuration is stored yet: nothing was done.
    NotConfigured,
    /// Every transition that was due has been made and recorded.
    Completed,
    /// The leaderboard could not be regenerated; the tick was given up with
    /// the transition left to be made again.
    LeaderboardFailed,
    /// The configuration could not be stored; the tick was given up.
    SaveFailed,
}

/// What the caller is to do next.
#[derive(Clone, Copy, Debug, PartialEq, Eq, Structural)]
pub enum TickAction {
    /// Run the assignment generator.
    RunAssignment,
    /// Regenerate the leaderboard.
    RunLeaderboard,
    /// Store this configuration.
    SaveConfig(ContestConfig),
    /// Stop: the tick has ended.
    Finish(TickOutcome),
}

/// Where a tick stands: the action that is under way, or how it ended.
#[derive(Clone, Copy, Debug, PartialEq, Eq, Structural)]
pub enum TickState {
    /// The assignment generator is running.
    Assigning { config: ContestConfig, now: Timestamp },
    /// `config`, in which `assigned` is set, is being stored.
    SavingAssigned { config: ContestConfig, now: Timestamp },
    /// The leaderboard is being regenerated.
    Generating { config: ContestConfig },
    /// `config`, in which `leaderboard_generated` is set, is being stored.
    SavingGenerated { config: ContestConfig },
    /// The tick has ended.
    Finished(TickOutcome),
}

/// The state in which the voting-close transition is taken up.
pub open spec fn voting_phase(config: ContestConfig, now: Timestamp) -> TickState {
    if config.leaderboard_due(now) {
        TickState::Generating { config }
    } else {
        TickState::Finished(TickOutcome::Completed)
    }
}

/// The state in which a tick begins at `now`, given what is stored.
pub open spec fn first_state(loaded: Option<ContestConfig>, now: Timestamp) -> TickState {
    match loaded {
        None => TickState::Finished(TickOutcome::NotConfigured),
        Some(config) => if config.assignment_due(now) {
            TickState::Assigning { config, now }
        } else {
            voting_phase(config, now)
        },
    }
}

/// The state that follows `state` once its action has returned. What the
/// assignment generator returns is not looked at: the assignment is recorded
/// either way. A leaderboard that cannot be regenerated ends the tick and is
/// not recorded, and so does a configuration that cannot be stored.
pub open spec fn next_state(state: TickState, succeeded: bool) -> TickState {
    match state {
        TickState::Assigning { config, now } => TickState::SavingAssigned {
            config: config.marked_assigned(),
            now,
        },
        TickState::SavingAssigned { config, now } => if succeeded {
            voting_phase(config, now)
        } else {
            TickState::Finished(TickOutcome::SaveFailed)
        },
        TickState::Generating { config } => if succeeded {
            TickState::SavingGenerated { config: config.marked_generated() }
        } else {
            TickState::Finished(TickOutcome::LeaderboardFailed)
        },
        TickState::SavingGenerated { config } => if succeeded {
            TickState::Finished(TickOutcome::Completed)
        } else {
            TickState::Finished(TickOutcome::SaveFailed)
        },
        TickState::Finished(outcome) => TickState::Finished(outcome),
    }
}

/// The action that the caller performs in `state`.
pub open spec fn action_of(state: TickState) -> TickAction {
    match state {
        TickState::Assigning { .. } => TickAction::RunAssignment,
        TickState::SavingAssigned { config, .. } => TickAction::SaveConfig(config),
        TickState::Generating { .. } => TickAction::RunLeaderboard,
        TickState::SavingGenerated { config } => TickAction::SaveConfig(config),
        TickState::Finished(outcome) => TickAction::Finish(outcome),
    }
}

/// The state of a tick that began in `start` once its actions have returned
/// `outcomes`, one after the other.
pub open spec fn state_after(start: TickState, outcomes: Seq<bool>) -> TickState
    decreases outcomes.len(),
{
    if outcomes.len() == 0 {
        start
    } else {
        next_state(state_after(start, outcomes.drop_last()), outcomes.last())
    }
}

/// What is stored once the actions of a tick that began in `start` have
/// returned `outcomes`, if `stored` was stored before and nothing but the tick
/// writes: the configuration of the last save that succeeded.
pub open spec fn stored_after(
    stored: Option<ContestConfig>,
    start: TickState,
    outcomes: Seq<bool>,
) -> Option<ContestConfig>
    decreases outcomes.len(),
{
    if outcomes.len() == 0 {
        stored
    } else {
        let before = stored_after(stored, start, outcomes.drop_last());
        match action_of(state_after(start, outcomes.drop_last())) {
            TickAction::SaveConfig(config) => if outcomes.last() {
                Some(config)
            } else {
                before
            },
            _ => before,
        }
    }
}

/// One tick as it went: the time at which it began and what its actions
/// returned, as far as it got.
pub struct Tick {
    pub now: Timestamp,
    pub outcomes: Seq<bool>,
}

/// What is stored after `ticks`, one after the other, each of which began
/// with what the one before had left.
pub open spec fn stored_after_ticks(stored: Option<ContestConfig>, ticks: Seq<Tick>) -> Option<
    ContestConfig,
>
    decreases ticks.len(),
{
    if ticks.len() == 0 {
        stored
    } else {
        let before = stored_after_ticks(stored, ticks.drop_last());
        stored_after(before, first_state(before, ticks.last().now), ticks.last().outcomes)
    }
}

/// Whether `later` is `earlier` with nothing changed but flags that were
/// raised.
pub open spec fn only_raised(earlier: ContestConfig, later: ContestConfig) -> bool {
    &&& later.submission_end == earlier.submission_end
    &&& later.voting_end == earlier.voting_end
    &&& later.show_leaderboard == earlier.show_leaderboard
    &&& earlier.assigned ==> later.assigned
    &&& earlier.leaderboard_generated ==> later.leaderboard_generated
}

/// Whether `state` can occur in a tick that began at `at` with `loaded`: the
/// configuration it holds is `loaded` with flags raised, an action is under
/// way only while its transition is due, and a flag is stored only if it was
/// not set before.
pub open spec fn follows_from(state: TickState, loaded: ContestConfig, at: Timestamp) -> bool {
    match state {
        TickState::Assigning { config, now } => {
            &&& now == at
            &&& only_raised(loaded, config)
            &&& config.assignment_due(now)
        },
        TickState::SavingAssigned { config, now } => {
            &&& now == at
            &&& only_raised(loaded, config)
            &&& config.assigned
            &&& !loaded.assigned
        },
        TickState::Generating { config } => {
            &&& only_raised(loaded, config)
            &&& config.leaderboard_due(at)
            &&& !config.assignment_due(at)
        },
        TickState::SavingGenerated { config } => {
            &&& only_raised(loaded, config)
            &&& config.leaderboard_generated
            &&& !loaded.leaderboard_generated
            &&& !config.assignment_due(at)
        },
        TickState::Finished(outcome) => outcome != TickOutcome::NotConfigured,
    }
}

/// A tick changes nothing but flags, and those it only raises: whatever its
/// actions return, the state it reaches can occur in it, and what is stored
/// is the loaded configuration with flags raised.
pub proof fn lemma_tick_only_raises_flags(loaded: ContestConfig, now: Timestamp, outcomes: Seq<bool>)
    ensures
        follows_from(state_after(first_state(Some(loaded), now), outcomes), loaded, now),
        stored_after(Some(loaded), first_state(Some(loaded), now), outcomes) matches Some(stored)
            && only_raised(loaded, stored),
    decreases outcomes.len(),
{
    if outcomes.len() > 0 {
        lemma_tick_only_raises_flags(loaded, now, outcomes.drop_last());
    }
}

/// The flags are never lowered: after any number of ticks a configuration is
/// still stored, and it is the first one with nothing changed but flags that
/// were raised.
pub proof fn lemma_flags_are_monotonic(stored: ContestConfig, ticks: Seq<Tick>)
    ensures
        stored_after_ticks(Some(stored), ticks) matches Some(later) && only_raised(stored, later),
    decreases ticks.len(),
{
    if ticks.len() > 0 {
        lemma_flags_are_monotonic(stored, ticks.drop_last());
        let before = stored_after_ticks(Some(stored), ticks.drop_last())->Some_0;
        lemma_tick_only_raises_flags(before, ticks.last().now, ticks.last().outcomes);
    }
}

/// Once `assigned` is set, a tick never runs the assignment generator,
/// whenever it begins and whatever its actions return.
pub proof fn lemma_assigned_tick_never_assigns(
    loaded: ContestConfig,
    now: Timestamp,
    outcomes: Seq<bool>,
)
    requires
        loaded.assigned,
    ensures
        action_of(state_after(first_state(Some(loaded), now), outcomes))
            != TickAction::RunAssignment,
{
    lemma_tick_only_raises_flags(loaded, now, outcomes);
}

/// Once `leaderboard_generated` is set, a tick never regenerates the
/// leaderboard, whenever it begins and whatever its actions return.
pub proof fn lemma_generated_tick_never_generates(
    loaded: ContestConfig,
    now: Timestamp,
    outcomes: Seq<bool>,
)
    requires
        loaded.leaderboard_generated,
    ensures
        action_of(state_after(first_state(Some(loaded), now), outcomes))
            != TickAction::RunLeaderboard,
{
    lemma_tick_only_raises_flags(loaded, now, outcomes);
}

/// Once `assigned` is stored, no tick ever runs the assignment generator
/// again, however many ticks go by: not the tick `ticks[i]`, at any of its
/// steps.
pub proof fn lemma_assignment_never_repeated(
    stored: ContestConfig,
    ticks: Seq<Tick>,
    i: int,
    steps: int,
)
    requires
        stored.assigned,
        0 <= i < ticks.len(),
        0 <= steps <= ticks[i].outcomes.len(),
    ensures
        action_of(
            state_after(
                first_state(stored_after_ticks(Some(stored), ticks.take(i)), ticks[i].now),
                ticks[i].outcomes.take(steps),
            ),
        ) != TickAction::RunAssignment,
{
    lemma_flags_are_monotonic(stored, ticks.take(i));
    let before = stored_after_ticks(Some(stored), ticks.take(i))->Some_0;
    lemma_assigned_tick_never_assigns(before, ticks[i].now, ticks[i].outcomes.take(steps));
}

/// Once `leaderboard_generated` is stored, no tick ever regenerates the
/// leaderboard again, however many ticks go by: not the tick `ticks[i]`, at
/// any of its steps.
pub proof fn lemma_leaderboard_never_repeated(
    stored: ContestConfig,
    ticks: Seq<Tick>,
    i: int,
    steps: int,
)
    requires
        stored.leaderboard_generated,
        0 <= i < ticks.len(),
        0 <= steps <= ticks[i].outcomes.len(),
    ensures
        action_of(
            state_after(
                first_state(stored_after_ticks(Some(stored), ticks.take(i)), ticks[i].now),
                ticks[i].outcomes.take(steps),
            ),
        ) != TickAction::RunLeaderboard,
{
    lemma_flags_are_monotonic(stored, ticks.take(i));
    let before = stored_after_ticks(Some(stored), ticks.take(i))->Some_0;
    lemma_generated_tick_never_generates(before, ticks[i].now, ticks[i].outcomes.take(steps));
}

/// How far a tick has come: the number of actions behind it when none was
/// left out.
pub open spec fn progress(state: TickState) -> nat {
    match state {
        TickState::Assigning { .. } => 0,
        TickState::SavingAssigned { .. } => 1,
        TickState::Generating { .. } => 2,
        TickState::SavingGenerated { .. } => 3,
        TickState::Finished(_) => 4,
    }
}

/// To go on from `start` through `outcomes` and then through `more` is to go
/// through the two laid end to end.
pub proof fn lemma_state_after_concatenation(
    start: TickState,
    outcomes: Seq<bool>,
    more: Seq<bool>,
)
    ensures
        state_after(start, outcomes + more) == state_after(state_after(start, outcomes), more),
    decreases more.len(),
{
    if more.len() == 0 {
        assert(outcomes + more =~= outcomes);
    } else {
        assert((outcomes + more).drop_last() =~= outcomes + more.drop_last());
        lemma_state_after_concatenation(start, outcomes, more.drop_last());
    }
}

/// Every action that returns takes the tick forward, until it has finished.
pub proof fn lemma_tick_progresses(start: TickState, outcomes: Seq<bool>)
    ensures
        progress(state_after(start, outcomes)) >= progress(start) + outcomes.len() || state_after(
            start,
            outcomes,
        ) is Finished,
    decreases outcomes.len(),
{
    if outcomes.len() > 0 {
        lemma_tick_progresses(start, outcomes.drop_last());
    }
}

/// A tick has finished after four actions at most.
pub proof fn lemma_tick_finishes(loaded: Option<ContestConfig>, now: Timestamp, outcomes: Seq<bool>)
    requires
        outcomes.len() >= 4,
    ensures
        state_after(first_state(loaded, now), outcomes) is Finished,
{
    lemma_tick_progresses(first_state(loaded, now), outcomes);
}

/// Within one tick each transition is made once at most: the assignment
/// generator does not run at two of its steps, nor is the leaderboard
/// regenerated at two of them.
pub proof fn lemma_once_per_tick(start: TickState, outcomes: Seq<bool>, j: int, k: int)
    requires
        0 <= j < k <= outcomes.len(),
    ensures
        !(action_of(state_after(start, outcomes.take(j))) == TickAction::RunAssignment
            && action_of(state_after(start, outcomes.take(k))) == TickAction::RunAssignment),
        !(action_of(state_after(start, outcomes.take(j))) == TickAction::RunLeaderboard
            && action_of(state_after(start, outcomes.take(k))) == TickAction::RunLeaderboard),
{
    let between = outcomes.subrange(j, k);
    assert(outcomes.take(k) =~= outcomes.take(j) + between);
    lemma_state_after_concatenation(start, outcomes.take(j), between);
    lemma_tick_progresses(state_after(start, outcomes.take(j)), between);
}

/// Whether a tick that began at `at` may stand in `state` while `stored` is
/// stored: what it is about to save is `stored` with one more flag, once it
/// has completed nothing is due, and a leaderboard that failed is still due.
pub open spec fn in_step(state: TickState, stored: ContestConfig, at: Timestamp) -> bool {
    match state {
        TickState::Assigning { config, now } => now == at && config == stored,
        TickState::SavingAssigned { config, now } => now == at && config
            == stored.marked_assigned(),
        TickState::Generating { config } => {
            &&& config == stored
            &&& !stored.assignment_due(at)
            &&& stored.leaderboard_due(at)
        },
        TickState::SavingGenerated { config } => {
            &&& config == stored.marked_generated()
            &&& !stored.assignment_due(at)
        },
        TickState::Finished(TickOutcome::Completed) => {
            &&& !stored.assignment_due(at)
            &&& !stored.leaderboard_due(at)
        },
        TickState::Finished(TickOutcome::LeaderboardFailed) => stored.leaderboard_due(at),
        TickState::Finished(_) => true,
    }
}

/// What is stored keeps step with the tick: whatever the actions of a tick
/// return, the tick may stand in the state it has reached while what it has
/// stored is stored.
pub proof fn lemma_store_keeps_step(loaded: ContestConfig, now: Timestamp, outcomes: Seq<bool>)
    ensures
        stored_after(Some(loaded), first_state(Some(loaded), now), outcomes) matches Some(stored)
            && in_step(state_after(first_state(Some(loaded), now), outcomes), stored, now),
    decreases outcomes.len(),
{
    lemma_tick_only_raises_flags(loaded, now, outcomes);
    if outcomes.len() > 0 {
        lemma_store_keeps_step(loaded, now, outcomes.drop_last());
    }
}

/// A tick that completes leaves nothing due: in what is stored after it,
/// every transition whose window had closed when the tick began is recorded.
pub proof fn lemma_completed_tick_leaves_nothing_due(
    loaded: ContestConfig,
    now: Timestamp,
    outcomes: Seq<bool>,
)
    requires
        state_after(first_state(Some(loaded), now), outcomes) == TickState::Finished(
            TickOutcome::Completed,
        ),
    ensures
        stored_after(Some(loaded), first_state(Some(loaded), now), outcomes) matches Some(stored)
            && (window_closed(loaded.submission_end, now) ==> stored.assigned) && (window_closed(
            loaded.voting_end,
            now,
        ) ==> stored.leaderboard_generated),
{
    lemma_tick_only_raises_flags(loaded, now, outcomes);
    lemma_store_keeps_step(loaded, now, outcomes);
}

/// A leaderboard that could not be regenerated is taken up again: after a
/// tick that ended so, the leaderboard is due at the time of that tick and at
/// any later time.
pub proof fn lemma_failed_leaderboard_stays_due(
    loaded: ContestConfig,
    now: Timestamp,
    outcomes: Seq<bool>,
    later: Timestamp,
)
    requires
        state_after(first_state(Some(loaded), now), outcomes) == TickState::Finished(
            TickOutcome::LeaderboardFailed,
        ),
        !now.later_than(later),
    ensures
        stored_after(Some(loaded), first_state(Some(loaded), now), outcomes) matches Some(stored)
            && stored.leaderboard_due(later),
{
    lemma_store_keeps_step(loaded, now, outcomes);
}

/// Whether the leaderboard may be shown: a configuration is stored and its
/// `show_leaderboard` is set.
pub fn leaderboard_visible(stored: &Option<ContestConfig>) -> (visible: bool)
    ensures
        visible == (stored matches Some(config) && config.show_leaderboard),
{
    match stored {
        Some(config) => config.show_leaderboard,
        None => false,
    }
}

/// Whether the window that ends at `end`, if it has an end, has closed at `now`.
pub fn has_closed(end: &Option<Timestamp>, now: &Timestamp) -> (closed: bool)
    ensures
        closed == window_closed(*end, *now),
{
    match end {
        Some(end) => now.is_after(end),
        None => false,
    }
}

impl TickState {
    /// Takes up the voting-close transition.
    fn enter_voting_phase(config: ContestConfig, now: Timestamp) -> (state: TickState)
        ensures
            state == voting_phase(config, now),
    {
        if has_closed(&config.voting_end, &now) && !config.leaderboard_generated {
            TickState::Generating { config }
        } else {
            TickState::Finished(TickOutcome::Completed)
        }
    }

    /// Begins a tick at `now` with the configuration that was loaded, if one
    /// is stored.
    pub fn begin(loaded: Option<ContestConfig>, now: Timestamp) -> (state: TickState)
        ensures
            state == first_state(loaded, now),
    {
        match loaded {
            None => TickState::Finished(TickOutcome::NotConfigured),
            Some(config) => {
                if has_closed(&config.submission_end, &now) && !config.assigned {
                    TickState::Assigning { config, now }
                } else {
                    TickState::enter_voting_phase(config, now)
                }
            },
        }
    }

    /// Moves on once the action of this state has returned; `succeeded` says
    /// whether it returned without an error.
    pub fn advance(self, succeeded: bool) -> (state: TickState)
        ensures
            state == next_state(self, succeeded),
    {
        match self {
            TickState::Assigning { config, now } => TickState::SavingAssigned {
                config: ContestConfig { assigned: true, ..config },
                now,
            },
            TickState::SavingAssigned { config, now } => {
                if succeeded {
                    TickState::enter_voting_phase(config, now)
                } else {
                    TickState::Finished(TickOutcome::SaveFailed)
                }
            },
            TickState::Generating { config } => {
                if succeeded {
                    TickState::SavingGenerated {
                        config: ContestConfig { leaderboard_generated: true, ..config },
                    }
                } else {
                    TickState::Finished(TickOutcome::LeaderboardFailed)
                }
            },
            TickState::SavingGenerated { config } => {
                if succeeded {
                    TickState::Finished(TickOutcome::Completed)
                } else {
                    TickState::Finished(TickOutcome::SaveFailed)
                }
            },
            TickState::Finished(outcome) => TickState::Finished(outcome),
        }
    }

    /// The action to perform in this state.
    pub fn action(&self) -> (action: TickAction)
        ensures
            action == action_of(*self),
    {
        match self {
            TickState::Assigning { .. } => TickAction::RunAssignment,
            TickState::SavingAssigned { config, .. } => TickAction::SaveConfig(*config),
            TickState::Generating { .. } => TickAction::RunLeaderboard,
            TickState::SavingGenerated { config } => TickAction::SaveConfig(*config),
            TickState::Finished(outcome) => TickAction::Finish(*outcome),
        }
    }
}

/// The task that the timer runs.
pub struct AssignAndGen;

impl AssignAndGen {
    /// Begins a tick now, by the system clock, with the configuration that
    /// was loaded.
    pub fn run(&self, loaded: Option<ContestConfig>) -> (state: TickState)
        ensures
            exists|now: Timestamp| state == first_state(loaded, now),
    {
        let now = current_time();
        TickState::begin(loaded, now)
    }
}

} // verus!
