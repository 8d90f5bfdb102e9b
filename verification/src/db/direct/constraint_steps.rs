//! The rounds of a constraint migration: look the constraint up, add it
//! `NOT VALID`, validate it, and start again (after dropping it) while it
//! stays invalid, up to the configured number of rounds.
use crate::config::MigrationConfig;
use crate::db::direct::constraints::{AddConstraintError, ConstraintPlan, ConstraintState};
use crate::db::retry::RetryError;
use vstd::prelude::*;
use vstd::string::*;

verus! {

/// Where a constraint migration stands between two round trips.
#[derive(Debug, Clone, Copy, PartialEq, Eq)]
pub enum ConstraintStep {
    /// Dry run: the banner was handed out to be printed.
    DryRunAnnounced,
    /// Dry run: the statement that adds the constraint was handed out.
    DryRunAdding,
    /// Dry run: the statement that validates it was handed out.
    DryRunValidating,
    /// Dry run: the follow-up statement was handed out.
    DryRunFollowingUp,
    /// Round `attempt` opened by reading the constraint's state.
    CheckingBefore { attempt: u32 },
    /// The constraint was found invalid, and its validation was handed out.
    ValidatingExisting { attempt: u32 },
    /// The constraint was missing, and the statement adding it was handed out.
    Adding { attempt: u32 },
    /// The new constraint's validation was handed out.
    ValidatingNew { attempt: u32 },
    /// The state of the new constraint was asked for.
    CheckingAfter { attempt: u32 },
    /// The new constraint stayed invalid, and dropping it was handed out.
    DroppingInvalid { attempt: u32 },
    /// The constraint is valid, and the follow-up statement was handed out.
    FollowingUp,
    /// The outcome was handed out; nothing is left to do.
    Finished,
}

/// What the caller is to do next for a constraint migration.
#[derive(Debug)]
pub enum ConstraintAction {
    /// Print this line to standard output.
    Print(String),
    /// Run this statement with retries (see `retry_start`), and report the
    /// outcome.
    RunDdl(String),
    /// Run the plan's state query with the constraint's name, and report the
    /// state read from its rows (see `constraint_state_from_rows`).
    FetchState,
    /// The migration is over; this is its outcome.
    Finish(Result<(), AddConstraintError>),
}

/// What came of the action last handed out.
#[derive(Debug)]
pub enum ConstraintEvent {
    /// The line was printed.
    Printed,
    /// The statement ran, or failed.
    DdlRan(Result<(), RetryError>),
    /// The state was read, or reading it failed.
    StateFetched(Result<ConstraintState, AddConstraintError>),
}

/// `event` is what `step` waits for.
pub open spec fn constraint_awaits(step: ConstraintStep, event: ConstraintEvent) -> bool {
    match step {
        ConstraintStep::DryRunAnnounced => event is Printed,
        ConstraintStep::CheckingBefore { .. } => event is StateFetched,
        ConstraintStep::CheckingAfter { .. } => event is StateFetched,
        ConstraintStep::Finished => false,
        _ => event is DdlRan,
    }
}

impl ConstraintStep {
    /// Tells whether this step waits for `event`.
    pub fn awaits(&self, event: &ConstraintEvent) -> (r: bool)
        ensures
            r == constraint_awaits(*self, *event),
    {
        match self {
            ConstraintStep::DryRunAnnounced => matches!(event, ConstraintEvent::Printed),
            ConstraintStep::CheckingBefore { .. } => matches!(event, ConstraintEvent::StateFetched(_)),
            ConstraintStep::CheckingAfter { .. } => matches!(event, ConstraintEvent::StateFetched(_)),
            ConstraintStep::Finished => false,
            _ => matches!(event, ConstraintEvent::DdlRan(_)),
        }
    }
}

/// The round number that a step holds, if it belongs to a round.
pub open spec fn constraint_round(step: ConstraintStep) -> Option<u32> {
    match step {
        ConstraintStep::CheckingBefore { attempt } => Some(attempt),
        ConstraintStep::ValidatingExisting { attempt } => Some(attempt),
        ConstraintStep::Adding { attempt } => Some(attempt),
        ConstraintStep::ValidatingNew { attempt } => Some(attempt),
        ConstraintStep::CheckingAfter { attempt } => Some(attempt),
        ConstraintStep::DroppingInvalid { attempt } => Some(attempt),
        _ => None,
    }
}

/// The round numbers that a step holds are between one and the number of
/// rounds allowed.
pub open spec fn constraint_step_within(max_attempts: u32, step: ConstraintStep) -> bool {
    constraint_round(step) matches Some(attempt) ==> 1 <= attempt <= max_attempts
}

/// How many more rounds, at most, can still open after `step`.
pub open spec fn rounds_left(max_attempts: u32, step: ConstraintStep) -> int {
    match constraint_round(step) {
        Some(attempt) => max_attempts - attempt,
        None => 0,
    }
}

/// `action` is the end of the migration with the error `InvalidState(text)`.
pub open spec fn finishes_in_invalid_state(action: ConstraintAction, text: Seq<char>) -> bool {
    action matches ConstraintAction::Finish(Err(AddConstraintError::InvalidState(message)))
        && message@ == text
}

/// The first step and action of a constraint migration: the dry-run banner;
/// or the first round's look at the constraint; or, when no round is
/// allowed, the end in an invalid state.
pub open spec fn constraint_begins(
    config: MigrationConfig,
    step: ConstraintStep,
    action: ConstraintAction,
) -> bool {
    if config.dry_run {
        step == ConstraintStep::DryRunAnnounced && (action matches ConstraintAction::Print(line)
            && line@ == "-- dry-run --"@)
    } else if config.max_attempts >= 1 {
        step == (ConstraintStep::CheckingBefore { attempt: 1 }) && action
            == ConstraintAction::FetchState
    } else {
        step == ConstraintStep::Finished && finishes_in_invalid_state(action, "Invalid state"@)
    }
}

/// What follows once the constraint is seen valid: the follow-up statement
/// if there is one, else success.
pub open spec fn after_valid(plan: ConstraintPlan, next: ConstraintStep, action: ConstraintAction) -> bool {
    match plan.post_query {
        Some(query) => next == ConstraintStep::FollowingUp && action == ConstraintAction::RunDdl(
            query,
        ),
        None => next == ConstraintStep::Finished && action == ConstraintAction::Finish(Ok(())),
    }
}

/// What follows the end of round `attempt`: the next round, or, after the
/// last, the end in an invalid state.
pub open spec fn after_round(
    config: MigrationConfig,
    attempt: u32,
    next: ConstraintStep,
    action: ConstraintAction,
) -> bool {
    if attempt < config.max_attempts {
        next == (ConstraintStep::CheckingBefore { attempt: (attempt + 1) as u32 }) && action
            == ConstraintAction::FetchState
    } else {
        next == ConstraintStep::Finished && finishes_in_invalid_state(action, "Invalid state"@)
    }
}

/// A failed statement ends the migration with its error; a statement that
/// went through leads to `next` with `action`.
pub open spec fn unless_ddl_failed(
    result: Result<(), RetryError>,
    next: ConstraintStep,
    action: ConstraintAction,
    then_next: ConstraintStep,
    then_action: ConstraintAction,
) -> bool {
    match result {
        Err(e) => next == ConstraintStep::Finished && action == ConstraintAction::Finish(
            Err(AddConstraintError::Retry(e)),
        ),
        Ok(()) => next == then_next && action == then_action,
    }
}

/// One move of a constraint migration, from `step` and the outcome of the
/// action it handed out to `next` with `action`:
///
/// - dry run: the add statement, the validation, then the follow-up if any;
///   a failed statement ends the run with its error;
/// - at the opening look: a valid constraint leads to the follow-up (or
///   success); an invalid one is validated, and the round ends; a missing
///   one is added;
/// - after adding it, it is validated whatever comes of the validation,
///   then looked at again: valid leads to the follow-up (or success),
///   invalid to dropping it (whatever comes of the drop) and the round's end,
///   missing to the error `InvalidState("Invalid State")`;
/// - a failure to read the state ends the migration with that error; a
///   failed add, opening validation, or follow-up ends it with the
///   statement's error.
pub open spec fn constraint_moves(
    config: MigrationConfig,
    plan: ConstraintPlan,
    step: ConstraintStep,
    event: ConstraintEvent,
    next: ConstraintStep,
    action: ConstraintAction,
) -> bool {
    match (step, event) {
        (ConstraintStep::DryRunAnnounced, ConstraintEvent::Printed) => next
            == ConstraintStep::DryRunAdding && action == ConstraintAction::RunDdl(plan.add_query),
        (ConstraintStep::DryRunAdding, ConstraintEvent::DdlRan(result)) => unless_ddl_failed(
            result,
            next,
            action,
            ConstraintStep::DryRunValidating,
            ConstraintAction::RunDdl(plan.validate_query),
        ),
        (ConstraintStep::DryRunValidating, ConstraintEvent::DdlRan(result)) => match result {
            Err(e) => next == ConstraintStep::Finished && action == ConstraintAction::Finish(
                Err(AddConstraintError::Retry(e)),
            ),
            Ok(()) => match plan.post_query {
                Some(query) => next == ConstraintStep::DryRunFollowingUp && action
                    == ConstraintAction::RunDdl(query),
                None => next == ConstraintStep::Finished && action == ConstraintAction::Finish(
                    Ok(()),
                ),
            },
        },
        (ConstraintStep::DryRunFollowingUp, ConstraintEvent::DdlRan(result)) => unless_ddl_failed(
            result,
            next,
            action,
            ConstraintStep::Finished,
            ConstraintAction::Finish(Ok(())),
        ),
        (ConstraintStep::CheckingBefore { attempt }, ConstraintEvent::StateFetched(fetched)) => match fetched {
            Err(e) => next == ConstraintStep::Finished && action == ConstraintAction::Finish(Err(e)),
            Ok(ConstraintState::Valid) => after_valid(plan, next, action),
            Ok(ConstraintState::Invalid) => next == (ConstraintStep::ValidatingExisting { attempt })
                && action == ConstraintAction::RunDdl(plan.validate_query),
            Ok(ConstraintState::Missing) => next == (ConstraintStep::Adding { attempt }) && action
                == ConstraintAction::RunDdl(plan.add_query),
        },
        (ConstraintStep::ValidatingExisting { attempt }, ConstraintEvent::DdlRan(result)) => match result {
            Err(e) => next == ConstraintStep::Finished && action == ConstraintAction::Finish(
                Err(AddConstraintError::Retry(e)),
            ),
            Ok(()) => after_round(config, attempt, next, action),
        },
        (ConstraintStep::Adding { attempt }, ConstraintEvent::DdlRan(result)) => unless_ddl_failed(
            result,
            next,
            action,
            ConstraintStep::ValidatingNew { attempt },
            ConstraintAction::RunDdl(plan.validate_query),
        ),
        (ConstraintStep::ValidatingNew { attempt }, ConstraintEvent::DdlRan(_)) => next
            == (ConstraintStep::CheckingAfter { attempt }) && action == ConstraintAction::FetchState,
        (ConstraintStep::CheckingAfter { attempt }, ConstraintEvent::StateFetched(fetched)) => match fetched {
            Err(e) => next == ConstraintStep::Finished && action == ConstraintAction::Finish(Err(e)),
            Ok(ConstraintState::Valid) => after_valid(plan, next, action),
            Ok(ConstraintState::Invalid) => next == (ConstraintStep::DroppingInvalid { attempt })
                && action == ConstraintAction::RunDdl(plan.drop_query),
            Ok(ConstraintState::Missing) => next == ConstraintStep::Finished
                && finishes_in_invalid_state(action, "Invalid State"@),
        },
        (ConstraintStep::DroppingInvalid { attempt }, ConstraintEvent::DdlRan(_)) => after_round(
            config,
            attempt,
            next,
            action,
        ),
        (ConstraintStep::FollowingUp, ConstraintEvent::DdlRan(result)) => unless_ddl_failed(
            result,
            next,
            action,
            ConstraintStep::Finished,
            ConstraintAction::Finish(Ok(())),
        ),
        _ => false,
    }
}

/// Starts a constraint migration.
pub fn constraint_start(config: &MigrationConfig) -> (r: (ConstraintStep, ConstraintAction))
    ensures
        constraint_begins(*config, r.0, r.1),
        constraint_step_within(config.max_attempts, r.0),
        rounds_left(config.max_attempts, r.0) + (if r.0 is CheckingBefore {
            1int
        } else {
            0
        }) <= config.max_attempts,
{
    if config.dry_run {
        (ConstraintStep::DryRunAnnounced, ConstraintAction::Print(String::from_str("-- dry-run --")))
    } else if config.max_attempts >= 1 {
        (ConstraintStep::CheckingBefore { attempt: 1 }, ConstraintAction::FetchState)
    } else {
        (
            ConstraintStep::Finished,
            ConstraintAction::Finish(
                Err(AddConstraintError::InvalidState(String::from_str("Invalid state"))),
            ),
        )
    }
}

fn finish_after_valid(plan: &ConstraintPlan) -> (r: (ConstraintStep, ConstraintAction))
    ensures
        after_valid(*plan, r.0, r.1),
{
    match &plan.post_query {
        Some(query) => (ConstraintStep::FollowingUp, ConstraintAction::RunDdl(query.clone())),
        None => (ConstraintStep::Finished, ConstraintAction::Finish(Ok(()))),
    }
}

fn end_round(config: &MigrationConfig, attempt: u32) -> (r: (ConstraintStep, ConstraintAction))
    ensures
        after_round(*config, attempt, r.0, r.1),
{
    if attempt < config.max_attempts {
        (ConstraintStep::CheckingBefore { attempt: attempt + 1 }, ConstraintAction::FetchState)
    } else {
        (
            ConstraintStep::Finished,
            ConstraintAction::Finish(
                Err(AddConstraintError::InvalidState(String::from_str("Invalid state"))),
            ),
        )
    }
}

/// Moves a constraint migration one step on, given what came of the action
/// last handed out.
pub fn constraint_step(
    config: &MigrationConfig,
    plan: &ConstraintPlan,
    step: ConstraintStep,
    event: ConstraintEvent,
) -> (r: (ConstraintStep, ConstraintAction))
    requires
        constraint_awaits(step, event),
    ensures
        constraint_moves(*config, *plan, step, event, r.0, r.1),
        (step is CheckingBefore || step is CheckingAfter) && event == ConstraintEvent::StateFetched(
            Ok(ConstraintState::Valid),
        ) ==> match plan.post_query {
            Some(query) => r.0 == ConstraintStep::FollowingUp && r.1 == ConstraintAction::RunDdl(query),
            None => r.0 == ConstraintStep::Finished && r.1 == ConstraintAction::Finish(Ok(())),
        },
        constraint_step_within(config.max_attempts, step) ==> constraint_step_within(
            config.max_attempts,
            r.0,
        ),
        constraint_step_within(config.max_attempts, step) ==> rounds_left(config.max_attempts, r.0)
            + (if r.0 is CheckingBefore {
            1int
        } else {
            0
        }) <= rounds_left(config.max_attempts, step),
{
    match (step, event) {
        (ConstraintStep::DryRunAnnounced, _) => (
            ConstraintStep::DryRunAdding,
            ConstraintAction::RunDdl(plan.add_query.clone()),
        ),
        (ConstraintStep::DryRunAdding, ConstraintEvent::DdlRan(result)) => match result {
            Err(e) => (ConstraintStep::Finished, ConstraintAction::Finish(Err(AddConstraintError::Retry(e)))),
            Ok(()) => (
                ConstraintStep::DryRunValidating,
                ConstraintAction::RunDdl(plan.validate_query.clone()),
            ),
        },
        (ConstraintStep::DryRunValidating, ConstraintEvent::DdlRan(result)) => match result {
            Err(e) => (ConstraintStep::Finished, ConstraintAction::Finish(Err(AddConstraintError::Retry(e)))),
            Ok(()) => match &plan.post_query {
                Some(query) => (ConstraintStep::DryRunFollowingUp, ConstraintAction::RunDdl(query.clone())),
                None => (ConstraintStep::Finished, ConstraintAction::Finish(Ok(()))),
            },
        },
        (ConstraintStep::DryRunFollowingUp, ConstraintEvent::DdlRan(result)) => match result {
            Err(e) => (ConstraintStep::Finished, ConstraintAction::Finish(Err(AddConstraintError::Retry(e)))),
            Ok(()) => (ConstraintStep::Finished, ConstraintAction::Finish(Ok(()))),
        },
        (ConstraintStep::CheckingBefore { attempt }, ConstraintEvent::StateFetched(fetched)) => match fetched {
            Err(e) => (ConstraintStep::Finished, ConstraintAction::Finish(Err(e))),
            Ok(ConstraintState::Valid) => finish_after_valid(plan),
            Ok(ConstraintState::Invalid) => (
                ConstraintStep::ValidatingExisting { attempt },
                ConstraintAction::RunDdl(plan.validate_query.clone()),
            ),
            Ok(ConstraintState::Missing) => (
                ConstraintStep::Adding { attempt },
                ConstraintAction::RunDdl(plan.add_query.clone()),
            ),
        },
        (ConstraintStep::ValidatingExisting { attempt }, ConstraintEvent::DdlRan(result)) => match result {
            Err(e) => (ConstraintStep::Finished, ConstraintAction::Finish(Err(AddConstraintError::Retry(e)))),
            Ok(()) => end_round(config, attempt),
        },
        (ConstraintStep::Adding { attempt }, ConstraintEvent::DdlRan(result)) => match result {
            Err(e) => (ConstraintStep::Finished, ConstraintAction::Finish(Err(AddConstraintError::Retry(e)))),
            Ok(()) => (
                ConstraintStep::ValidatingNew { attempt },
                ConstraintAction::RunDdl(plan.validate_query.clone()),
            ),
        },
        (ConstraintStep::ValidatingNew { attempt }, _) => (
            ConstraintStep::CheckingAfter { attempt },
            ConstraintAction::FetchState,
        ),
        (ConstraintStep::CheckingAfter { attempt }, ConstraintEvent::StateFetched(fetched)) => match fetched {
            Err(e) => (ConstraintStep::Finished, ConstraintAction::Finish(Err(e))),
            Ok(ConstraintState::Valid) => finish_after_valid(plan),
            Ok(ConstraintState::Invalid) => (
                ConstraintStep::DroppingInvalid { attempt },
                ConstraintAction::RunDdl(plan.drop_query.clone()),
            ),
            Ok(ConstraintState::Missing) => (
                ConstraintStep::Finished,
                ConstraintAction::Finish(
                    Err(AddConstraintError::InvalidState(String::from_str("Invalid State"))),
                ),
            ),
        },
        (ConstraintStep::DroppingInvalid { attempt }, _) => end_round(config, attempt),
        (ConstraintStep::FollowingUp, ConstraintEvent::DdlRan(result)) => match result {
            Err(e) => (ConstraintStep::Finished, ConstraintAction::Finish(Err(AddConstraintError::Retry(e)))),
            Ok(()) => (ConstraintStep::Finished, ConstraintAction::Finish(Ok(()))),
        },
        _ => (ConstraintStep::Finished, ConstraintAction::Finish(Ok(()))),
    }
}

/// Step `i` of a run leads to step `i + 1`.
pub open spec fn constraint_moves_at(
    config: MigrationConfig,
    plan: ConstraintPlan,
    steps: Seq<ConstraintStep>,
    actions: Seq<ConstraintAction>,
    events: Seq<ConstraintEvent>,
    i: int,
) -> bool {
    constraint_moves(config, plan, steps[i], events[i], steps[i + 1], actions[i + 1])
}

/// `steps` and `actions` are a run of a constraint migration of `plan`
/// under `config`: the first step and action are those of
/// `constraint_start`, and each next one follows from the one before and
/// the event reported for it.
pub open spec fn constraint_run(
    config: MigrationConfig,
    plan: ConstraintPlan,
    steps: Seq<ConstraintStep>,
    actions: Seq<ConstraintAction>,
    events: Seq<ConstraintEvent>,
) -> bool {
    &&& steps.len() >= 1
    &&& actions.len() == steps.len()
    &&& events.len() + 1 >= steps.len()
    &&& constraint_begins(config, steps[0], actions[0])
    &&& forall|i: int|
        0 <= i < steps.len() - 1 ==> #[trigger] constraint_moves_at(
            config,
            plan,
            steps,
            actions,
            events,
            i,
        )
}

/// A step that only a dry run takes.
pub open spec fn is_dry_run_step(step: ConstraintStep) -> bool {
    ||| step is DryRunAnnounced
    ||| step is DryRunAdding
    ||| step is DryRunValidating
    ||| step is DryRunFollowingUp
}

/// How many rounds a run opened.
pub open spec fn rounds_opened(steps: Seq<ConstraintStep>) -> int
    decreases steps.len(),
{
    if steps.len() == 0 {
        0
    } else {
        rounds_opened(steps.drop_last()) + if steps.last() is CheckingBefore {
            1int
        } else {
            0
        }
    }
}

proof fn lemma_constraint_run_prefix(
    config: MigrationConfig,
    plan: ConstraintPlan,
    steps: Seq<ConstraintStep>,
    actions: Seq<ConstraintAction>,
    events: Seq<ConstraintEvent>,
    k: int,
)
    requires
        constraint_run(config, plan, steps, actions, events),
        0 <= k < steps.len(),
    ensures
        constraint_step_within(config.max_attempts, steps[k]),
        0 <= rounds_left(config.max_attempts, steps[k]),
        rounds_left(config.max_attempts, steps[k]) + rounds_opened(steps.take(k + 1))
            <= config.max_attempts,
        !config.dry_run ==> !is_dry_run_step(steps[k]),
        config.dry_run ==> is_dry_run_step(steps[k]) || steps[k] is Finished,
    decreases k,
{
    if k == 0 {
        assert(steps.take(1).drop_last() =~= Seq::<ConstraintStep>::empty());
        assert(rounds_opened(Seq::<ConstraintStep>::empty()) == 0);
        assert(steps.take(1).last() == steps[0]);
    } else {
        lemma_constraint_run_prefix(config, plan, steps, actions, events, k - 1);
        assert(constraint_moves_at(config, plan, steps, actions, events, k - 1));
        assert(steps.take(k + 1).drop_last() =~= steps.take(k));
        assert(steps.take(k + 1).last() == steps[k]);
    }
}

/// Law: whatever the database answers, a constraint migration opens at
/// most `max_attempts` rounds.
pub proof fn law_constraint_rounds_bounded(
    config: MigrationConfig,
    plan: ConstraintPlan,
    steps: Seq<ConstraintStep>,
    actions: Seq<ConstraintAction>,
    events: Seq<ConstraintEvent>,
)
    requires
        constraint_run(config, plan, steps, actions, events),
    ensures
        rounds_opened(steps) <= config.max_attempts,
{
    lemma_constraint_run_prefix(config, plan, steps, actions, events, steps.len() - 1);
    assert(steps.take(steps.len() as int) =~= steps);
}

/// Law: outside a dry run, a constraint migration reports success only
/// once the catalog has shown the constraint valid: just before, or just
/// before the follow-up statement that ran last.
pub proof fn law_constraint_success_needs_valid_state(
    config: MigrationConfig,
    plan: ConstraintPlan,
    steps: Seq<ConstraintStep>,
    actions: Seq<ConstraintAction>,
    events: Seq<ConstraintEvent>,
    i: int,
)
    requires
        constraint_run(config, plan, steps, actions, events),
        !config.dry_run,
        0 <= i < steps.len(),
        actions[i] == ConstraintAction::Finish(Ok(())),
    ensures
        i >= 1,
        events[i - 1] == ConstraintEvent::StateFetched(Ok(ConstraintState::Valid)) || (i >= 2
            && steps[i - 1] == ConstraintStep::FollowingUp && events[i - 2]
            == ConstraintEvent::StateFetched(Ok(ConstraintState::Valid))),
{
    if i == 0 {
    } else {
        lemma_constraint_run_prefix(config, plan, steps, actions, events, i - 1);
        assert(constraint_moves_at(config, plan, steps, actions, events, i - 1));
        if steps[i - 1] == ConstraintStep::FollowingUp {
            law_follow_up_needs_valid_state(config, plan, steps, actions, events, i - 1);
        }
    }
}

/// Law: outside a dry run, the follow-up statement (the `SET NOT NULL` of a
/// NOT NULL migration) is handed out only right after the catalog showed the
/// constraint valid.
pub proof fn law_follow_up_needs_valid_state(
    config: MigrationConfig,
    plan: ConstraintPlan,
    steps: Seq<ConstraintStep>,
    actions: Seq<ConstraintAction>,
    events: Seq<ConstraintEvent>,
    i: int,
)
    requires
        constraint_run(config, plan, steps, actions, events),
        !config.dry_run,
        0 <= i < steps.len(),
        steps[i] == ConstraintStep::FollowingUp,
    ensures
        i >= 1,
        events[i - 1] == ConstraintEvent::StateFetched(Ok(ConstraintState::Valid)),
        plan.post_query matches Some(query) && actions[i] == ConstraintAction::RunDdl(query),
{
    if i == 0 {
    } else {
        lemma_constraint_run_prefix(config, plan, steps, actions, events, i - 1);
        assert(constraint_moves_at(config, plan, steps, actions, events, i - 1));
    }
}

/// Law: a dry run never reads the catalog and never drops anything: it
/// hands out the banner, then the add, the validation and the follow-up
/// statements, each once.
pub proof fn law_constraint_dry_run_only_plans(
    config: MigrationConfig,
    plan: ConstraintPlan,
    steps: Seq<ConstraintStep>,
    actions: Seq<ConstraintAction>,
    events: Seq<ConstraintEvent>,
    i: int,
)
    requires
        constraint_run(config, plan, steps, actions, events),
        config.dry_run,
        0 <= i < steps.len(),
    ensures
        !(actions[i] is FetchState),
        actions[i] is RunDdl ==> actions[i] == ConstraintAction::RunDdl(plan.add_query) || actions[i]
            == ConstraintAction::RunDdl(plan.validate_query) || (plan.post_query matches Some(query)
            && actions[i] == ConstraintAction::RunDdl(query)),
        steps.len() <= 5,
{
    lemma_constraint_run_prefix(config, plan, steps, actions, events, i);
    if i > 0 {
        lemma_constraint_run_prefix(config, plan, steps, actions, events, i - 1);
        assert(constraint_moves_at(config, plan, steps, actions, events, i - 1));
    }
    if steps.len() > 5 {
        assert(constraint_moves_at(config, plan, steps, actions, events, 0));
        assert(constraint_moves_at(config, plan, steps, actions, events, 1));
        assert(constraint_moves_at(config, plan, steps, actions, events, 2));
        assert(constraint_moves_at(config, plan, steps, actions, events, 3));
        assert(constraint_moves_at(config, plan, steps, actions, events, 4));
    }
}

/// Law: a constraint that was just added `NOT VALID` is validated next,
/// before anything else is run.
pub proof fn law_add_followed_by_validation(
    config: MigrationConfig,
    plan: ConstraintPlan,
    steps: Seq<ConstraintStep>,
    actions: Seq<ConstraintAction>,
    events: Seq<ConstraintEvent>,
    i: int,
)
    requires
        constraint_run(config, plan, steps, actions, events),
        0 <= i < steps.len() - 1,
        steps[i] is Adding || steps[i] is DryRunAdding,
        events[i] == ConstraintEvent::DdlRan(Ok(())),
    ensures
        actions[i] == ConstraintAction::RunDdl(plan.add_query),
        actions[i + 1] == ConstraintAction::RunDdl(plan.validate_query),
{
    assert(constraint_moves_at(config, plan, steps, actions, events, i));
    if i == 0 {
    } else {
        assert(constraint_moves_at(config, plan, steps, actions, events, i - 1));
    }
}

/// Law: adding a constraint that is already there and valid adds and
/// validates nothing. When the opening look shows the constraint valid, the
/// next action is the follow-up statement if there is one (and then the
/// outcome of that statement), or else success at once; no later step
/// belongs to a round, so the add, the validation and the drop are never
/// handed out.
pub proof fn law_constraint_already_valid_is_kept(
    config: MigrationConfig,
    plan: ConstraintPlan,
    steps: Seq<ConstraintStep>,
    actions: Seq<ConstraintAction>,
    events: Seq<ConstraintEvent>,
)
    requires
        constraint_run(config, plan, steps, actions, events),
        !config.dry_run,
        steps.len() >= 2,
        events[0] == ConstraintEvent::StateFetched(Ok(ConstraintState::Valid)),
    ensures
        steps.len() <= 3,
        match plan.post_query {
            Some(query) => steps[1] == ConstraintStep::FollowingUp && actions[1]
                == ConstraintAction::RunDdl(query) && (steps.len() == 3 ==> match events[1] {
                ConstraintEvent::DdlRan(Ok(())) => actions[2] == ConstraintAction::Finish(Ok(())),
                ConstraintEvent::DdlRan(Err(e)) => actions[2] == ConstraintAction::Finish(
                    Err(AddConstraintError::Retry(e)),
                ),
                _ => false,
            }),
            None => steps.len() == 2 && steps[1] == ConstraintStep::Finished && actions[1]
                == ConstraintAction::Finish(Ok(())),
        },
        forall|i: int| 1 <= i < steps.len() ==> (constraint_round(#[trigger] steps[i]) is None),
{
    assert(constraint_moves_at(config, plan, steps, actions, events, 0));
    if steps.len() >= 3 {
        assert(constraint_moves_at(config, plan, steps, actions, events, 1));
    }
    if steps.len() >= 4 {
        assert(constraint_moves_at(config, plan, steps, actions, events, 2));
    }
}

/// Law: whenever the catalog shows the constraint valid, at the opening
/// look of any round or at the look after adding it, the next action is the
/// follow-up statement if the plan has one, and success only if it has none.
pub proof fn law_valid_leads_to_follow_up(
    config: MigrationConfig,
    plan: ConstraintPlan,
    steps: Seq<ConstraintStep>,
    actions: Seq<ConstraintAction>,
    events: Seq<ConstraintEvent>,
    i: int,
)
    requires
        constraint_run(config, plan, steps, actions, events),
        0 <= i < steps.len() - 1,
        steps[i] is CheckingBefore || steps[i] is CheckingAfter,
        events[i] == ConstraintEvent::StateFetched(Ok(ConstraintState::Valid)),
    ensures
        match plan.post_query {
            Some(query) => steps[i + 1] == ConstraintStep::FollowingUp && actions[i + 1]
                == ConstraintAction::RunDdl(query),
            None => steps[i + 1] == ConstraintStep::Finished && actions[i + 1]
                == ConstraintAction::Finish(Ok(())),
        },
{
    assert(constraint_moves_at(config, plan, steps, actions, events, i));
}

/// Law: outside a dry run, when the plan has a follow-up statement (the
/// `SET NOT NULL` of a NOT NULL migration), success is reported only right
/// after that statement was handed out and ran without error.
pub proof fn law_success_waits_for_follow_up(
    config: MigrationConfig,
    plan: ConstraintPlan,
    steps: Seq<ConstraintStep>,
    actions: Seq<ConstraintAction>,
    events: Seq<ConstraintEvent>,
    i: int,
)
    requires
        constraint_run(config, plan, steps, actions, events),
        !config.dry_run,
        plan.post_query is Some,
        0 <= i < steps.len(),
        actions[i] == ConstraintAction::Finish(Ok(())),
    ensures
        i >= 1,
        steps[i - 1] == ConstraintStep::FollowingUp,
        actions[i - 1] == ConstraintAction::RunDdl(plan.post_query->0),
        events[i - 1] == ConstraintEvent::DdlRan(Ok(())),
{
    if i >= 1 {
        lemma_constraint_run_prefix(config, plan, steps, actions, events, i - 1);
        assert(constraint_moves_at(config, plan, steps, actions, events, i - 1));
        law_follow_up_needs_valid_state(config, plan, steps, actions, events, i - 1);
        if let ConstraintEvent::DdlRan(result) = events[i - 1] {
            assert(result is Ok);
            assert(result->Ok_0 == ());
            assert(result == Ok::<(), RetryError>(()));
        }
    }
}

/// Law: at the opening look of round `a`, a missing constraint is added
/// `NOT VALID` and an invalid one is validated, both within round `a`.
pub proof fn law_opening_look_decides(
    config: MigrationConfig,
    plan: ConstraintPlan,
    steps: Seq<ConstraintStep>,
    actions: Seq<ConstraintAction>,
    events: Seq<ConstraintEvent>,
    i: int,
)
    requires
        constraint_run(config, plan, steps, actions, events),
        0 <= i < steps.len() - 1,
        steps[i] is CheckingBefore,
    ensures
        events[i] == ConstraintEvent::StateFetched(Ok(ConstraintState::Missing)) ==> steps[i + 1]
            == (ConstraintStep::Adding { attempt: steps[i]->CheckingBefore_attempt }) && actions[i
            + 1] == ConstraintAction::RunDdl(plan.add_query),
        events[i] == ConstraintEvent::StateFetched(Ok(ConstraintState::Invalid)) ==> steps[i + 1]
            == (ConstraintStep::ValidatingExisting { attempt: steps[i]->CheckingBefore_attempt })
            && actions[i + 1] == ConstraintAction::RunDdl(plan.validate_query),
{
    assert(constraint_moves_at(config, plan, steps, actions, events, i));
}

/// Law: a round that ends (an existing invalid constraint was validated, or
/// a new one that stayed invalid was dropped, whatever came of the drop)
/// opens the next round with a fresh look, unless it was the last.
pub proof fn law_round_end_opens_next_round(
    config: MigrationConfig,
    plan: ConstraintPlan,
    steps: Seq<ConstraintStep>,
    actions: Seq<ConstraintAction>,
    events: Seq<ConstraintEvent>,
    i: int,
    attempt: u32,
)
    requires
        constraint_run(config, plan, steps, actions, events),
        0 <= i < steps.len() - 1,
        attempt < config.max_attempts,
        steps[i] == (ConstraintStep::DroppingInvalid { attempt }) || (steps[i]
            == (ConstraintStep::ValidatingExisting { attempt }) && events[i] matches ConstraintEvent::DdlRan(
            Ok(_),
        )),
    ensures
        steps[i + 1] == (ConstraintStep::CheckingBefore { attempt: (attempt + 1) as u32 }),
        actions[i + 1] == ConstraintAction::FetchState,
{
    assert(constraint_moves_at(config, plan, steps, actions, events, i));
}

/// Law: outside a dry run with at least one round allowed, a constraint
/// migration gives up with `InvalidState("Invalid state")` only when the
/// last round has ended: after validating an existing constraint, or after
/// dropping a new one that stayed invalid. (A failed catalog read ends the
/// migration with the read's own error, which is left out here.)
pub proof fn law_gives_up_only_after_last_round(
    config: MigrationConfig,
    plan: ConstraintPlan,
    steps: Seq<ConstraintStep>,
    actions: Seq<ConstraintAction>,
    events: Seq<ConstraintEvent>,
    i: int,
)
    requires
        constraint_run(config, plan, steps, actions, events),
        !config.dry_run,
        config.max_attempts >= 1,
        0 <= i < steps.len(),
        finishes_in_invalid_state(actions[i], "Invalid state"@),
        forall|j: int|
            0 <= j < i ==> !(#[trigger] events[j] matches ConstraintEvent::StateFetched(
                Err(AddConstraintError::InvalidState(_)),
            )),
    ensures
        i >= 1,
        steps[i - 1] == (ConstraintStep::ValidatingExisting { attempt: config.max_attempts })
            || steps[i - 1] == (ConstraintStep::DroppingInvalid { attempt: config.max_attempts }),
{
    if i >= 1 {
        lemma_constraint_run_prefix(config, plan, steps, actions, events, i - 1);
        assert(constraint_moves_at(config, plan, steps, actions, events, i - 1));
        assert(!(events[i - 1] matches ConstraintEvent::StateFetched(
            Err(AddConstraintError::InvalidState(_)),
        )));
        reveal_strlit("Invalid state");
        reveal_strlit("Invalid State");
        assert("Invalid state"@ != "Invalid State"@) by {
            assert("Invalid state"@[8] != "Invalid State"@[8]);
        }
    }
}

/// Law: once the follow-up statement has run, its outcome is the
/// migration's: success if it went through, else its error.
pub proof fn law_follow_up_outcome_is_final(
    config: MigrationConfig,
    plan: ConstraintPlan,
    steps: Seq<ConstraintStep>,
    actions: Seq<ConstraintAction>,
    events: Seq<ConstraintEvent>,
    i: int,
)
    requires
        constraint_run(config, plan, steps, actions, events),
        0 <= i < steps.len() - 1,
        steps[i] == ConstraintStep::FollowingUp,
    ensures
        steps[i + 1] == ConstraintStep::Finished,
        match events[i] {
            ConstraintEvent::DdlRan(Ok(_)) => actions[i + 1] == ConstraintAction::Finish(Ok(())),
            ConstraintEvent::DdlRan(Err(e)) => actions[i + 1] == ConstraintAction::Finish(
                Err(AddConstraintError::Retry(e)),
            ),
            _ => false,
        },
{
    assert(constraint_moves_at(config, plan, steps, actions, events, i));
}

} // verus!
