//! The rounds of an index migration: look the index up (dropping an invalid
//! one), build it concurrently, look again, and start over after a backoff
//! while the build leaves an invalid index, up to the configured number of
//! rounds.
use crate::config::MigrationConfig;
use crate::db::direct::index::{
    build_create_index_sql, build_drop_index_sql, create_index_outcome, drop_index_sql,
    index_name_outcome, index_statement_names_valid, resolve_index_name, AddIndexArgs, AddIndexError, IndexState,
};
use crate::db::retry::{backoff_millis, backoff_spec, RetryError};
use crate::text::{decimal, decimal_text};
use vstd::prelude::*;
use vstd::string::*;

verus! {

/// Everything that an index migration runs, worked out before its first
/// round trip.
#[derive(Debug)]
pub struct IndexPlan {
    pub schema: String,
    pub index_name: String,
    /// Builds the index concurrently.
    pub index_query: String,
    /// Drops the index concurrently.
    pub drop_query: String,
}

/// `r` is what planning the index of `args` gives: the name is resolved,
/// then the build statement is made with it, then the drop statement.
pub open spec fn index_plan_outcome(args: AddIndexArgs, r: Result<IndexPlan, AddIndexError>) -> bool {
    match r {
        Ok(plan) => exists|name: String, create: String|
            index_name_outcome(args, Ok(name)) && create_index_outcome(args, name@, Ok(create))
                && plan.schema@ == args.schema@ && plan.index_name@ == name@ && plan.index_query@
                == create@ && plan.drop_query@ == drop_index_sql(args.schema@, name@),
        Err(e) => index_name_outcome(args, Err(e)) || exists|name: String|
            index_name_outcome(args, Ok(name)) && create_index_outcome(args, name@, Err(e)),
    }
}

/// Works out the statements of the index migration of `args`.
pub fn plan_add_index(args: &AddIndexArgs) -> (r: Result<IndexPlan, AddIndexError>)
    ensures
        index_plan_outcome(*args, r),
        r matches Ok(plan) ==> index_statement_names_valid(*args, plan.index_name@),
{
    let index_name = match resolve_index_name(args) {
        Ok(name) => name,
        Err(e) => return Err(e),
    };
    let index_query = match build_create_index_sql(args, index_name.as_str()) {
        Ok(q) => q,
        Err(e) => return Err(e),
    };
    let drop_query = match build_drop_index_sql(args.schema.as_str(), index_name.as_str()) {
        Ok(q) => q,
        Err(e) => {
            proof {
                crate::db::identifier::lemma_first_invalid_short(
                    seq![index_name@, args.table@, args.schema@],
                );
                crate::db::identifier::lemma_first_invalid_short(seq![args.schema@, index_name@]);
            }
            return Err(e);
        },
    };
    let plan = IndexPlan {
        schema: args.schema.clone(),
        index_name: index_name,
        index_query: index_query,
        drop_query: drop_query,
    };
    proof {
        let name = plan.index_name;
        let create = plan.index_query;
        assert(index_name_outcome(*args, Ok(name)));
        assert(create_index_outcome(*args, name@, Ok(create)));
    }
    Ok(plan)
}

/// Where an index migration stands between two round trips.
#[derive(Debug)]
pub enum IndexStep {
    /// Dry run: the banner was handed out to be printed.
    DryRunAnnounced,
    /// Dry run: the build statement was handed out.
    DryRunCreating,
    /// Round `attempt` opened by reading the index's state.
    CheckingBefore { attempt: u32 },
    /// The index was found valid, and that was handed out to be printed.
    AnnouncedValid { attempt: u32 },
    /// The index was found invalid, and that was handed out to be reported.
    ReportedInvalidBefore { attempt: u32 },
    /// Dropping the invalid index was handed out.
    DroppingBefore { attempt: u32 },
    /// The build statement was handed out.
    Creating { attempt: u32 },
    /// The state after the build was asked for; the build's error is kept.
    CheckingAfter { attempt: u32, create_error: Option<RetryError> },
    /// The index was built valid, and that was handed out to be printed.
    AnnouncedCreated,
    /// The build left an invalid index, and that was handed out to be reported.
    ReportedInvalidAfter { attempt: u32 },
    /// Dropping the invalid index was handed out.
    DroppingAfter { attempt: u32 },
    /// The wait before the next round was handed out.
    Waiting { attempt: u32 },
    /// The outcome was handed out; nothing is left to do.
    Finished,
}

/// What the caller is to do next for an index migration.
#[derive(Debug)]
pub enum IndexAction {
    /// Print this line to standard output.
    Print(String),
    /// Write this line to standard error.
    PrintError(String),
    /// Run this statement with retries (see `retry_start`), and report the
    /// outcome.
    RunDdl(String),
    /// Run `INDEX_STATE_QUERY` with the plan's schema and index name, and
    /// report the state read from its rows (see `index_state_from_rows`).
    FetchState,
    /// Wait so many milliseconds.
    Sleep(u64),
    /// The migration is over; this is its outcome.
    Finish(Result<(), AddIndexError>),
}

/// What came of the action last handed out.
#[derive(Debug)]
pub enum IndexEvent {
    /// The line was written, or the wait is over.
    Done,
    /// The statement ran, or failed.
    DdlRan(Result<(), RetryError>),
    /// The state was read, or reading it failed.
    StateFetched(Result<IndexState, AddIndexError>),
}

/// `event` is what `step` waits for.
pub open spec fn index_awaits(step: IndexStep, event: IndexEvent) -> bool {
    match step {
        IndexStep::DryRunCreating => event is DdlRan,
        IndexStep::DroppingBefore { .. } => event is DdlRan,
        IndexStep::Creating { .. } => event is DdlRan,
        IndexStep::DroppingAfter { .. } => event is DdlRan,
        IndexStep::CheckingBefore { .. } => event is StateFetched,
        IndexStep::CheckingAfter { .. } => event is StateFetched,
        IndexStep::Finished => false,
        _ => event is Done,
    }
}

impl IndexStep {
    /// Tells whether this step waits for `event`.
    pub fn awaits(&self, event: &IndexEvent) -> (r: bool)
        ensures
            r == index_awaits(*self, *event),
    {
        match self {
            IndexStep::DryRunCreating => matches!(event, IndexEvent::DdlRan(_)),
            IndexStep::DroppingBefore { .. } => matches!(event, IndexEvent::DdlRan(_)),
            IndexStep::Creating { .. } => matches!(event, IndexEvent::DdlRan(_)),
            IndexStep::DroppingAfter { .. } => matches!(event, IndexEvent::DdlRan(_)),
            IndexStep::CheckingBefore { .. } => matches!(event, IndexEvent::StateFetched(_)),
            IndexStep::CheckingAfter { .. } => matches!(event, IndexEvent::StateFetched(_)),
            IndexStep::Finished => false,
            _ => matches!(event, IndexEvent::Done),
        }
    }
}

/// The round number that a step holds, if it belongs to a round.
pub open spec fn index_round(step: IndexStep) -> Option<u32> {
    match step {
        IndexStep::CheckingBefore { attempt } => Some(attempt),
        IndexStep::AnnouncedValid { attempt } => Some(attempt),
        IndexStep::ReportedInvalidBefore { attempt } => Some(attempt),
        IndexStep::DroppingBefore { attempt } => Some(attempt),
        IndexStep::Creating { attempt } => Some(attempt),
        IndexStep::CheckingAfter { attempt, .. } => Some(attempt),
        IndexStep::ReportedInvalidAfter { attempt } => Some(attempt),
        IndexStep::DroppingAfter { attempt } => Some(attempt),
        IndexStep::Waiting { attempt } => Some(attempt),
        _ => None,
    }
}

/// The round numbers that a step holds are between one and the number of
/// rounds allowed.
pub open spec fn index_step_within(max_attempts: u32, step: IndexStep) -> bool {
    index_round(step) matches Some(attempt) ==> 1 <= attempt <= max_attempts
}

/// How many more rounds, at most, can still open after `step`.
pub open spec fn index_rounds_left(max_attempts: u32, step: IndexStep) -> int {
    match index_round(step) {
        Some(attempt) => max_attempts - attempt,
        None => 0,
    }
}

/// `name is already exists and valid`
pub open spec fn already_valid_message(index_name: Seq<char>) -> Seq<char> {
    index_name + " is already exists and valid"@
}

/// `attempt a/max: found invalid index 'name'. Dropping before recreating them`
pub open spec fn invalid_before_message(attempt: nat, max_attempts: nat, index_name: Seq<char>) -> Seq<char> {
    "attempt "@ + decimal(attempt) + "/"@ + decimal(max_attempts) + ": found invalid index '"@
        + index_name + "'. Dropping before recreating them"@
}

/// `attempt a/max: found invalid index 'name'"`
pub open spec fn invalid_after_message(attempt: nat, max_attempts: nat, index_name: Seq<char>) -> Seq<char> {
    "attempt "@ + decimal(attempt) + "/"@ + decimal(max_attempts) + ": found invalid index '"@
        + index_name + "'\""@
}

/// The message given when the build went through but no index is found.
pub open spec fn vanished_message(index_name: Seq<char>) -> Seq<char> {
    "CREATE INDEX CONCURRENTLY finisehd but '"@ + index_name + "' not found"@
}

/// `action` ends the migration with `InvalidIndexPersisted` for the plan's
/// index after `attempts` rounds.
pub open spec fn finishes_persisted(plan: IndexPlan, attempts: u32, action: IndexAction) -> bool {
    action matches IndexAction::Finish(Err(AddIndexError::InvalidIndexPersisted { index_name, attempts: a }))
        && index_name@ == plan.index_name@ && a == attempts
}

/// The first step and action of an index migration: the dry-run banner; or
/// the first round's look at the index; or, when no round is allowed, the
/// end with `InvalidIndexPersisted` after no attempt.
pub open spec fn index_begins(
    config: MigrationConfig,
    plan: IndexPlan,
    step: IndexStep,
    action: IndexAction,
) -> bool {
    if config.dry_run {
        step == IndexStep::DryRunAnnounced && (action matches IndexAction::Print(line) && line@
            == "-- dry-run --"@)
    } else if config.max_attempts >= 1 {
        step == (IndexStep::CheckingBefore { attempt: 1 }) && action == IndexAction::FetchState
    } else {
        step == IndexStep::Finished && finishes_persisted(plan, 0, action)
    }
}

/// A failed statement ends the migration with its error; a statement that
/// went through leads to `then_next` with `then_action`.
pub open spec fn unless_failed(
    result: Result<(), RetryError>,
    next: IndexStep,
    action: IndexAction,
    then_next: IndexStep,
    then_action: IndexAction,
) -> bool {
    match result {
        Err(e) => next == IndexStep::Finished && action == IndexAction::Finish(
            Err(AddIndexError::Retry(e)),
        ),
        Ok(()) => next == then_next && action == then_action,
    }
}

/// One move of an index migration, from `step` and the outcome of the action
/// it handed out to `next` with `action`:
///
/// - dry run: the build statement, whose outcome is the migration's;
/// - at the opening look: a valid index is announced, an invalid one is
///   reported and dropped, and then (as for a missing one) the index is
///   built, whatever comes of the build;
/// - at the closing look: a valid index is announced and the migration
///   succeeds; an invalid one is reported and dropped, and, unless this was
///   the last round, the round's backoff is waited before the next round;
///   after the last round the migration ends with `InvalidIndexPersisted`;
///   a missing one ends it with the build's error, or, if the build went
///   through, with `InvalidColumns`;
/// - a failure to read the state ends the migration with that error; a
///   failed drop or dry-run build ends it with the statement's error.
pub open spec fn index_moves(
    config: MigrationConfig,
    plan: IndexPlan,
    step: IndexStep,
    event: IndexEvent,
    next: IndexStep,
    action: IndexAction,
) -> bool {
    match (step, event) {
        (IndexStep::DryRunAnnounced, IndexEvent::Done) => next == IndexStep::DryRunCreating
            && action == IndexAction::RunDdl(plan.index_query),
        (IndexStep::DryRunCreating, IndexEvent::DdlRan(result)) => unless_failed(
            result,
            next,
            action,
            IndexStep::Finished,
            IndexAction::Finish(Ok(())),
        ),
        (IndexStep::CheckingBefore { attempt }, IndexEvent::StateFetched(fetched)) => match fetched {
            Err(e) => next == IndexStep::Finished && action == IndexAction::Finish(Err(e)),
            Ok(IndexState::Valid) => next == (IndexStep::AnnouncedValid { attempt }) && (
            action matches IndexAction::Print(line) && line@ == already_valid_message(
                plan.index_name@,
            )),
            Ok(IndexState::Invalid) => next == (IndexStep::ReportedInvalidBefore { attempt }) && (
            action matches IndexAction::PrintError(line) && line@ == invalid_before_message(
                attempt as nat,
                config.max_attempts as nat,
                plan.index_name@,
            )),
            Ok(IndexState::Missing) => next == (IndexStep::Creating { attempt }) && action
                == IndexAction::RunDdl(plan.index_query),
        },
        (IndexStep::AnnouncedValid { attempt }, IndexEvent::Done) => next == (IndexStep::Creating {
            attempt,
        }) && action == IndexAction::RunDdl(plan.index_query),
        (IndexStep::ReportedInvalidBefore { attempt }, IndexEvent::Done) => next
            == (IndexStep::DroppingBefore { attempt }) && action == IndexAction::RunDdl(
            plan.drop_query,
        ),
        (IndexStep::DroppingBefore { attempt }, IndexEvent::DdlRan(result)) => unless_failed(
            result,
            next,
            action,
            IndexStep::Creating { attempt },
            IndexAction::RunDdl(plan.index_query),
        ),
        (IndexStep::Creating { attempt }, IndexEvent::DdlRan(result)) => next
            == (IndexStep::CheckingAfter {
            attempt,
            create_error: match result {
                Ok(()) => None,
                Err(e) => Some(e),
            },
        }) && action == IndexAction::FetchState,
        (IndexStep::CheckingAfter { attempt, create_error }, IndexEvent::StateFetched(fetched)) => match fetched {
            Err(e) => next == IndexStep::Finished && action == IndexAction::Finish(Err(e)),
            Ok(IndexState::Valid) => next == IndexStep::AnnouncedCreated && (
            action matches IndexAction::Print(line) && line@ == "Index created successfully"@),
            Ok(IndexState::Invalid) => next == (IndexStep::ReportedInvalidAfter { attempt }) && (
            action matches IndexAction::PrintError(line) && line@ == invalid_after_message(
                attempt as nat,
                config.max_attempts as nat,
                plan.index_name@,
            )),
            Ok(IndexState::Missing) => next == IndexStep::Finished && match create_error {
                Some(e) => action == IndexAction::Finish(Err(AddIndexError::Retry(e))),
                None => action matches IndexAction::Finish(
                    Err(AddIndexError::InvalidColumns { message }),
                ) && message@ == vanished_message(plan.index_name@),
            },
        },
        (IndexStep::AnnouncedCreated, IndexEvent::Done) => next == IndexStep::Finished && action
            == IndexAction::Finish(Ok(())),
        (IndexStep::ReportedInvalidAfter { attempt }, IndexEvent::Done) => next
            == (IndexStep::DroppingAfter { attempt }) && action == IndexAction::RunDdl(
            plan.drop_query,
        ),
        (IndexStep::DroppingAfter { attempt }, IndexEvent::DdlRan(result)) => match result {
            Err(e) => next == IndexStep::Finished && action == IndexAction::Finish(
                Err(AddIndexError::Retry(e)),
            ),
            Ok(()) => if attempt < config.max_attempts {
                next == (IndexStep::Waiting { attempt }) && action == IndexAction::Sleep(
                    backoff_spec(attempt, config.base_backoff_ms) as u64,
                )
            } else {
                next == IndexStep::Finished && finishes_persisted(plan, config.max_attempts, action)
            },
        },
        (IndexStep::Waiting { attempt }, IndexEvent::Done) => if attempt < config.max_attempts {
            next == (IndexStep::CheckingBefore { attempt: (attempt + 1) as u32 }) && action
                == IndexAction::FetchState
        } else {
            next == IndexStep::Finished && finishes_persisted(plan, config.max_attempts, action)
        },
        _ => false,
    }
}

/// Starts an index migration.
pub fn index_start(config: &MigrationConfig, plan: &IndexPlan) -> (r: (IndexStep, IndexAction))
    ensures
        index_begins(*config, *plan, r.0, r.1),
        index_step_within(config.max_attempts, r.0),
        index_rounds_left(config.max_attempts, r.0) + (if r.0 is CheckingBefore {
            1int
        } else {
            0
        }) <= config.max_attempts,
{
    if config.dry_run {
        (IndexStep::DryRunAnnounced, IndexAction::Print(String::from_str("-- dry-run --")))
    } else if config.max_attempts >= 1 {
        (IndexStep::CheckingBefore { attempt: 1 }, IndexAction::FetchState)
    } else {
        (
            IndexStep::Finished,
            IndexAction::Finish(
                Err(
                    AddIndexError::InvalidIndexPersisted {
                        index_name: plan.index_name.clone(),
                        attempts: 0,
                    },
                ),
            ),
        )
    }
}

fn attempt_prefix(attempt: u32, max_attempts: u32) -> (r: String)
    ensures
        r@ == "attempt "@ + decimal(attempt as nat) + "/"@ + decimal(max_attempts as nat),
{
    let mut line = String::from_str("attempt ");
    line.append(decimal_text(attempt as u64).as_str());
    line.append("/");
    line.append(decimal_text(max_attempts as u64).as_str());
    line
}

/// Moves an index migration one step on, given what came of the action last
/// handed out.
pub fn index_step(
    config: &MigrationConfig,
    plan: &IndexPlan,
    step: IndexStep,
    event: IndexEvent,
) -> (r: (IndexStep, IndexAction))
    requires
        index_awaits(step, event),
    ensures
        index_moves(*config, *plan, step, event, r.0, r.1),
        step is CheckingBefore && event == IndexEvent::StateFetched(Ok(IndexState::Missing)) ==> r.0
            == (IndexStep::Creating { attempt: step->CheckingBefore_attempt }) && r.1
            == IndexAction::RunDdl(plan.index_query),
        index_step_within(config.max_attempts, step) ==> index_step_within(
            config.max_attempts,
            r.0,
        ),
        index_step_within(config.max_attempts, step) ==> index_rounds_left(
            config.max_attempts,
            r.0,
        ) + (if r.0 is CheckingBefore {
            1int
        } else {
            0
        }) <= index_rounds_left(config.max_attempts, step),
{
    match (step, event) {
        (IndexStep::DryRunAnnounced, _) => (
            IndexStep::DryRunCreating,
            IndexAction::RunDdl(plan.index_query.clone()),
        ),
        (IndexStep::DryRunCreating, IndexEvent::DdlRan(result)) => match result {
            Err(e) => (IndexStep::Finished, IndexAction::Finish(Err(AddIndexError::Retry(e)))),
            Ok(()) => (IndexStep::Finished, IndexAction::Finish(Ok(()))),
        },
        (IndexStep::CheckingBefore { attempt }, IndexEvent::StateFetched(fetched)) => match fetched {
            Err(e) => (IndexStep::Finished, IndexAction::Finish(Err(e))),
            Ok(IndexState::Valid) => {
                let mut line = plan.index_name.clone();
                line.append(" is already exists and valid");
                (IndexStep::AnnouncedValid { attempt }, IndexAction::Print(line))
            },
            Ok(IndexState::Invalid) => {
                let mut line = attempt_prefix(attempt, config.max_attempts);
                line.append(": found invalid index '");
                line.append(plan.index_name.as_str());
                line.append("'. Dropping before recreating them");
                (IndexStep::ReportedInvalidBefore { attempt }, IndexAction::PrintError(line))
            },
            Ok(IndexState::Missing) => (
                IndexStep::Creating { attempt },
                IndexAction::RunDdl(plan.index_query.clone()),
            ),
        },
        (IndexStep::AnnouncedValid { attempt }, _) => (
            IndexStep::Creating { attempt },
            IndexAction::RunDdl(plan.index_query.clone()),
        ),
        (IndexStep::ReportedInvalidBefore { attempt }, _) => (
            IndexStep::DroppingBefore { attempt },
            IndexAction::RunDdl(plan.drop_query.clone()),
        ),
        (IndexStep::DroppingBefore { attempt }, IndexEvent::DdlRan(result)) => match result {
            Err(e) => (IndexStep::Finished, IndexAction::Finish(Err(AddIndexError::Retry(e)))),
            Ok(()) => (IndexStep::Creating { attempt }, IndexAction::RunDdl(plan.index_query.clone())),
        },
        (IndexStep::Creating { attempt }, IndexEvent::DdlRan(result)) => {
            let create_error = match result {
                Ok(()) => None,
                Err(e) => Some(e),
            };
            (IndexStep::CheckingAfter { attempt, create_error }, IndexAction::FetchState)
        },
        (IndexStep::CheckingAfter { attempt, create_error }, IndexEvent::StateFetched(fetched)) => match fetched {
            Err(e) => (IndexStep::Finished, IndexAction::Finish(Err(e))),
            Ok(IndexState::Valid) => (
                IndexStep::AnnouncedCreated,
                IndexAction::Print(String::from_str("Index created successfully")),
            ),
            Ok(IndexState::Invalid) => {
                let mut line = attempt_prefix(attempt, config.max_attempts);
                line.append(": found invalid index '");
                line.append(plan.index_name.as_str());
                line.append("'\"");
                (IndexStep::ReportedInvalidAfter { attempt }, IndexAction::PrintError(line))
            },
            Ok(IndexState::Missing) => match create_error {
                Some(e) => (IndexStep::Finished, IndexAction::Finish(Err(AddIndexError::Retry(e)))),
                None => {
                    let mut message = String::from_str("CREATE INDEX CONCURRENTLY finisehd but '");
                    message.append(plan.index_name.as_str());
                    message.append("' not found");
                    (
                        IndexStep::Finished,
                        IndexAction::Finish(Err(AddIndexError::InvalidColumns { message })),
                    )
                },
            },
        },
        (IndexStep::AnnouncedCreated, _) => (IndexStep::Finished, IndexAction::Finish(Ok(()))),
        (IndexStep::ReportedInvalidAfter { attempt }, _) => (
            IndexStep::DroppingAfter { attempt },
            IndexAction::RunDdl(plan.drop_query.clone()),
        ),
        (IndexStep::DroppingAfter { attempt }, IndexEvent::DdlRan(result)) => match result {
            Err(e) => (IndexStep::Finished, IndexAction::Finish(Err(AddIndexError::Retry(e)))),
            Ok(()) => {
                if attempt < config.max_attempts {
                    (
                        IndexStep::Waiting { attempt },
                        IndexAction::Sleep(backoff_millis(attempt, config.base_backoff_ms)),
                    )
                } else {
                    (
                        IndexStep::Finished,
                        IndexAction::Finish(
                            Err(
                                AddIndexError::InvalidIndexPersisted {
                                    index_name: plan.index_name.clone(),
                                    attempts: config.max_attempts,
                                },
                            ),
                        ),
                    )
                }
            },
        },
        (IndexStep::Waiting { attempt }, _) => {
            if attempt < config.max_attempts {
                (IndexStep::CheckingBefore { attempt: attempt + 1 }, IndexAction::FetchState)
            } else {
                (
                    IndexStep::Finished,
                    IndexAction::Finish(
                        Err(
                            AddIndexError::InvalidIndexPersisted {
                                index_name: plan.index_name.clone(),
                                attempts: config.max_attempts,
                            },
                        ),
                    ),
                )
            }
        },
        _ => (IndexStep::Finished, IndexAction::Finish(Ok(()))),
    }
}

/// Step `i` of a run leads to step `i + 1`.
pub open spec fn index_moves_at(
    config: MigrationConfig,
    plan: IndexPlan,
    steps: Seq<IndexStep>,
    actions: Seq<IndexAction>,
    events: Seq<IndexEvent>,
    i: int,
) -> bool {
    index_moves(config, plan, steps[i], events[i], steps[i + 1], actions[i + 1])
}

/// `steps` and `actions` are a run of an index migration of `plan` under
/// `config`: the first step and action are those of `index_start`, and each
/// next one follows from the one before and the event reported for it.
pub open spec fn index_run(
    config: MigrationConfig,
    plan: IndexPlan,
    steps: Seq<IndexStep>,
    actions: Seq<IndexAction>,
    events: Seq<IndexEvent>,
) -> bool {
    &&& steps.len() >= 1
    &&& actions.len() == steps.len()
    &&& events.len() + 1 >= steps.len()
    &&& index_begins(config, plan, steps[0], actions[0])
    &&& forall|i: int|
        0 <= i < steps.len() - 1 ==> #[trigger] index_moves_at(config, plan, steps, actions, events, i)
}

/// A step that only a dry run takes.
pub open spec fn is_index_dry_run_step(step: IndexStep) -> bool {
    step is DryRunAnnounced || step is DryRunCreating
}

/// How many rounds a run opened.
pub open spec fn index_rounds_opened(steps: Seq<IndexStep>) -> int
    decreases steps.len(),
{
    if steps.len() == 0 {
        0
    } else {
        index_rounds_opened(steps.drop_last()) + if steps.last() is CheckingBefore {
            1int
        } else {
            0
        }
    }
}

proof fn lemma_index_run_prefix(
    config: MigrationConfig,
    plan: IndexPlan,
    steps: Seq<IndexStep>,
    actions: Seq<IndexAction>,
    events: Seq<IndexEvent>,
    k: int,
)
    requires
        index_run(config, plan, steps, actions, events),
        0 <= k < steps.len(),
    ensures
        index_step_within(config.max_attempts, steps[k]),
        0 <= index_rounds_left(config.max_attempts, steps[k]),
        index_rounds_left(config.max_attempts, steps[k]) + index_rounds_opened(steps.take(k + 1))
            <= config.max_attempts,
        !config.dry_run ==> !is_index_dry_run_step(steps[k]),
        config.dry_run ==> is_index_dry_run_step(steps[k]) || steps[k] is Finished,
        steps[k] is Waiting ==> steps[k]->Waiting_attempt < config.max_attempts,
    decreases k,
{
    if k == 0 {
        assert(steps.take(1).drop_last() =~= Seq::<IndexStep>::empty());
        assert(index_rounds_opened(Seq::<IndexStep>::empty()) == 0);
        assert(steps.take(1).last() == steps[0]);
    } else {
        lemma_index_run_prefix(config, plan, steps, actions, events, k - 1);
        assert(index_moves_at(config, plan, steps, actions, events, k - 1));
        assert(steps.take(k + 1).drop_last() =~= steps.take(k));
        assert(steps.take(k + 1).last() == steps[k]);
    }
}

/// Law: whatever the database answers, an index migration opens at most
/// `max_attempts` rounds.
pub proof fn law_index_rounds_bounded(
    config: MigrationConfig,
    plan: IndexPlan,
    steps: Seq<IndexStep>,
    actions: Seq<IndexAction>,
    events: Seq<IndexEvent>,
)
    requires
        index_run(config, plan, steps, actions, events),
    ensures
        index_rounds_opened(steps) <= config.max_attempts,
{
    lemma_index_run_prefix(config, plan, steps, actions, events, steps.len() - 1);
    assert(steps.take(steps.len() as int) =~= steps);
}

/// Law: outside a dry run, an index migration reports success only once
/// the catalog has shown the index valid after a build.
pub proof fn law_index_success_needs_valid_index(
    config: MigrationConfig,
    plan: IndexPlan,
    steps: Seq<IndexStep>,
    actions: Seq<IndexAction>,
    events: Seq<IndexEvent>,
    i: int,
)
    requires
        index_run(config, plan, steps, actions, events),
        !config.dry_run,
        0 <= i < steps.len(),
        actions[i] == IndexAction::Finish(Ok(())),
    ensures
        i >= 2,
        steps[i - 2] is CheckingAfter,
        events[i - 2] == IndexEvent::StateFetched(Ok(IndexState::Valid)),
{
    if i >= 1 {
        lemma_index_run_prefix(config, plan, steps, actions, events, i - 1);
        assert(index_moves_at(config, plan, steps, actions, events, i - 1));
        if i >= 2 {
            assert(index_moves_at(config, plan, steps, actions, events, i - 2));
        } else {
            assert(steps[0] is CheckingBefore || steps[0] is Finished);
        }
    }
}

/// Law: an index that the catalog shows invalid is dropped before anything
/// else is run: after the report, the next statement is the drop.
pub proof fn law_invalid_index_dropped_first(
    config: MigrationConfig,
    plan: IndexPlan,
    steps: Seq<IndexStep>,
    actions: Seq<IndexAction>,
    events: Seq<IndexEvent>,
    i: int,
)
    requires
        index_run(config, plan, steps, actions, events),
        0 <= i < steps.len() - 2,
        steps[i] is CheckingBefore || steps[i] is CheckingAfter,
        events[i] == IndexEvent::StateFetched(Ok(IndexState::Invalid)),
    ensures
        actions[i + 1] is PrintError,
        actions[i + 2] == IndexAction::RunDdl(plan.drop_query),
{
    assert(index_moves_at(config, plan, steps, actions, events, i));
    assert(index_moves_at(config, plan, steps, actions, events, i + 1));
}

/// Law: a dry run never reads the catalog, drops, or waits: it hands out
/// the banner, then the build statement once, then its outcome.
pub proof fn law_index_dry_run_only_builds(
    config: MigrationConfig,
    plan: IndexPlan,
    steps: Seq<IndexStep>,
    actions: Seq<IndexAction>,
    events: Seq<IndexEvent>,
    i: int,
)
    requires
        index_run(config, plan, steps, actions, events),
        config.dry_run,
        0 <= i < steps.len(),
    ensures
        !(actions[i] is FetchState),
        !(actions[i] is Sleep),
        actions[i] is RunDdl ==> actions[i] == IndexAction::RunDdl(plan.index_query),
        steps.len() <= 3,
{
    lemma_index_run_prefix(config, plan, steps, actions, events, i);
    if i > 0 {
        lemma_index_run_prefix(config, plan, steps, actions, events, i - 1);
        assert(index_moves_at(config, plan, steps, actions, events, i - 1));
    }
    if steps.len() > 3 {
        assert(index_moves_at(config, plan, steps, actions, events, 0));
        assert(index_moves_at(config, plan, steps, actions, events, 1));
        assert(index_moves_at(config, plan, steps, actions, events, 2));
    }
}

/// Law: adding an index that is already there and valid drops nothing. When
/// the opening look shows the index valid, the run announces it, hands out
/// the build statement (which is `IF NOT EXISTS`) and looks again; when that
/// look shows it valid too, the run announces success and ends with `Ok`.
/// No drop is ever handed out, and no statement other than the build.
pub proof fn law_index_already_valid_is_kept(
    config: MigrationConfig,
    plan: IndexPlan,
    steps: Seq<IndexStep>,
    actions: Seq<IndexAction>,
    events: Seq<IndexEvent>,
)
    requires
        index_run(config, plan, steps, actions, events),
        !config.dry_run,
        steps.len() >= 2,
        events[0] == IndexEvent::StateFetched(Ok(IndexState::Valid)),
        steps.len() >= 5 ==> events[3] == IndexEvent::StateFetched(Ok(IndexState::Valid)),
    ensures
        steps.len() <= 6,
        forall|i: int|
            0 <= i < steps.len() ==> !(#[trigger] steps[i] is DroppingBefore) && !(
            steps[i] is DroppingAfter),
        forall|i: int|
            0 <= i < steps.len() ==> (#[trigger] actions[i] is RunDdl ==> actions[i]
                == IndexAction::RunDdl(plan.index_query)),
        steps.len() >= 3 ==> actions[2] == IndexAction::RunDdl(plan.index_query),
        steps.len() == 6 ==> actions[5] == IndexAction::Finish(Ok(())),
{
    assert(index_moves_at(config, plan, steps, actions, events, 0));
    if steps.len() >= 3 {
        assert(index_moves_at(config, plan, steps, actions, events, 1));
    }
    if steps.len() >= 4 {
        assert(index_moves_at(config, plan, steps, actions, events, 2));
    }
    if steps.len() >= 5 {
        assert(index_moves_at(config, plan, steps, actions, events, 3));
    }
    if steps.len() >= 6 {
        assert(index_moves_at(config, plan, steps, actions, events, 4));
    }
    if steps.len() >= 7 {
        assert(index_moves_at(config, plan, steps, actions, events, 5));
    }
}

/// Law: at the opening look of any round, a missing index leads to the
/// build statement.
pub proof fn law_missing_index_is_built(
    config: MigrationConfig,
    plan: IndexPlan,
    steps: Seq<IndexStep>,
    actions: Seq<IndexAction>,
    events: Seq<IndexEvent>,
    i: int,
)
    requires
        index_run(config, plan, steps, actions, events),
        0 <= i < steps.len() - 1,
        steps[i] is CheckingBefore,
        events[i] == IndexEvent::StateFetched(Ok(IndexState::Missing)),
    ensures
        steps[i + 1] == (IndexStep::Creating { attempt: steps[i]->CheckingBefore_attempt }),
        actions[i + 1] == IndexAction::RunDdl(plan.index_query),
{
    assert(index_moves_at(config, plan, steps, actions, events, i));
}

/// Law: outside a dry run with at least one round allowed, an index
/// migration ends with `InvalidIndexPersisted` only after the look that
/// closes the last round showed the index invalid, and the invalid index
/// was then dropped without error. (A failed catalog read ends the
/// migration with the read's own error, which is left out here.)
pub proof fn law_persisted_only_after_last_round_invalid(
    config: MigrationConfig,
    plan: IndexPlan,
    steps: Seq<IndexStep>,
    actions: Seq<IndexAction>,
    events: Seq<IndexEvent>,
    i: int,
)
    requires
        index_run(config, plan, steps, actions, events),
        !config.dry_run,
        config.max_attempts >= 1,
        0 <= i < steps.len(),
        actions[i] matches IndexAction::Finish(Err(AddIndexError::InvalidIndexPersisted { .. })),
        forall|j: int|
            0 <= j < i ==> !(#[trigger] events[j] matches IndexEvent::StateFetched(
                Err(AddIndexError::InvalidIndexPersisted { .. }),
            )),
    ensures
        i >= 3,
        steps[i - 3] matches IndexStep::CheckingAfter { attempt, .. } && attempt
            == config.max_attempts,
        events[i - 3] == IndexEvent::StateFetched(Ok(IndexState::Invalid)),
        actions[i - 1] == IndexAction::RunDdl(plan.drop_query),
        steps[i - 1] == (IndexStep::DroppingAfter { attempt: config.max_attempts }),
        events[i - 1] matches IndexEvent::DdlRan(Ok(_)),
{
    if i >= 1 {
        lemma_index_run_prefix(config, plan, steps, actions, events, i - 1);
        assert(index_moves_at(config, plan, steps, actions, events, i - 1));
        assert(!(events[i - 1] matches IndexEvent::StateFetched(
            Err(AddIndexError::InvalidIndexPersisted { .. }),
        )));
        assert(steps[i - 1] is DroppingAfter);
        assert(i >= 2);
        assert(index_moves_at(config, plan, steps, actions, events, i - 2));
        assert(steps[i - 2] is ReportedInvalidAfter);
        assert(i >= 3);
        assert(index_moves_at(config, plan, steps, actions, events, i - 3));
    }
}

/// Law: at the opening look of any round, an index found valid is
/// announced and then built (`IF NOT EXISTS`), and one found invalid is
/// reported, dropped, and, once the drop went through, built again.
pub proof fn law_opening_look_leads_to_build(
    config: MigrationConfig,
    plan: IndexPlan,
    steps: Seq<IndexStep>,
    actions: Seq<IndexAction>,
    events: Seq<IndexEvent>,
    i: int,
)
    requires
        index_run(config, plan, steps, actions, events),
        0 <= i < steps.len() - 2,
        steps[i] is CheckingBefore,
    ensures
        events[i] == IndexEvent::StateFetched(Ok(IndexState::Valid)) ==> actions[i + 1] is Print
            && actions[i + 2] == IndexAction::RunDdl(plan.index_query),
        events[i] == IndexEvent::StateFetched(Ok(IndexState::Invalid)) ==> actions[i + 1] is PrintError
            && actions[i + 2] == IndexAction::RunDdl(plan.drop_query) && (i + 3 < steps.len() && (
        events[i + 2] matches IndexEvent::DdlRan(Ok(_))) ==> actions[i + 3] == IndexAction::RunDdl(
            plan.index_query,
        )),
{
    assert(index_moves_at(config, plan, steps, actions, events, i));
    assert(index_moves_at(config, plan, steps, actions, events, i + 1));
    if i + 3 < steps.len() {
        assert(index_moves_at(config, plan, steps, actions, events, i + 2));
    }
}

/// Law: an index migration waits only between two rounds: after the index
/// of round `a`, short of the last, was found invalid and dropped; and the
/// wait is the backoff of round `a`.
pub proof fn law_index_waits_between_rounds(
    config: MigrationConfig,
    plan: IndexPlan,
    steps: Seq<IndexStep>,
    actions: Seq<IndexAction>,
    events: Seq<IndexEvent>,
    i: int,
)
    requires
        index_run(config, plan, steps, actions, events),
        0 <= i < steps.len(),
        actions[i] is Sleep,
    ensures
        i >= 1,
        steps[i] matches IndexStep::Waiting { attempt } && attempt < config.max_attempts
            && actions[i] == IndexAction::Sleep(backoff_spec(attempt, config.base_backoff_ms) as u64)
            && steps[i - 1] == (IndexStep::DroppingAfter { attempt }),
        events[i - 1] matches IndexEvent::DdlRan(Ok(_)),
{
    if i >= 1 {
        assert(index_moves_at(config, plan, steps, actions, events, i - 1));
    }
}

/// Law: once the wait after round `a` is over, round `a + 1` opens with a
/// fresh look at the index.
pub proof fn law_index_next_round_after_wait(
    config: MigrationConfig,
    plan: IndexPlan,
    steps: Seq<IndexStep>,
    actions: Seq<IndexAction>,
    events: Seq<IndexEvent>,
    i: int,
)
    requires
        index_run(config, plan, steps, actions, events),
        0 <= i < steps.len() - 1,
        steps[i] is Waiting,
    ensures
        steps[i + 1] == (IndexStep::CheckingBefore {
            attempt: (steps[i]->Waiting_attempt + 1) as u32,
        }),
        actions[i + 1] == IndexAction::FetchState,
{
    lemma_index_run_prefix(config, plan, steps, actions, events, i);
    assert(index_moves_at(config, plan, steps, actions, events, i));
}

/// Law: when the look after a build, in any round, shows the index valid,
/// the success is announced and the migration ends with `Ok`.
pub proof fn law_valid_after_build_succeeds(
    config: MigrationConfig,
    plan: IndexPlan,
    steps: Seq<IndexStep>,
    actions: Seq<IndexAction>,
    events: Seq<IndexEvent>,
    i: int,
)
    requires
        index_run(config, plan, steps, actions, events),
        0 <= i < steps.len() - 1,
        steps[i] is CheckingAfter,
        events[i] == IndexEvent::StateFetched(Ok(IndexState::Valid)),
    ensures
        actions[i + 1] matches IndexAction::Print(line) && line@ == "Index created successfully"@,
        i + 2 < steps.len() ==> steps[i + 2] == IndexStep::Finished && actions[i + 2]
            == IndexAction::Finish(Ok(())),
{
    assert(index_moves_at(config, plan, steps, actions, events, i));
    if i + 2 < steps.len() {
        assert(index_moves_at(config, plan, steps, actions, events, i + 1));
    }
}

} // verus!
