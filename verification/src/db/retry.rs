//! Running one DDL statement under a lock timeout, retrying while the lock
//! cannot be had.
use crate::config::MigrationConfig;
use crate::text::{decimal, decimal_text};
use vstd::arithmetic::power2::{lemma2_to64, pow2};
use vstd::bits::lemma_u64_shl_is_mul;
use vstd::prelude::*;
use vstd::string::*;

verus! {

/// The SQLSTATE with which PostgreSQL reports that a lock could not be had
/// within `lock_timeout` (`lock_not_available`).
pub const LOCK_TIMEOUT_SQLSTATE: &'static str = "55P03";

/// An error that the database reported, as the library reads it: its
/// SQLSTATE code, when the server sent one, and its text.
#[derive(Debug, Clone)]
pub struct DatabaseError {
    pub code: Option<String>,
    pub message: String,
}

/// Why a statement run with retries did not go through.
#[derive(Debug)]
pub enum RetryError {
    /// Every attempt ran into the lock timeout.
    LockTimeoutExhausted { attempts: u32 },
    /// The database refused a statement for another reason.
    Database(DatabaseError),
}

/// The error is the lock timeout.
pub open spec fn is_lock_timeout_error(error: DatabaseError) -> bool {
    error.code matches Some(code) && code@ == LOCK_TIMEOUT_SQLSTATE@
}

/// Tells whether the database refused a statement because it ran into the
/// lock timeout.
pub fn is_lock_timeout(error: &DatabaseError) -> (r: bool)
    ensures
        r == is_lock_timeout_error(*error),
{
    match &error.code {
        Some(code) => crate::text::same_text(code.as_str(), LOCK_TIMEOUT_SQLSTATE),
        None => false,
    }
}

/// The wait before attempt `attempt + 1`, in milliseconds: `base_ms` doubled
/// once per earlier attempt (at most ten times, saturating), plus a jitter of
/// `137 * attempt` modulo a quarter of that, plus one (saturating).
pub open spec fn backoff_spec(attempt: u32, base_ms: u64) -> nat {
    let exponent: nat = if attempt <= 1 {
        0
    } else if attempt - 1 < 10 {
        (attempt - 1) as nat
    } else {
        10
    };
    let product = base_ms * pow2(exponent);
    let base: nat = if product > u64::MAX {
        u64::MAX as nat
    } else {
        product as nat
    };
    let jitter: nat = ((attempt as int * 137) % ((base / 4 + 1) as int)) as nat;
    if base + jitter > u64::MAX {
        u64::MAX as nat
    } else {
        base + jitter
    }
}

/// The wait before the attempt after `attempt`, in milliseconds.
pub fn backoff_millis(attempt: u32, base_ms: u64) -> (r: u64)
    ensures
        r == backoff_spec(attempt, base_ms),
{
    let earlier = attempt.saturating_sub(1);
    let exponent: u64 = if earlier < 10 {
        earlier as u64
    } else {
        10
    };
    proof {
        lemma2_to64();
        lemma_u64_shl_is_mul(1, exponent);
    }
    let factor: u64 = 1u64 << exponent;
    let base: u64 = match base_ms.checked_mul(factor) {
        Some(product) => product,
        None => u64::MAX,
    };
    let jitter: u64 = (attempt as u64 * 137) % (base / 4 + 1);
    base.saturating_add(jitter)
}

/// `SET lock_timeout = 'timeout'`
pub open spec fn set_lock_timeout_sql(timeout: Seq<char>) -> Seq<char> {
    "SET lock_timeout = '"@ + timeout + "'"@
}

/// The lines that a dry run prints instead of running `stmt`.
pub open spec fn dry_run_lines(timeout: Seq<char>, stmt: Seq<char>) -> Seq<Seq<char>> {
    seq![
        "--dry-run: would execute the following statements"@,
        set_lock_timeout_sql(timeout) + ";"@,
        stmt + ";"@,
    ]
}

/// The report written when attempt `attempt` of `max_attempts` ran into the
/// lock timeout.
pub open spec fn lock_timeout_report(attempt: nat, max_attempts: nat) -> Seq<char> {
    "attempt "@ + decimal(attempt) + "/"@ + decimal(max_attempts) + ": lock timeout (SQLSTATE "@
        + LOCK_TIMEOUT_SQLSTATE@ + "), retrying..."@
}

/// Where a retried statement stands between two round trips.
#[derive(Debug, Clone, Copy, PartialEq, Eq)]
pub enum RetryStep {
    /// The dry-run plan was handed out to be printed.
    DryRunShown,
    /// The `SET lock_timeout` of attempt `attempt` was handed out.
    SettingLockTimeout { attempt: u32 },
    /// The statement itself, at attempt `attempt`, was handed out.
    Executing { attempt: u32 },
    /// Attempt `attempt` ran into the lock timeout, and the report (with the
    /// wait, if another attempt follows) was handed out.
    BackingOff { attempt: u32 },
    /// The outcome was handed out; nothing is left to do.
    Finished,
}

/// What the caller is to do next for a retried statement.
#[derive(Debug)]
pub enum RetryAction {
    /// Print these lines to standard output.
    Print(Vec<String>),
    /// Run this statement, and report whether the database accepted it.
    Execute(String),
    /// Write this report to standard error, then wait so many milliseconds,
    /// if a wait is given.
    ReportLockTimeout { message: String, wait_ms: Option<u64> },
    /// The statement is done with; this is the outcome.
    Finish(Result<(), RetryError>),
}

/// The attempt numbers that a step holds are between one and the number of
/// attempts allowed.
pub open spec fn retry_step_within(max_attempts: u32, step: RetryStep) -> bool {
    match step {
        RetryStep::SettingLockTimeout { attempt } => 1 <= attempt <= max_attempts,
        RetryStep::Executing { attempt } => 1 <= attempt <= max_attempts,
        RetryStep::BackingOff { attempt } => 1 <= attempt <= max_attempts,
        _ => true,
    }
}

/// How many more times, at most, the statement itself can still be handed
/// out from `step`.
pub open spec fn executions_left(max_attempts: u32, step: RetryStep) -> int {
    match step {
        RetryStep::SettingLockTimeout { attempt } => max_attempts - attempt + 1,
        RetryStep::Executing { attempt } => max_attempts - attempt,
        RetryStep::BackingOff { attempt } => max_attempts - attempt,
        _ => 0,
    }
}

/// `action` runs `SET lock_timeout` with the configured timeout.
pub open spec fn sets_lock_timeout(config: MigrationConfig, action: RetryAction) -> bool {
    action matches RetryAction::Execute(sql) && sql@ == set_lock_timeout_sql(config.lock_timeout@)
}

/// The first step and action of running `stmt` under `config`: the dry-run
/// plan; or the `SET lock_timeout` of the first attempt; or, when no attempt
/// is allowed, the report that the attempts are exhausted.
pub open spec fn retry_begins(
    config: MigrationConfig,
    stmt: Seq<char>,
    step: RetryStep,
    action: RetryAction,
) -> bool {
    if config.dry_run {
        step == RetryStep::DryRunShown && (action matches RetryAction::Print(lines)
            && lines@.map_values(|l: String| l@) == dry_run_lines(config.lock_timeout@, stmt))
    } else if config.max_attempts >= 1 {
        step == (RetryStep::SettingLockTimeout { attempt: 1 }) && sets_lock_timeout(config, action)
    } else {
        step == RetryStep::Finished && action == RetryAction::Finish(
            Err(RetryError::LockTimeoutExhausted { attempts: 0 }),
        )
    }
}

/// The next round after attempt `attempt` ran into the lock timeout: the
/// `SET lock_timeout` of the next attempt, or, after the last one, the
/// report that the attempts are exhausted.
pub open spec fn retry_after_backoff(
    config: MigrationConfig,
    attempt: u32,
    next: RetryStep,
    action: RetryAction,
) -> bool {
    if attempt < config.max_attempts {
        next == (RetryStep::SettingLockTimeout { attempt: (attempt + 1) as u32 })
            && sets_lock_timeout(config, action)
    } else {
        next == RetryStep::Finished && action == RetryAction::Finish(
            Err(RetryError::LockTimeoutExhausted { attempts: config.max_attempts }),
        )
    }
}

/// One move of the retry loop: from `step`, given the outcome of the action
/// last handed out, to `next` with `action`.
///
/// - after the dry-run plan: success;
/// - after `SET lock_timeout`: its error is the outcome, else the statement
///   is run;
/// - after the statement: success; or, on a lock timeout, the report, with
///   the backoff of the attempt as the wait unless this was the last attempt
///   (the backoff's base is the number of attempts); any other error is the
///   outcome;
/// - after the report: the next attempt, or exhaustion.
pub open spec fn retry_moves(
    config: MigrationConfig,
    stmt: Seq<char>,
    step: RetryStep,
    outcome: Result<(), DatabaseError>,
    next: RetryStep,
    action: RetryAction,
) -> bool {
    match step {
        RetryStep::DryRunShown => next == RetryStep::Finished && action == RetryAction::Finish(
            Ok(()),
        ),
        RetryStep::SettingLockTimeout { attempt } => match outcome {
            Err(error) => next == RetryStep::Finished && action == RetryAction::Finish(
                Err(RetryError::Database(error)),
            ),
            Ok(()) => next == (RetryStep::Executing { attempt }) && (action matches RetryAction::Execute(
                sql,
            ) && sql@ == stmt),
        },
        RetryStep::Executing { attempt } => match outcome {
            Ok(()) => next == RetryStep::Finished && action == RetryAction::Finish(Ok(())),
            Err(error) => if is_lock_timeout_error(error) {
                next == (RetryStep::BackingOff { attempt }) && (action matches RetryAction::ReportLockTimeout {
                    message,
                    wait_ms,
                } && message@ == lock_timeout_report(attempt as nat, config.max_attempts as nat)
                    && wait_ms == if attempt < config.max_attempts {
                    Some(backoff_spec(attempt, config.max_attempts as u64) as u64)
                } else {
                    None
                })
            } else {
                next == RetryStep::Finished && action == RetryAction::Finish(
                    Err(RetryError::Database(error)),
                )
            },
        },
        RetryStep::BackingOff { attempt } => retry_after_backoff(config, attempt, next, action),
        RetryStep::Finished => false,
    }
}

fn set_lock_timeout_statement(timeout: &str) -> (r: String)
    ensures
        r@ == set_lock_timeout_sql(timeout@),
{
    let mut sql = String::from_str("SET lock_timeout = '");
    sql.append(timeout);
    sql.append("'");
    sql
}

/// Starts running `stmt` under `config` with retries.
pub fn retry_start(config: &MigrationConfig, stmt: &str) -> (r: (RetryStep, RetryAction))
    ensures
        retry_begins(*config, stmt@, r.0, r.1),
        retry_step_within(config.max_attempts, r.0),
        executions_left(config.max_attempts, r.0) <= config.max_attempts,
{
    if config.dry_run {
        let mut lines: Vec<String> = Vec::new();
        lines.push(String::from_str("--dry-run: would execute the following statements"));
        let mut set = set_lock_timeout_statement(config.lock_timeout.as_str());
        set.append(";");
        lines.push(set);
        let mut run = String::from_str(stmt);
        run.append(";");
        lines.push(run);
        assert(lines@.map_values(|l: String| l@) =~= dry_run_lines(config.lock_timeout@, stmt@));
        (RetryStep::DryRunShown, RetryAction::Print(lines))
    } else if config.max_attempts >= 1 {
        (
            RetryStep::SettingLockTimeout { attempt: 1 },
            RetryAction::Execute(set_lock_timeout_statement(config.lock_timeout.as_str())),
        )
    } else {
        (RetryStep::Finished, RetryAction::Finish(Err(RetryError::LockTimeoutExhausted { attempts: 0 })))
    }
}

fn lock_timeout_message(attempt: u32, max_attempts: u32) -> (r: String)
    ensures
        r@ == lock_timeout_report(attempt as nat, max_attempts as nat),
{
    let mut message = String::from_str("attempt ");
    message.append(decimal_text(attempt as u64).as_str());
    message.append("/");
    message.append(decimal_text(max_attempts as u64).as_str());
    message.append(": lock timeout (SQLSTATE ");
    message.append(LOCK_TIMEOUT_SQLSTATE);
    message.append("), retrying...");
    message
}

/// Moves the retry loop one step on, given the outcome of the action last
/// handed out (`Ok(())` after a print or a report).
pub fn retry_step(
    config: &MigrationConfig,
    stmt: &str,
    step: RetryStep,
    outcome: Result<(), DatabaseError>,
) -> (r: (RetryStep, RetryAction))
    requires
        step != RetryStep::Finished,
    ensures
        retry_moves(*config, stmt@, step, outcome, r.0, r.1),
        retry_step_within(config.max_attempts, step) ==> retry_step_within(
            config.max_attempts,
            r.0,
        ),
        retry_step_within(config.max_attempts, step) ==> executions_left(config.max_attempts, r.0)
            + (if r.0 is Executing {
            1int
        } else {
            0
        }) <= executions_left(config.max_attempts, step),
{
    match step {
        RetryStep::DryRunShown => (RetryStep::Finished, RetryAction::Finish(Ok(()))),
        RetryStep::SettingLockTimeout { attempt } => match outcome {
            Err(error) => (RetryStep::Finished, RetryAction::Finish(Err(RetryError::Database(error)))),
            Ok(()) => (RetryStep::Executing { attempt }, RetryAction::Execute(String::from_str(stmt))),
        },
        RetryStep::Executing { attempt } => match outcome {
            Ok(()) => (RetryStep::Finished, RetryAction::Finish(Ok(()))),
            Err(error) => {
                if is_lock_timeout(&error) {
                    let wait_ms = if attempt < config.max_attempts {
                        Some(backoff_millis(attempt, config.max_attempts as u64))
                    } else {
                        None
                    };
                    (
                        RetryStep::BackingOff { attempt },
                        RetryAction::ReportLockTimeout {
                            message: lock_timeout_message(attempt, config.max_attempts),
                            wait_ms,
                        },
                    )
                } else {
                    (RetryStep::Finished, RetryAction::Finish(Err(RetryError::Database(error))))
                }
            },
        },
        RetryStep::BackingOff { attempt } => {
            if attempt < config.max_attempts {
                (
                    RetryStep::SettingLockTimeout { attempt: attempt + 1 },
                    RetryAction::Execute(set_lock_timeout_statement(config.lock_timeout.as_str())),
                )
            } else {
                (
                    RetryStep::Finished,
                    RetryAction::Finish(
                        Err(RetryError::LockTimeoutExhausted { attempts: config.max_attempts }),
                    ),
                )
            }
        },
        RetryStep::Finished => (RetryStep::Finished, RetryAction::Finish(Ok(()))),
    }
}

/// The text of a retry error.
pub open spec fn retry_error_text(e: RetryError) -> Seq<char> {
    match e {
        RetryError::Database(error) => "Database error: "@ + error.message@,
        RetryError::LockTimeoutExhausted { attempts } => "Lock timeout exhausted attempts: "@
            + decimal(attempts as nat),
    }
}

impl RetryError {
    /// Describes the error for a person.
    pub fn to_string(&self) -> (r: String)
        ensures
            r@ == retry_error_text(*self),
    {
        match self {
            RetryError::Database(error) => {
                let mut text = String::from_str("Database error: ");
                text.append(error.message.as_str());
                text
            },
            RetryError::LockTimeoutExhausted { attempts } => {
                let mut text = String::from_str("Lock timeout exhausted attempts: ");
                text.append(decimal_text(*attempts as u64).as_str());
                text
            },
        }
    }
}

/// `steps` and `actions` are a run of the retry loop of `stmt` under
/// `config`: the first step and action are those of `retry_start`, and each
/// next one follows from the one before and the outcome reported for it.
pub open spec fn retry_run(
    config: MigrationConfig,
    stmt: Seq<char>,
    steps: Seq<RetryStep>,
    actions: Seq<RetryAction>,
    outcomes: Seq<Result<(), DatabaseError>>,
) -> bool {
    &&& steps.len() >= 1
    &&& actions.len() == steps.len()
    &&& outcomes.len() + 1 >= steps.len()
    &&& retry_begins(config, stmt, steps[0], actions[0])
    &&& forall|i: int|
        0 <= i < steps.len() - 1 ==> #[trigger] retry_moves_at(config, stmt, steps, actions, outcomes, i)
}

/// Step `i` of a run leads to step `i + 1`.
pub open spec fn retry_moves_at(
    config: MigrationConfig,
    stmt: Seq<char>,
    steps: Seq<RetryStep>,
    actions: Seq<RetryAction>,
    outcomes: Seq<Result<(), DatabaseError>>,
    i: int,
) -> bool {
    retry_moves(config, stmt, steps[i], outcomes[i], steps[i + 1], actions[i + 1])
}

/// How many steps of a run hand out the statement itself.
pub open spec fn statement_runs(steps: Seq<RetryStep>) -> int
    decreases steps.len(),
{
    if steps.len() == 0 {
        0
    } else {
        statement_runs(steps.drop_last()) + if steps.last() is Executing {
            1int
        } else {
            0
        }
    }
}

proof fn lemma_retry_run_prefix(
    config: MigrationConfig,
    stmt: Seq<char>,
    steps: Seq<RetryStep>,
    actions: Seq<RetryAction>,
    outcomes: Seq<Result<(), DatabaseError>>,
    k: int,
)
    requires
        retry_run(config, stmt, steps, actions, outcomes),
        0 <= k < steps.len(),
    ensures
        retry_step_within(config.max_attempts, steps[k]),
        0 <= executions_left(config.max_attempts, steps[k]),
        executions_left(config.max_attempts, steps[k]) + statement_runs(steps.take(k + 1))
            <= config.max_attempts,
    decreases k,
{
    if k == 0 {
        assert(steps.take(1).drop_last() =~= Seq::<RetryStep>::empty());
        assert(statement_runs(Seq::<RetryStep>::empty()) == 0);
        assert(steps.take(1).last() == steps[0]);
    } else {
        lemma_retry_run_prefix(config, stmt, steps, actions, outcomes, k - 1);
        assert(retry_moves_at(config, stmt, steps, actions, outcomes, k - 1));
        assert(steps.take(k + 1).drop_last() =~= steps.take(k));
        assert(steps.take(k + 1).last() == steps[k]);
    }
}

/// Law: whatever the database answers, a run of the retry loop hands out
/// the statement itself at most `max_attempts` times.
pub proof fn law_statement_sent_at_most_max_attempts(
    config: MigrationConfig,
    stmt: Seq<char>,
    steps: Seq<RetryStep>,
    actions: Seq<RetryAction>,
    outcomes: Seq<Result<(), DatabaseError>>,
)
    requires
        retry_run(config, stmt, steps, actions, outcomes),
    ensures
        statement_runs(steps) <= config.max_attempts,
{
    lemma_retry_run_prefix(config, stmt, steps, actions, outcomes, steps.len() - 1);
    assert(steps.take(steps.len() as int) =~= steps);
}

/// Law: each time the statement itself is handed out, the `SET lock_timeout`
/// of the same attempt was handed out just before and went through.
pub proof fn law_lock_timeout_set_before_statement(
    config: MigrationConfig,
    stmt: Seq<char>,
    steps: Seq<RetryStep>,
    actions: Seq<RetryAction>,
    outcomes: Seq<Result<(), DatabaseError>>,
    i: int,
)
    requires
        retry_run(config, stmt, steps, actions, outcomes),
        0 <= i < steps.len(),
        steps[i] is Executing,
    ensures
        i >= 1,
        steps[i] matches RetryStep::Executing { attempt } && steps[i - 1]
            == (RetryStep::SettingLockTimeout { attempt }),
        sets_lock_timeout(config, actions[i - 1]),
        outcomes[i - 1] is Ok,
        actions[i] matches RetryAction::Execute(sql) && sql@ == stmt,
{
    if i == 0 {
    } else {
        assert(retry_moves_at(config, stmt, steps, actions, outcomes, i - 1));
        if i - 1 == 0 {
        } else {
            assert(retry_moves_at(config, stmt, steps, actions, outcomes, i - 2));
        }
    }
}

/// Law: a dry run hands out its plan to be printed and then success, and
/// never a statement to run.
pub proof fn law_dry_run_runs_nothing(
    config: MigrationConfig,
    stmt: Seq<char>,
    steps: Seq<RetryStep>,
    actions: Seq<RetryAction>,
    outcomes: Seq<Result<(), DatabaseError>>,
)
    requires
        retry_run(config, stmt, steps, actions, outcomes),
        config.dry_run,
    ensures
        steps.len() <= 2,
        actions[0] is Print,
        steps.len() == 2 ==> actions[1] == RetryAction::Finish(Ok(())),
        forall|i: int| 0 <= i < steps.len() ==> !(#[trigger] actions[i] is Execute),
{
    if steps.len() >= 2 {
        assert(retry_moves_at(config, stmt, steps, actions, outcomes, 0));
    }
    if steps.len() >= 3 {
        assert(retry_moves_at(config, stmt, steps, actions, outcomes, 1));
    }
}

/// Law: only the lock timeout is retried: when the statement fails for any
/// other reason, the run ends at once with that error.
pub proof fn law_other_errors_end_the_run(
    config: MigrationConfig,
    stmt: Seq<char>,
    attempt: u32,
    error: DatabaseError,
    next: RetryStep,
    action: RetryAction,
)
    requires
        retry_moves(config, stmt, RetryStep::Executing { attempt }, Err(error), next, action),
        !is_lock_timeout_error(error),
    ensures
        next == RetryStep::Finished,
        action == RetryAction::Finish(Err(RetryError::Database(error))),
{
}

/// Law: when every attempt ran into the lock timeout, the run ends with
/// `LockTimeoutExhausted` naming the number of attempts allowed.
pub proof fn law_exhaustion_names_max_attempts(
    config: MigrationConfig,
    stmt: Seq<char>,
    step: RetryStep,
    outcome: Result<(), DatabaseError>,
    next: RetryStep,
    attempts: u32,
)
    requires
        retry_step_within(config.max_attempts, step),
        retry_moves(
            config,
            stmt,
            step,
            outcome,
            next,
            RetryAction::Finish(Err(RetryError::LockTimeoutExhausted { attempts })),
        ),
    ensures
        step == (RetryStep::BackingOff { attempt: config.max_attempts }),
        attempts == config.max_attempts,
{
}

/// Law: a lock timeout on any attempt is reported, with the backoff of that
/// attempt as the wait unless it was the last; once reported, the next
/// attempt opens with its own `SET lock_timeout`, or, after the last, the
/// run ends with `LockTimeoutExhausted`.
pub proof fn law_lock_timeout_is_retried(
    config: MigrationConfig,
    stmt: Seq<char>,
    steps: Seq<RetryStep>,
    actions: Seq<RetryAction>,
    outcomes: Seq<Result<(), DatabaseError>>,
    i: int,
    attempt: u32,
    error: DatabaseError,
)
    requires
        retry_run(config, stmt, steps, actions, outcomes),
        0 <= i < steps.len() - 1,
        steps[i] == (RetryStep::Executing { attempt }),
        outcomes[i] == Err::<(), DatabaseError>(error),
        is_lock_timeout_error(error),
    ensures
        steps[i + 1] == (RetryStep::BackingOff { attempt }),
        actions[i + 1] matches RetryAction::ReportLockTimeout { wait_ms, .. } && (wait_ms is Some
            <==> attempt < config.max_attempts) && (attempt < config.max_attempts ==> wait_ms
            == Some(backoff_spec(attempt, config.max_attempts as u64) as u64)),
        i + 2 < steps.len() ==> if attempt < config.max_attempts {
            steps[i + 2] == (RetryStep::SettingLockTimeout { attempt: (attempt + 1) as u32 })
                && sets_lock_timeout(config, actions[i + 2])
        } else {
            actions[i + 2] == RetryAction::Finish(
                Err(RetryError::LockTimeoutExhausted { attempts: config.max_attempts }),
            )
        },
{
    assert(retry_moves_at(config, stmt, steps, actions, outcomes, i));
    if i + 2 < steps.len() {
        assert(retry_moves_at(config, stmt, steps, actions, outcomes, i + 1));
    }
}

} // verus!
