use pgmorph::config::MigrationConfig;
use pgmorph::db::retry::{retry_start, retry_step, RetryAction, RetryStep, LOCK_TIMEOUT_SQLSTATE};
use pgmorph::db::{backoff_millis, is_lock_timeout, DatabaseError, RetryError};

fn config(max_attempts: u32, dry_run: bool) -> MigrationConfig {
    MigrationConfig { lock_timeout: "5s".to_string(), max_attempts, base_backoff_ms: 200, dry_run }
}

fn lock_error() -> DatabaseError {
    DatabaseError { code: Some("55P03".to_string()), message: "canceling statement due to lock timeout".to_string() }
}

fn other_error() -> DatabaseError {
    DatabaseError { code: Some("42P01".to_string()), message: "relation does not exist".to_string() }
}

#[test]
fn default_config_values() {
    let c = MigrationConfig::default();
    assert_eq!(c.lock_timeout, "5s");
    assert_eq!(c.max_attempts, 5);
    assert_eq!(c.base_backoff_ms, 500);
    assert!(!c.dry_run);
}

#[test]
fn config_from_command_line() {
    let cli = pgmorph::cli::Cli {
        database_url: "host=x".to_string(),
        dry_run: true,
        lock_timeout: "2s".to_string(),
        max_attempts: 9,
        command: None,
    };
    let c = MigrationConfig::from_cli(&cli);
    assert_eq!(c.lock_timeout, "2s");
    assert_eq!(c.max_attempts, 9);
    assert_eq!(c.base_backoff_ms, 500);
    assert!(c.dry_run);
}

#[test]
fn lock_timeout_is_recognised_by_sqlstate() {
    assert_eq!(LOCK_TIMEOUT_SQLSTATE, "55P03");
    assert!(is_lock_timeout(&lock_error()));
    assert!(!is_lock_timeout(&other_error()));
    assert!(!is_lock_timeout(&DatabaseError { code: None, message: "io".to_string() }));
    assert!(!is_lock_timeout(&DatabaseError { code: Some("55P0".to_string()), message: String::new() }));
}

#[test]
fn backoff_values() {
    assert_eq!(backoff_millis(1, 500), 511);
    assert_eq!(backoff_millis(2, 500), 1023);
    assert_eq!(backoff_millis(3, 5), 23);
    assert_eq!(backoff_millis(1, 5), 6);
    assert_eq!(backoff_millis(0, 100), 100);
    assert_eq!(backoff_millis(12, 1), 1024 + (12 * 137) % 257);
    assert_eq!(backoff_millis(20, u64::MAX), u64::MAX);
}

#[test]
fn dry_run_prints_the_plan_and_succeeds() {
    let c = config(3, true);
    let (step, action) = retry_start(&c, "ALTER TABLE t ADD COLUMN x int");
    assert_eq!(step, RetryStep::DryRunShown);
    match action {
        RetryAction::Print(lines) => assert_eq!(
            lines,
            vec![
                "--dry-run: would execute the following statements".to_string(),
                "SET lock_timeout = '5s';".to_string(),
                "ALTER TABLE t ADD COLUMN x int;".to_string(),
            ]
        ),
        other => panic!("unexpected {:?}", other),
    }
    let (step, action) = retry_step(&c, "ALTER TABLE t ADD COLUMN x int", step, Ok(()));
    assert_eq!(step, RetryStep::Finished);
    assert!(matches!(action, RetryAction::Finish(Ok(()))));
}

#[test]
fn lock_timeout_is_retried_after_a_backoff() {
    let c = config(3, false);
    let stmt = "ALTER TABLE t ADD COLUMN x int";
    let (step, action) = retry_start(&c, stmt);
    assert_eq!(step, RetryStep::SettingLockTimeout { attempt: 1 });
    assert!(matches!(&action, RetryAction::Execute(sql) if sql == "SET lock_timeout = '5s'"));
    let (step, action) = retry_step(&c, stmt, step, Ok(()));
    assert_eq!(step, RetryStep::Executing { attempt: 1 });
    assert!(matches!(&action, RetryAction::Execute(sql) if sql == stmt));
    let (step, action) = retry_step(&c, stmt, step, Err(lock_error()));
    assert_eq!(step, RetryStep::BackingOff { attempt: 1 });
    match action {
        RetryAction::ReportLockTimeout { message, wait_ms } => {
            assert_eq!(message, "attempt 1/3: lock timeout (SQLSTATE 55P03), retrying...");
            assert_eq!(wait_ms, Some(backoff_millis(1, 3)));
        }
        other => panic!("unexpected {:?}", other),
    }
    let (step, _) = retry_step(&c, stmt, step, Ok(()));
    assert_eq!(step, RetryStep::SettingLockTimeout { attempt: 2 });
    let (step, _) = retry_step(&c, stmt, step, Ok(()));
    let (step, action) = retry_step(&c, stmt, step, Ok(()));
    assert_eq!(step, RetryStep::Finished);
    assert!(matches!(action, RetryAction::Finish(Ok(()))));
}

#[test]
fn exhausted_after_max_attempts() {
    let c = config(2, false);
    let stmt = "CREATE INDEX CONCURRENTLY i ON t (x)";
    let (mut step, mut action) = retry_start(&c, stmt);
    let mut executions = 0;
    loop {
        let outcome = match &action {
            RetryAction::Execute(sql) if sql == stmt => {
                executions += 1;
                Err(lock_error())
            }
            RetryAction::Finish(_) => break,
            RetryAction::ReportLockTimeout { wait_ms, .. } => {
                if executions == 2 {
                    assert_eq!(*wait_ms, None);
                }
                Ok(())
            }
            _ => Ok(()),
        };
        let next = retry_step(&c, stmt, step, outcome);
        step = next.0;
        action = next.1;
    }
    assert_eq!(executions, 2);
    match action {
        RetryAction::Finish(Err(e @ RetryError::LockTimeoutExhausted { attempts: 2 })) => {
            assert_eq!(e.to_string(), "Lock timeout exhausted attempts: 2")
        }
        other => panic!("unexpected {:?}", other),
    }
}

#[test]
fn other_errors_are_not_retried() {
    let c = config(5, false);
    let (step, _) = retry_start(&c, "s");
    let (step, _) = retry_step(&c, "s", step, Ok(()));
    let (step, action) = retry_step(&c, "s", step, Err(other_error()));
    assert_eq!(step, RetryStep::Finished);
    match action {
        RetryAction::Finish(Err(e @ RetryError::Database(_))) => {
            assert_eq!(e.to_string(), "Database error: relation does not exist")
        }
        other => panic!("unexpected {:?}", other),
    }
}

#[test]
fn failed_set_lock_timeout_ends_the_run() {
    let c = config(5, false);
    let (step, _) = retry_start(&c, "s");
    let (step, action) = retry_step(&c, "s", step, Err(other_error()));
    assert_eq!(step, RetryStep::Finished);
    assert!(matches!(action, RetryAction::Finish(Err(RetryError::Database(_)))));
}

#[test]
fn no_attempt_allowed() {
    let c = config(0, false);
    let (step, action) = retry_start(&c, "s");
    assert_eq!(step, RetryStep::Finished);
    assert!(matches!(action, RetryAction::Finish(Err(RetryError::LockTimeoutExhausted { attempts: 0 }))));
}
