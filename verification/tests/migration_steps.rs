use pgmorph::config::MigrationConfig;
use pgmorph::db::direct::index::INDEX_STATE_QUERY;
use pgmorph::db::{
    constraint_start, constraint_step, index_start, index_step, plan_add_check, plan_add_index, plan_add_non_null,
    AddCheckArgs, AddConstraintError, AddIndexArgs, AddIndexError, AddNonNullArgs, ConstraintAction,
    ConstraintEvent, ConstraintState, ConstraintStep, DatabaseError, IndexAction, IndexEvent, IndexState,
    IndexStep, RetryError,
};

fn config(max_attempts: u32, dry_run: bool) -> MigrationConfig {
    MigrationConfig { lock_timeout: "5s".to_string(), max_attempts, base_backoff_ms: 200, dry_run }
}

fn check_plan() -> pgmorph::db::ConstraintPlan {
    plan_add_check(&AddCheckArgs {
        schema: "public".to_string(),
        table: "t".to_string(),
        constraint_name: "c".to_string(),
        rule: "x > 0".to_string(),
    })
    .unwrap()
}

fn non_null_plan() -> pgmorph::db::ConstraintPlan {
    plan_add_non_null(&AddNonNullArgs {
        schema: "public".to_string(),
        table: "t".to_string(),
        column: "x".to_string(),
    })
    .unwrap()
}

#[test]
fn constraint_added_and_validated() {
    let c = config(3, false);
    let plan = non_null_plan();
    let (step, action) = constraint_start(&c);
    assert_eq!(step, ConstraintStep::CheckingBefore { attempt: 1 });
    assert!(matches!(action, ConstraintAction::FetchState));
    let event = ConstraintEvent::StateFetched(Ok(ConstraintState::Missing));
    assert!(step.awaits(&event));
    let (step, action) = constraint_step(&c, &plan, step, event);
    assert!(matches!(&action, ConstraintAction::RunDdl(q) if *q == plan.add_query));
    let (step, action) = constraint_step(&c, &plan, step, ConstraintEvent::DdlRan(Ok(())));
    assert!(matches!(&action, ConstraintAction::RunDdl(q) if *q == plan.validate_query));
    // the outcome of the validation is not looked at: the state is read again
    let failed = Err(RetryError::LockTimeoutExhausted { attempts: 3 });
    let (step, action) = constraint_step(&c, &plan, step, ConstraintEvent::DdlRan(failed));
    assert!(matches!(action, ConstraintAction::FetchState));
    let (step, action) =
        constraint_step(&c, &plan, step, ConstraintEvent::StateFetched(Ok(ConstraintState::Valid)));
    assert_eq!(step, ConstraintStep::FollowingUp);
    assert!(matches!(&action, ConstraintAction::RunDdl(q) if Some(q) == plan.post_query.as_ref()));
    let (step, action) = constraint_step(&c, &plan, step, ConstraintEvent::DdlRan(Ok(())));
    assert_eq!(step, ConstraintStep::Finished);
    assert!(matches!(action, ConstraintAction::Finish(Ok(()))));
}

#[test]
fn invalid_constraint_is_dropped_and_retried_until_rounds_run_out() {
    let c = config(2, false);
    let plan = check_plan();
    let (mut step, mut action) = constraint_start(&c);
    let mut drops = 0;
    let mut fetches = 0;
    let result = loop {
        let event = match &action {
            ConstraintAction::FetchState => {
                fetches += 1;
                ConstraintEvent::StateFetched(Ok(if matches!(step, ConstraintStep::CheckingBefore { .. }) {
                    ConstraintState::Missing
                } else {
                    ConstraintState::Invalid
                }))
            }
            ConstraintAction::RunDdl(q) => {
                if *q == plan.drop_query {
                    drops += 1;
                }
                ConstraintEvent::DdlRan(Ok(()))
            }
            ConstraintAction::Print(_) => ConstraintEvent::Printed,
            ConstraintAction::Finish(_) => break action,
        };
        assert!(step.awaits(&event));
        let next = constraint_step(&c, &plan, step, event);
        step = next.0;
        action = next.1;
    };
    assert_eq!(drops, 2);
    assert_eq!(fetches, 4);
    match result {
        ConstraintAction::Finish(Err(e @ AddConstraintError::InvalidState(_))) => {
            assert_eq!(e.to_string(), "invalid state: Invalid state")
        }
        other => panic!("unexpected {:?}", other),
    }
}

#[test]
fn existing_invalid_constraint_is_validated() {
    let c = config(3, false);
    let plan = check_plan();
    let (step, _) = constraint_start(&c);
    let (step, action) =
        constraint_step(&c, &plan, step, ConstraintEvent::StateFetched(Ok(ConstraintState::Invalid)));
    assert_eq!(step, ConstraintStep::ValidatingExisting { attempt: 1 });
    assert!(matches!(&action, ConstraintAction::RunDdl(q) if *q == plan.validate_query));
    let (step, action) = constraint_step(&c, &plan, step, ConstraintEvent::DdlRan(Ok(())));
    assert_eq!(step, ConstraintStep::CheckingBefore { attempt: 2 });
    assert!(matches!(action, ConstraintAction::FetchState));
    let (_, action) =
        constraint_step(&c, &plan, step, ConstraintEvent::StateFetched(Ok(ConstraintState::Valid)));
    assert!(matches!(action, ConstraintAction::Finish(Ok(()))));
}

#[test]
fn constraint_vanishing_after_add_is_an_invalid_state() {
    let c = config(3, false);
    let plan = check_plan();
    let (step, _) = constraint_start(&c);
    let (step, _) = constraint_step(&c, &plan, step, ConstraintEvent::StateFetched(Ok(ConstraintState::Missing)));
    let (step, _) = constraint_step(&c, &plan, step, ConstraintEvent::DdlRan(Ok(())));
    let (step, _) = constraint_step(&c, &plan, step, ConstraintEvent::DdlRan(Ok(())));
    let (_, action) =
        constraint_step(&c, &plan, step, ConstraintEvent::StateFetched(Ok(ConstraintState::Missing)));
    match action {
        ConstraintAction::Finish(Err(AddConstraintError::InvalidState(s))) => assert_eq!(s, "Invalid State"),
        other => panic!("unexpected {:?}", other),
    }
}

#[test]
fn failed_add_ends_with_its_error() {
    let c = config(3, false);
    let plan = check_plan();
    let (step, _) = constraint_start(&c);
    let (step, _) = constraint_step(&c, &plan, step, ConstraintEvent::StateFetched(Ok(ConstraintState::Missing)));
    let error = RetryError::Database(DatabaseError { code: None, message: "boom".to_string() });
    let (_, action) = constraint_step(&c, &plan, step, ConstraintEvent::DdlRan(Err(error)));
    match action {
        ConstraintAction::Finish(Err(e @ AddConstraintError::Retry(_))) => {
            assert_eq!(e.to_string(), "retry error: Database error: boom")
        }
        other => panic!("unexpected {:?}", other),
    }
}

#[test]
fn constraint_dry_run_runs_each_statement_once() {
    let c = config(3, true);
    let plan = non_null_plan();
    let (step, action) = constraint_start(&c);
    assert!(matches!(&action, ConstraintAction::Print(l) if l == "-- dry-run --"));
    let (step, a1) = constraint_step(&c, &plan, step, ConstraintEvent::Printed);
    let (step, a2) = constraint_step(&c, &plan, step, ConstraintEvent::DdlRan(Ok(())));
    let (step, a3) = constraint_step(&c, &plan, step, ConstraintEvent::DdlRan(Ok(())));
    let (step, a4) = constraint_step(&c, &plan, step, ConstraintEvent::DdlRan(Ok(())));
    assert!(matches!(&a1, ConstraintAction::RunDdl(q) if *q == plan.add_query));
    assert!(matches!(&a2, ConstraintAction::RunDdl(q) if *q == plan.validate_query));
    assert!(matches!(&a3, ConstraintAction::RunDdl(q) if Some(q) == plan.post_query.as_ref()));
    assert!(matches!(a4, ConstraintAction::Finish(Ok(()))));
    assert_eq!(step, ConstraintStep::Finished);
}

fn index_plan() -> pgmorph::db::IndexPlan {
    plan_add_index(&AddIndexArgs {
        schema: "public".to_string(),
        table: "workload".to_string(),
        index_name: Some("workload_payload_idx".to_string()),
        columns: vec!["payload".to_string()],
        unique: false,
    })
    .unwrap()
}

#[test]
fn index_plan_statements() {
    let plan = index_plan();
    assert_eq!(plan.index_name, "workload_payload_idx");
    assert_eq!(
        plan.index_query,
        "CREATE INDEX CONCURRENTLY IF NOT EXISTS \"workload_payload_idx\" ON \"public\".\"workload\" (\"payload\")"
    );
    assert_eq!(plan.drop_query, "DROP INDEX CONCURRENTLY IF EXISTS \"public\".\"workload_payload_idx\"");
    assert!(INDEX_STATE_QUERY.contains("c.relkind = 'i'"));
}

#[test]
fn index_built_on_first_round() {
    let c = config(5, false);
    let plan = index_plan();
    let (step, action) = index_start(&c, &plan);
    assert!(matches!(action, IndexAction::FetchState));
    let (step, action) = index_step(&c, &plan, step, IndexEvent::StateFetched(Ok(IndexState::Missing)));
    assert!(matches!(&action, IndexAction::RunDdl(q) if *q == plan.index_query));
    let (step, action) = index_step(&c, &plan, step, IndexEvent::DdlRan(Ok(())));
    assert!(matches!(action, IndexAction::FetchState));
    let (step, action) = index_step(&c, &plan, step, IndexEvent::StateFetched(Ok(IndexState::Valid)));
    assert!(matches!(&action, IndexAction::Print(l) if l == "Index created successfully"));
    let (step, action) = index_step(&c, &plan, step, IndexEvent::Done);
    assert!(matches!(step, IndexStep::Finished));
    assert!(matches!(action, IndexAction::Finish(Ok(()))));
}

#[test]
fn invalid_index_is_dropped_waited_and_rebuilt() {
    let c = config(3, false);
    let plan = index_plan();
    let (step, _) = index_start(&c, &plan);
    let (step, action) = index_step(&c, &plan, step, IndexEvent::StateFetched(Ok(IndexState::Invalid)));
    assert!(matches!(&action, IndexAction::PrintError(l)
        if l == "attempt 1/3: found invalid index 'workload_payload_idx'. Dropping before recreating them"));
    let (step, action) = index_step(&c, &plan, step, IndexEvent::Done);
    assert!(matches!(&action, IndexAction::RunDdl(q) if *q == plan.drop_query));
    let (step, action) = index_step(&c, &plan, step, IndexEvent::DdlRan(Ok(())));
    assert!(matches!(&action, IndexAction::RunDdl(q) if *q == plan.index_query));
    let (step, _) = index_step(&c, &plan, step, IndexEvent::DdlRan(Ok(())));
    let (step, action) = index_step(&c, &plan, step, IndexEvent::StateFetched(Ok(IndexState::Invalid)));
    assert!(matches!(&action, IndexAction::PrintError(l)
        if l == "attempt 1/3: found invalid index 'workload_payload_idx'\""));
    let (step, action) = index_step(&c, &plan, step, IndexEvent::Done);
    assert!(matches!(&action, IndexAction::RunDdl(q) if *q == plan.drop_query));
    let (step, action) = index_step(&c, &plan, step, IndexEvent::DdlRan(Ok(())));
    assert!(matches!(action, IndexAction::Sleep(ms) if ms == pgmorph::db::backoff_millis(1, 200)));
    let (step, action) = index_step(&c, &plan, step, IndexEvent::Done);
    assert!(matches!(step, IndexStep::CheckingBefore { attempt: 2 }));
    assert!(matches!(action, IndexAction::FetchState));
}

#[test]
fn index_left_invalid_every_round() {
    let c = config(2, false);
    let plan = index_plan();
    let (mut step, mut action) = index_start(&c, &plan);
    let mut sleeps = 0;
    let result = loop {
        let event = match &action {
            IndexAction::FetchState => IndexEvent::StateFetched(Ok(IndexState::Invalid)),
            IndexAction::RunDdl(_) => IndexEvent::DdlRan(Ok(())),
            IndexAction::Sleep(_) => {
                sleeps += 1;
                IndexEvent::Done
            }
            IndexAction::Print(_) | IndexAction::PrintError(_) => IndexEvent::Done,
            IndexAction::Finish(_) => break action,
        };
        assert!(step.awaits(&event));
        let next = index_step(&c, &plan, step, event);
        step = next.0;
        action = next.1;
    };
    assert_eq!(sleeps, 1);
    match result {
        IndexAction::Finish(Err(e @ AddIndexError::InvalidIndexPersisted { attempts: 2, .. })) => {
            assert_eq!(e.to_string(), "index workload_payload_idx already exists at attempt 2")
        }
        other => panic!("unexpected {:?}", other),
    }
}

#[test]
fn index_missing_after_build_reports_the_build_error() {
    let c = config(3, false);
    let plan = index_plan();
    let (step, _) = index_start(&c, &plan);
    let (step, _) = index_step(&c, &plan, step, IndexEvent::StateFetched(Ok(IndexState::Missing)));
    let error = RetryError::LockTimeoutExhausted { attempts: 3 };
    let (step, _) = index_step(&c, &plan, step, IndexEvent::DdlRan(Err(error)));
    let (_, action) = index_step(&c, &plan, step, IndexEvent::StateFetched(Ok(IndexState::Missing)));
    assert!(matches!(action, IndexAction::Finish(Err(AddIndexError::Retry(RetryError::LockTimeoutExhausted { attempts: 3 })))));

    let (step, _) = index_start(&c, &plan);
    let (step, _) = index_step(&c, &plan, step, IndexEvent::StateFetched(Ok(IndexState::Missing)));
    let (step, _) = index_step(&c, &plan, step, IndexEvent::DdlRan(Ok(())));
    let (_, action) = index_step(&c, &plan, step, IndexEvent::StateFetched(Ok(IndexState::Missing)));
    match action {
        IndexAction::Finish(Err(AddIndexError::InvalidColumns { message })) => assert_eq!(
            message,
            "CREATE INDEX CONCURRENTLY finisehd but 'workload_payload_idx' not found"
        ),
        other => panic!("unexpected {:?}", other),
    }
}

#[test]
fn index_valid_before_is_announced_then_built() {
    let c = config(3, false);
    let plan = index_plan();
    let (step, _) = index_start(&c, &plan);
    let (step, action) = index_step(&c, &plan, step, IndexEvent::StateFetched(Ok(IndexState::Valid)));
    assert!(matches!(&action, IndexAction::Print(l) if l == "workload_payload_idx is already exists and valid"));
    let (_, action) = index_step(&c, &plan, step, IndexEvent::Done);
    assert!(matches!(&action, IndexAction::RunDdl(q) if *q == plan.index_query));
}

#[test]
fn index_dry_run() {
    let c = config(3, true);
    let plan = index_plan();
    let (step, action) = index_start(&c, &plan);
    assert!(matches!(&action, IndexAction::Print(l) if l == "-- dry-run --"));
    let (step, action) = index_step(&c, &plan, step, IndexEvent::Done);
    assert!(matches!(&action, IndexAction::RunDdl(q) if *q == plan.index_query));
    let (_, action) = index_step(&c, &plan, step, IndexEvent::DdlRan(Ok(())));
    assert!(matches!(action, IndexAction::Finish(Ok(()))));
}

#[test]
fn index_already_valid_is_kept_without_drop() {
    let c = config(5, false);
    let plan = index_plan();
    let (mut step, mut action) = index_start(&c, &plan);
    let mut statements = Vec::new();
    let result = loop {
        let event = match &action {
            IndexAction::FetchState => IndexEvent::StateFetched(Ok(IndexState::Valid)),
            IndexAction::RunDdl(q) => {
                statements.push(q.clone());
                IndexEvent::DdlRan(Ok(()))
            }
            IndexAction::Print(_) | IndexAction::PrintError(_) | IndexAction::Sleep(_) => IndexEvent::Done,
            IndexAction::Finish(_) => break action,
        };
        let next = index_step(&c, &plan, step, event);
        step = next.0;
        action = next.1;
    };
    assert_eq!(statements, vec![plan.index_query.clone()]);
    assert!(matches!(result, IndexAction::Finish(Ok(()))));
}

#[test]
fn constraint_already_valid_runs_only_the_follow_up() {
    let c = config(5, false);
    let plan = non_null_plan();
    let (step, _) = constraint_start(&c);
    let (step, action) = constraint_step(&c, &plan, step, ConstraintEvent::StateFetched(Ok(ConstraintState::Valid)));
    assert!(matches!(&action, ConstraintAction::RunDdl(q) if Some(q) == plan.post_query.as_ref()));
    let (_, action) = constraint_step(&c, &plan, step, ConstraintEvent::DdlRan(Ok(())));
    assert!(matches!(action, ConstraintAction::Finish(Ok(()))));

    let plan = check_plan();
    let (step, _) = constraint_start(&c);
    let (step, action) = constraint_step(&c, &plan, step, ConstraintEvent::StateFetched(Ok(ConstraintState::Valid)));
    assert_eq!(step, ConstraintStep::Finished);
    assert!(matches!(action, ConstraintAction::Finish(Ok(()))));
}
