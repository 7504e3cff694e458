use smol_thread_pool::runner::{
    advance_phase, outcome_action, run_plan, worker_count, worker_name, BodyOutcome, FinishAction,
    RunStep, RunnerPhase,
};

#[test]
fn worker_count_uses_reported_parallelism() {
    assert_eq!(worker_count(Some(8)), 8);
    assert_eq!(worker_count(Some(1)), 1);
}

#[test]
fn worker_count_falls_back_to_one() {
    assert_eq!(worker_count(None), 1);
    assert_eq!(worker_count(Some(0)), 1);
}

#[test]
fn worker_names_follow_the_convention() {
    assert_eq!(worker_name(0), "smol-macros-0");
    assert_eq!(worker_name(7), "smol-macros-7");
    assert_eq!(worker_name(12), "smol-macros-12");
    assert_eq!(worker_name(105), "smol-macros-105");
}

#[test]
fn run_plan_spawns_body_stop_joins_finish() {
    let plan = run_plan(2);
    assert_eq!(
        plan,
        vec![
            RunStep::Spawn(0),
            RunStep::Spawn(1),
            RunStep::RunBody,
            RunStep::FireStop,
            RunStep::Join(0),
            RunStep::Join(1),
            RunStep::Finish,
        ]
    );
}

#[test]
fn run_plan_single_worker() {
    let plan = run_plan(1);
    assert_eq!(
        plan,
        vec![
            RunStep::Spawn(0),
            RunStep::RunBody,
            RunStep::FireStop,
            RunStep::Join(0),
            RunStep::Finish,
        ]
    );
}

#[test]
fn stop_fired_exactly_once_and_before_every_join() {
    let plan = run_plan(3);
    let mut stops = 0;
    let mut stop_at = 0;
    for (k, step) in plan.iter().enumerate() {
        if *step == RunStep::FireStop {
            stops += 1;
            stop_at = k;
        }
    }
    assert_eq!(stops, 1);
    for (k, step) in plan.iter().enumerate() {
        if let RunStep::Join(_) = step {
            assert!(stop_at < k);
        }
        if *step == RunStep::RunBody {
            assert!(k < stop_at);
        }
    }
}

#[test]
fn every_spawned_worker_is_joined_before_finish() {
    let plan = run_plan(4);
    assert_eq!(*plan.last().unwrap(), RunStep::Finish);
    for i in 0..4usize {
        let spawn_at = plan.iter().position(|s| *s == RunStep::Spawn(i)).unwrap();
        let join_at = plan.iter().position(|s| *s == RunStep::Join(i)).unwrap();
        assert!(spawn_at < join_at);
        assert!(join_at < plan.len() - 1);
    }
}

#[test]
fn scenario_body_returns_value() {
    // A routine that completes with 42: the runner hands the value back
    // unchanged, after a plan that joins every worker.
    let plan = run_plan(2);
    assert_eq!(*plan.last().unwrap(), RunStep::Finish);
    match outcome_action(BodyOutcome::<i32, String>::Completed(42)) {
        FinishAction::ReturnValue(v) => assert_eq!(v, 42),
        FinishAction::Rethrow(_) => panic!("a completed routine must not re-raise"),
    }
}

#[test]
fn scenario_body_panics_with_boom() {
    // A routine that fails with "boom": the payload is re-raised verbatim,
    // and the plan fires the signal exactly once before the failure
    // propagates.
    let plan = run_plan(2);
    let stops = plan.iter().filter(|s| **s == RunStep::FireStop).count();
    assert_eq!(stops, 1);
    match outcome_action(BodyOutcome::<i32, String>::Panicked(String::from("boom"))) {
        FinishAction::ReturnValue(_) => panic!("a failed routine must not return a value"),
        FinishAction::Rethrow(p) => assert_eq!(p, "boom"),
    }
}

#[test]
fn phases_advance_in_order_and_terminal_is_final() {
    let mut p = RunnerPhase::Idle;
    let expected = [
        RunnerPhase::Spawning,
        RunnerPhase::Running,
        RunnerPhase::Stopping,
        RunnerPhase::Joined,
        RunnerPhase::Terminal,
        RunnerPhase::Terminal,
    ];
    for e in expected {
        p = advance_phase(p);
        assert_eq!(p, e);
    }
}
