use harmonic::action::{Action, ActionKind, ActionState};
use harmonic::engine::{Run, Step};
use harmonic::plan::InstallPlan;
use harmonic::planner::DarwinMulti;

fn scenario_plan() -> InstallPlan {
    DarwinMulti::new(false, "Nix Store".to_string(), Some("disk1".to_string()))
        .plan(&[])
        .unwrap()
}

/// Drives a run to its end; `fails` says which steps report failure. Returns
/// every step asked for, in order.
fn drive(run: &mut Run, fails: &dyn Fn(Step) -> bool) -> Vec<Step> {
    let mut steps = Vec::new();
    loop {
        let step = run.next_step();
        if step == Step::Finished {
            return steps;
        }
        steps.push(step);
        let outcome = if fails(step) { Err(format!("{:?} failed", step)) } else { Ok(()) };
        run.complete(outcome);
    }
}

fn states(run: &Run) -> Vec<ActionState> {
    run.plan.actions.iter().map(|a| a.state).collect()
}

#[test]
fn execute_all_succeed() {
    let mut run = Run::execute(scenario_plan());
    let steps = drive(&mut run, &|_| false);
    assert_eq!(
        steps,
        vec![Step::Execute(0), Step::Execute(1), Step::Execute(2), Step::Execute(3)]
    );
    assert!(run.failure.is_none());
    assert!(run.revert_attempts.is_empty());
    assert_eq!(states(&run), vec![ActionState::Completed; 4]);
}

#[test]
fn create_volume_fails_no_revert() {
    let mut run = Run::execute(scenario_plan());
    let steps = drive(&mut run, &|s| s == Step::Execute(0));
    assert_eq!(steps, vec![Step::Execute(0)]);
    let failure = run.failure.as_ref().unwrap();
    assert_eq!(failure.index, 0);
    assert!(matches!(run.plan.actions[0].kind, ActionKind::CreateVolume { .. }));
    assert!(run.revert_attempts.is_empty());
    assert!(run.reverted.is_empty());
    assert!(run.revert_failures.is_empty());
    assert_eq!(states(&run), vec![ActionState::Uncompleted; 4]);
}

#[test]
fn provision_fails_reverts_create_volume_once() {
    let mut run = Run::execute(scenario_plan());
    let steps = drive(&mut run, &|s| s == Step::Execute(1));
    assert_eq!(steps, vec![Step::Execute(0), Step::Execute(1), Step::Revert(0)]);
    assert_eq!(run.failure.as_ref().unwrap().index, 1);
    assert_eq!(run.reverted, vec![0]);
    assert_eq!(run.revert_attempts, vec![0]);
    assert!(run.revert_failures.is_empty());
    assert!(run.rolled_back_cleanly());
    assert_eq!(
        states(&run),
        vec![
            ActionState::Reverted,
            ActionState::Uncompleted,
            ActionState::Uncompleted,
            ActionState::Uncompleted
        ]
    );
}

#[test]
fn failure_at_last_action_reverts_in_descending_order() {
    let mut run = Run::execute(scenario_plan());
    let steps = drive(&mut run, &|s| s == Step::Execute(3));
    assert_eq!(
        &steps[4..],
        &[Step::Revert(2), Step::Revert(1), Step::Revert(0)]
    );
    assert_eq!(run.revert_attempts, vec![2, 1, 0]);
    assert_eq!(run.reverted, vec![2, 1, 0]);
}

#[test]
fn revert_failures_are_collected_and_rollback_goes_on() {
    let mut run = Run::execute(scenario_plan());
    let steps = drive(&mut run, &|s| s == Step::Execute(3) || s == Step::Revert(1));
    assert_eq!(
        &steps[4..],
        &[Step::Revert(2), Step::Revert(1), Step::Revert(0)]
    );
    assert_eq!(run.revert_attempts, vec![2, 1, 0]);
    assert_eq!(run.reverted, vec![2, 0]);
    assert_eq!(run.revert_failures.len(), 1);
    assert_eq!(run.revert_failures[0].index, 1);
    assert_eq!(run.revert_failures[0].message, "Revert(1) failed");
    assert_eq!(run.plan.actions[1].state, ActionState::Completed);
    assert!(!run.rolled_back_cleanly());
}

#[test]
fn execute_skips_completed_actions() {
    let mut plan = scenario_plan();
    plan.actions[0].state = ActionState::Completed;
    plan.actions[2].state = ActionState::Completed;
    let mut run = Run::execute(plan);
    let steps = drive(&mut run, &|_| false);
    assert_eq!(steps, vec![Step::Execute(1), Step::Execute(3)]);
}

#[test]
fn standalone_revert_only_touches_completed() {
    let mut plan = scenario_plan();
    plan.actions[0].state = ActionState::Completed;
    plan.actions[2].state = ActionState::Reverted;
    let mut run = Run::revert(plan);
    let steps = drive(&mut run, &|_| false);
    assert_eq!(steps, vec![Step::Revert(0)]);
    assert_eq!(run.reverted, vec![0]);
    assert!(run.failure.is_none());
}

#[test]
fn action_execute_is_idempotent() {
    let mut a = Action::planned(ActionKind::ProvisionSoftware);
    assert!(a.needs_execute());
    a.record_execute(true);
    assert_eq!(a.state, ActionState::Completed);
    assert!(!a.needs_execute());
    a.record_execute(false);
    assert_eq!(a.state, ActionState::Completed);
    let mut b = Action::planned(ActionKind::ConfigureSoftware);
    b.record_execute(false);
    assert_eq!(b.state, ActionState::Uncompleted);
}

#[test]
fn action_revert_is_idempotent() {
    let mut a = Action::planned(ActionKind::ProvisionSoftware);
    assert!(!a.needs_revert());
    a.record_revert(true);
    assert_eq!(a.state, ActionState::Uncompleted);
    a.record_execute(true);
    assert!(a.needs_revert());
    a.record_revert(false);
    assert_eq!(a.state, ActionState::Completed);
    a.record_revert(true);
    assert_eq!(a.state, ActionState::Reverted);
    assert!(!a.needs_revert());
    a.record_revert(true);
    assert_eq!(a.state, ActionState::Reverted);
}

#[test]
fn empty_plan_finishes_at_once() {
    let mut plan = scenario_plan();
    plan.actions.clear();
    let mut run = Run::execute(plan);
    assert_eq!(run.next_step(), Step::Finished);
}

