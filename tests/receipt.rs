use harmonic::action::ActionState;
use harmonic::engine::{Run, Step};
use harmonic::planner::{BuiltinPlanner, DarwinMulti};
use harmonic::receipt::{deserialize, serialize, ReceiptError};

fn scenario_plan(root_disk: Option<&str>) -> harmonic::plan::InstallPlan {
    DarwinMulti::new(true, "Nix Störe ☃".to_string(), root_disk.map(|d| d.to_string()))
        .plan(b"")
        .unwrap_or_else(|_| {
            DarwinMulti::new(false, "Nix Store".to_string(), None)
                .plan_on_disk("disk9".to_string())
        })
}

#[test]
fn round_trip_keeps_actions_payloads_and_states() {
    let mut plan = scenario_plan(Some("disk1"));
    plan.actions[0].state = ActionState::Completed;
    plan.actions[1].state = ActionState::Reverted;
    let bytes = serialize(&plan);
    let back = deserialize(&bytes).unwrap();
    assert_eq!(format!("{:?}", back), format!("{:?}", plan));
    assert_eq!(serialize(&back), bytes);
}

#[test]
fn round_trip_without_root_disk() {
    let plan = scenario_plan(None);
    let BuiltinPlanner::DarwinMulti(d) = &plan.planner;
    assert!(d.root_disk().is_none());
    let back = deserialize(&serialize(&plan)).unwrap();
    assert_eq!(format!("{:?}", back), format!("{:?}", plan));
}

#[test]
fn exact_encoding_of_a_small_plan() {
    let mut plan = DarwinMulti::new(false, "L".to_string(), None).plan_on_disk("d".to_string());
    plan.actions.truncate(2);
    plan.actions[0].state = ActionState::Completed;
    let bytes = serialize(&plan);
    assert_eq!(
        bytes,
        vec![
            0, 0, 1, b'L', 0, 0, // planner, encrypt, label, no root disk
            1, 0, 1, b'd', 0, 1, b'L', 0, 0, 1, // CreateVolume, completed
            1, 1, 0, // ProvisionSoftware, uncompleted
            0,
        ]
    );
}

#[test]
fn malformed_receipts_are_refused() {
    let plan = scenario_plan(Some("disk1"));
    let bytes = serialize(&plan);
    assert_eq!(deserialize(&[]).unwrap_err(), ReceiptError::Malformed);
    assert_eq!(deserialize(&bytes[..bytes.len() - 1]).unwrap_err(), ReceiptError::Malformed);
    let mut longer = bytes.clone();
    longer.push(0);
    assert_eq!(deserialize(&longer).unwrap_err(), ReceiptError::Malformed);
    let mut bad_state = bytes.clone();
    let n = bad_state.len();
    bad_state[n - 2] = 7;
    assert_eq!(deserialize(&bad_state).unwrap_err(), ReceiptError::Malformed);
    // a lone continuation byte is not UTF-8
    assert_eq!(deserialize(&[0, 0, 1, 0x80, 0, 0, 0]).unwrap_err(), ReceiptError::Malformed);
}

#[test]
fn receipt_after_failed_provision_reverts_only_create_volume() {
    let plan = DarwinMulti::new(false, "Nix Store".to_string(), Some("disk1".to_string()))
        .plan(&[])
        .unwrap();
    let mut run = Run::execute(plan);
    assert_eq!(run.next_step(), Step::Execute(0));
    run.complete(Ok(()));
    assert_eq!(run.next_step(), Step::Execute(1));
    run.complete(Err("provision failed".to_string()));
    // the receipt is taken before the rollback, as after an interrupted run
    let receipt = serialize(&run.plan);

    let loaded = deserialize(&receipt).unwrap();
    assert_eq!(loaded.actions[0].state, ActionState::Completed);
    assert_eq!(loaded.actions[1].state, ActionState::Uncompleted);
    let mut revert = Run::revert(loaded);
    assert_eq!(revert.next_step(), Step::Revert(0));
    revert.complete(Ok(()));
    assert_eq!(revert.next_step(), Step::Finished);
    assert_eq!(revert.revert_attempts, vec![0]);
    assert_eq!(revert.plan.actions[0].state, ActionState::Reverted);
}
