use screeps_bot::model::ctx::{ActionStatus, CreepStatus, StoreStatus};
use screeps_bot::role::action::{
    allowed_action, next_step, pickup_target, settle_action, ActionOutcome, PickTarget, StepDecision,
};
use screeps_bot::role::work::{StoreSearch, WorkStep};
use screeps_bot::utils::find::Pos;
use screeps_bot::role::{RoleEnum, RoleStatus};
use screeps_bot::utils::errorx::ScreepError;

fn status(creep_status: CreepStatus, action_status: ActionStatus) -> RoleStatus {
    RoleStatus { creep_status, action_status }
}

#[test]
fn role_names() {
    let s = RoleStatus::default();
    assert_eq!(RoleEnum::Harvester(s).get_role_name(), "harvester");
    assert_eq!(RoleEnum::Upgrader(s).get_role_name(), "upgrader");
    assert_eq!(RoleEnum::Builder(s).get_role_name(), "builder");
    assert_eq!(RoleEnum::Porter(s).get_role_name(), "porter");
    assert_eq!(RoleEnum::Repairer(s).get_role_name(), "repairer");
}

#[test]
fn role_from_name_round_trip() {
    let busy = status(CreepStatus::UseEnergy, ActionStatus::Upgrade);
    for r in [
        RoleEnum::Harvester(busy),
        RoleEnum::Upgrader(busy),
        RoleEnum::Builder(busy),
        RoleEnum::Porter(busy),
        RoleEnum::Repairer(busy),
    ] {
        assert_eq!(RoleEnum::from(r.get_role_name()), r.default());
    }
}

#[test]
fn role_from_unknown_name_is_harvester() {
    assert_eq!(
        RoleEnum::from("miner".to_string()),
        RoleEnum::Harvester(RoleStatus::default())
    );
}

#[test]
fn default_status_is_initial() {
    let s = RoleStatus::default();
    assert_eq!(s.creep_status, CreepStatus::SourceNotfound);
    assert_eq!(s.action_status, ActionStatus::NoWork);
}

#[test]
fn say_text_only_when_idle() {
    let idle = RoleEnum::Porter(status(CreepStatus::FindEnergy, ActionStatus::NoWork));
    assert_eq!(idle.get_say_test(), "🐌☹");
    let busy = RoleEnum::Porter(status(CreepStatus::FindEnergy, ActionStatus::PickUp));
    assert_eq!(busy.get_say_test(), "");
}

#[test]
fn status_text() {
    assert_eq!(status(CreepStatus::UseEnergy, ActionStatus::Repair).to_text(), "⛏️💉");
}

#[test]
fn cancel_bind_rules() {
    let harvesting = status(CreepStatus::UseEnergy, ActionStatus::Harversting);
    let repairing = status(CreepStatus::UseEnergy, ActionStatus::Repair);
    assert!(!RoleEnum::Harvester(harvesting).is_cancel_bind());
    assert!(RoleEnum::Harvester(repairing).is_cancel_bind());
    assert!(!RoleEnum::Repairer(repairing).is_cancel_bind());
    assert!(RoleEnum::Repairer(harvesting).is_cancel_bind());
    assert!(RoleEnum::Builder(harvesting).is_cancel_bind());
    assert!(RoleEnum::Upgrader(repairing).is_cancel_bind());
    assert!(RoleEnum::Porter(repairing).is_cancel_bind());
}

#[test]
fn reset_status_follows_store() {
    let mut r = RoleEnum::Builder(status(CreepStatus::FindEnergy, ActionStatus::CarryUp));
    r.reset_status(StoreStatus::Full);
    assert_eq!(r, RoleEnum::Builder(status(CreepStatus::UseEnergy, ActionStatus::NoWork)));
    r.reset_status(StoreStatus::UnderFill);
    assert_eq!(r, RoleEnum::Builder(status(CreepStatus::UseEnergy, ActionStatus::NoWork)));
    r.reset_status(StoreStatus::Empty);
    assert_eq!(r, RoleEnum::Builder(status(CreepStatus::FindEnergy, ActionStatus::NoWork)));
    let mut h = RoleEnum::Harvester(status(CreepStatus::SourceNotfound, ActionStatus::Harversting));
    h.reset_status(StoreStatus::UnderFill);
    assert_eq!(h, RoleEnum::Harvester(status(CreepStatus::SourceNotfound, ActionStatus::NoWork)));
}

#[test]
fn reset_status_twice_is_once() {
    let start = RoleEnum::Repairer(status(CreepStatus::UseEnergy, ActionStatus::Repair));
    for store in [StoreStatus::Full, StoreStatus::UnderFill, StoreStatus::Empty] {
        let mut once = start;
        once.reset_status(store);
        let mut twice = once;
        twice.reset_status(store);
        assert_eq!(once, twice);
    }
}

#[test]
fn check_harvester_table() {
    let finding = RoleEnum::Harvester(status(CreepStatus::FindEnergy, ActionStatus::NoWork));
    assert!(finding.check(ActionStatus::Harversting));
    assert!(finding.check(ActionStatus::CarryUp));
    assert!(!finding.check(ActionStatus::Upgrade));
    assert!(!finding.check(ActionStatus::PickUp));
    let using = RoleEnum::Harvester(status(CreepStatus::UseEnergy, ActionStatus::NoWork));
    assert!(using.check(ActionStatus::Upgrade));
    assert!(using.check(ActionStatus::Building));
    assert!(using.check(ActionStatus::CarryDown));
    assert!(!using.check(ActionStatus::Harversting));
    assert!(!using.check(ActionStatus::Repair));
}

#[test]
fn check_other_roles() {
    let lost = status(CreepStatus::SourceNotfound, ActionStatus::NoWork);
    let using = status(CreepStatus::UseEnergy, ActionStatus::NoWork);
    assert!(RoleEnum::Porter(lost).check(ActionStatus::PickUp));
    assert!(RoleEnum::Porter(lost).check(ActionStatus::Harversting));
    assert!(!RoleEnum::Upgrader(lost).check(ActionStatus::Harversting));
    assert!(RoleEnum::Upgrader(using).check(ActionStatus::Upgrade));
    assert!(!RoleEnum::Upgrader(using).check(ActionStatus::CarryDown));
    assert!(RoleEnum::Builder(using).check(ActionStatus::CarryDown));
    assert!(RoleEnum::Repairer(using).check(ActionStatus::Repair));
    assert!(!RoleEnum::Builder(using).check(ActionStatus::Repair));
    assert!(!RoleEnum::Repairer(lost).check(ActionStatus::Repair));
}

#[test]
fn full_creep_only_spends() {
    let mut r = RoleEnum::Porter(status(CreepStatus::FindEnergy, ActionStatus::PickUp));
    r.reset_status(StoreStatus::Full);
    assert!(r.check(ActionStatus::CarryDown));
    assert!(!r.check(ActionStatus::PickUp));
    r.reset_status(StoreStatus::Empty);
    assert!(r.check(ActionStatus::PickUp));
    assert!(!r.check(ActionStatus::CarryDown));
}

#[test]
fn change_action_keeps_role() {
    let mut r = RoleEnum::Upgrader(status(CreepStatus::UseEnergy, ActionStatus::NoWork));
    r.change_action(ActionStatus::Upgrade);
    assert_eq!(r, RoleEnum::Upgrader(status(CreepStatus::UseEnergy, ActionStatus::Upgrade)));
    assert_eq!(r.status().action_status, ActionStatus::Upgrade);
}

#[test]
fn settle_action_outcomes() {
    let start = RoleEnum::Builder(status(CreepStatus::UseEnergy, ActionStatus::NoWork));
    let built = RoleEnum::Builder(status(CreepStatus::UseEnergy, ActionStatus::Building));

    let mut r = start;
    assert!(matches!(settle_action(&mut r, ActionStatus::Building, ActionOutcome::NoTarget), Ok(None)));
    assert_eq!(r, start);

    let mut r = start;
    assert!(matches!(settle_action(&mut r, ActionStatus::Building, ActionOutcome::Done), Ok(Some(()))));
    assert_eq!(r, built);

    let mut r = start;
    assert!(matches!(settle_action(&mut r, ActionStatus::Building, ActionOutcome::Moved), Ok(Some(()))));
    assert_eq!(r, built);

    let mut r = start;
    assert!(matches!(
        settle_action(&mut r, ActionStatus::Building, ActionOutcome::MoveFailed),
        Err(ScreepError::ScreepInner)
    ));
    assert_eq!(r, built);

    let mut r = start;
    assert!(matches!(
        settle_action(&mut r, ActionStatus::Building, ActionOutcome::Failed),
        Err(ScreepError::ScreepInner)
    ));
    assert_eq!(r, start);
}

#[test]
fn action_symbols() {
    assert_eq!(ActionStatus::NoWork.symbol(), "☹");
    assert_eq!(ActionStatus::Harversting.symbol(), "⛏️");
    assert_eq!(ActionStatus::Repair.symbol(), "💉");
    assert_eq!(CreepStatus::FindEnergy.symbol(), "🚧");
    assert_eq!(RoleEnum::Repairer(RoleStatus::default()).symbol(), "💘");
}

#[test]
fn store_status_from_capacity() {
    assert_eq!(StoreStatus::new(0, 50), StoreStatus::Full);
    assert_eq!(StoreStatus::new(0, 0), StoreStatus::Full);
    assert_eq!(StoreStatus::new(10, 40), StoreStatus::UnderFill);
    assert_eq!(StoreStatus::new(50, 0), StoreStatus::Empty);
    assert_eq!(StoreStatus::default(), StoreStatus::Empty);
}

#[test]
fn steps_are_gated_by_the_role() {
    let finding = RoleEnum::Porter(status(CreepStatus::FindEnergy, ActionStatus::NoWork));
    assert_eq!(allowed_action(&finding, WorkStep::PickUp), Some(ActionStatus::PickUp));
    assert_eq!(allowed_action(&finding, WorkStep::Build), None);
    let using = RoleEnum::Porter(status(CreepStatus::UseEnergy, ActionStatus::NoWork));
    assert_eq!(allowed_action(&using, WorkStep::PickUp), None);
    assert_eq!(allowed_action(&using, WorkStep::Transfer(StoreSearch::CarryDown)), Some(ActionStatus::CarryDown));
}

#[test]
fn tombstones_before_drops() {
    let creep = Pos { x: 10, y: 10 };
    let tombs = vec![Pos { x: 30, y: 30 }, Pos { x: 20, y: 10 }];
    let drops = vec![Pos { x: 11, y: 10 }];
    assert_eq!(pickup_target(&tombs, &drops, creep), Some(PickTarget::Tombstone(1)));
    assert_eq!(pickup_target(&vec![], &drops, creep), Some(PickTarget::Drop(0)));
    assert_eq!(pickup_target(&vec![], &vec![], creep), None);
}

#[test]
fn turn_stops_at_first_act_or_error() {
    let plan = vec![WorkStep::Harvest, WorkStep::Build, WorkStep::Upgrade];
    assert!(matches!(next_step(&plan, 0, Ok(None)), StepDecision::Next(1)));
    assert!(matches!(next_step(&plan, 1, Ok(Some(()))), StepDecision::Finished));
    assert!(matches!(next_step(&plan, 2, Ok(None)), StepDecision::Finished));
    assert!(matches!(next_step(&plan, 0, Err(ScreepError::ScreepInner)), StepDecision::Abort(ScreepError::ScreepInner)));
}
