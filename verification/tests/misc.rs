use screeps_bot::model::ctx::{ActionStatus, CreepStatus};
use screeps_bot::model::model::{CreepMemory, CreepSourceStatus, ManagerRoleCount, StoreStatus};
use screeps_bot::role::work::{cancel_bind_wanted, work_plan, HarvesterScene, StoreSearch, WorkStep};
use screeps_bot::role::{RoleEnum, RoleStatus};
use screeps_bot::spawn::{body_cost, should_spawn, spawn_body, BodyPart};
use screeps_bot::spawn::BodyPart::{Carry, Move, Work};
use screeps_bot::role::work::StoreSearch::{CarryDown, CarryUp, HarvesterStore};
use screeps_bot::role::work::WorkStep::{Build, Harvest, PickUp, Transfer, Upgrade, Withdraw};
use screeps_bot::structure::{StructActionStatus, StructWorkStatus};
use screeps_bot::utils::find::StructureKind;

#[test]
fn bodies_by_extension_count() {
    assert_eq!(spawn_body(0), vec![Move, Carry, Work, Work]);
    assert_eq!(spawn_body(3), vec![Move, Carry, Work, Work, Move, Carry]);
    assert_eq!(spawn_body(5), vec![Move, Carry, Work, Work, Move, Carry, Work]);
    assert_eq!(spawn_body(6), vec![Move, Carry, Work, Work, Carry, Move, Carry, Work]);
    assert_eq!(
        spawn_body(12),
        vec![Move, Carry, Work, Work, Carry, Carry, Move, Move, Carry, Work, Work]
    );
}

#[test]
fn body_costs() {
    assert_eq!(body_cost(&spawn_body(0)), 300);
    assert_eq!(body_cost(&spawn_body(3)), 400);
    assert_eq!(body_cost(&spawn_body(4)), 500);
    assert_eq!(body_cost(&spawn_body(9)), 550);
    assert_eq!(body_cost(&spawn_body(10)), 750);
    assert_eq!(
        body_cost(&vec![BodyPart::Attack, BodyPart::RangedAttack, BodyPart::Tough, BodyPart::Heal, BodyPart::Claim]),
        80 + 150 + 10 + 250 + 600
    );
}

#[test]
fn spawn_decision() {
    assert!(should_spawn(300, 300, true));
    assert!(!should_spawn(299, 300, true));
    assert!(!should_spawn(1000, 300, false));
}

#[test]
fn old_memory_defaults() {
    let m = CreepMemory::default();
    assert_eq!(m.name, "");
    assert_eq!(m.role, RoleEnum::Harvester(RoleStatus::default()));
    assert_eq!(m.status, CreepSourceStatus::Harversting);
    assert_eq!(m.store_status, StoreStatus::Empty);
    assert_eq!(StoreStatus::new(0, 10), StoreStatus::Full);
    assert_eq!(StoreStatus::new(5, 10), StoreStatus::UnderFill);
    assert_eq!(StoreStatus::new(5, 0), StoreStatus::Empty);
    assert_eq!(ManagerRoleCount::default(), ManagerRoleCount { harvester: 0, upgrade: 0, builder: 0, porter: 0 });
    assert_eq!(screeps_bot::model::model::CreepStatus::default(), screeps_bot::model::model::CreepStatus::Harverst);
    assert_eq!(CreepSourceStatus::CarryUp.text(), "♋carry");
    assert_eq!(CreepSourceStatus::SourceNotfound.text(), "Notfound");
}

#[test]
fn structure_statuses() {
    assert_eq!(StructWorkStatus::default(), StructWorkStatus::NoWork);
    assert_eq!(StructWorkStatus::Work.text(), "Work");
    assert_eq!(StructActionStatus::default(), StructActionStatus::NoWork);
    assert_eq!(StructActionStatus::Attack.symbol(), "🤛");
    assert_eq!(StructActionStatus::Repair.symbol(), "💉");
}

fn scene(controller_level: u8, creep_count: usize, source_capacity: Option<usize>, spawns_nearby: usize) -> HarvesterScene {
    HarvesterScene { controller_level, creep_count, source_capacity, spawns_nearby }
}

#[test]
fn harvester_plans() {
    let h = RoleEnum::Harvester(RoleStatus::default());
    assert_eq!(
        work_plan(&h, &scene(1, 3, Some(4), 2)),
        vec![Harvest, Withdraw(CarryUp), Upgrade, Transfer(CarryDown), Transfer(HarvesterStore), Build, Upgrade]
    );
    assert_eq!(
        work_plan(&h, &scene(3, 4, Some(4), 2)),
        vec![Harvest, Withdraw(CarryUp), Transfer(CarryDown), Transfer(HarvesterStore), Build, Upgrade]
    );
    assert_eq!(
        work_plan(&h, &scene(3, 5, Some(4), 2)),
        vec![Harvest, Withdraw(CarryUp), Transfer(HarvesterStore), Build, Upgrade]
    );
    assert_eq!(
        work_plan(&h, &scene(3, 1, Some(4), 0)),
        vec![Harvest, Withdraw(CarryUp), Transfer(HarvesterStore), Build, Upgrade]
    );
    assert_eq!(
        work_plan(&h, &scene(3, 1, None, 3)),
        vec![Harvest, Withdraw(CarryUp), Transfer(HarvesterStore), Build, Upgrade]
    );
}

#[test]
fn other_plans() {
    let st = RoleStatus::default();
    let any = scene(0, 0, None, 0);
    assert_eq!(work_plan(&RoleEnum::Builder(st), &any), vec![Withdraw(CarryUp), Build, Transfer(CarryDown), Upgrade]);
    assert_eq!(
        work_plan(&RoleEnum::Porter(st), &any),
        vec![PickUp, Withdraw(CarryUp), Harvest, Transfer(CarryDown), Build, Upgrade]
    );
    assert_eq!(work_plan(&RoleEnum::Repairer(st), &any), vec![Withdraw(CarryUp), Transfer(CarryDown), Build, Upgrade]);
    assert_eq!(work_plan(&RoleEnum::Upgrader(st), &any), vec![Withdraw(CarryUp), Harvest, Upgrade, Build]);
    let down = StoreSearch::CarryDown.option();
    assert_eq!(down.select_structures, Some(vec![StructureKind::Spawn, StructureKind::Extension, StructureKind::Storage]));
}

#[test]
fn release_only_when_spending() {
    let st = |c, a| RoleStatus { creep_status: c, action_status: a };
    assert!(cancel_bind_wanted(&RoleEnum::Builder(st(CreepStatus::UseEnergy, ActionStatus::Building))));
    assert!(!cancel_bind_wanted(&RoleEnum::Builder(st(CreepStatus::FindEnergy, ActionStatus::CarryUp))));
    assert!(!cancel_bind_wanted(&RoleEnum::Harvester(st(CreepStatus::UseEnergy, ActionStatus::Harversting))));
    assert!(cancel_bind_wanted(&RoleEnum::Harvester(st(CreepStatus::UseEnergy, ActionStatus::Upgrade))));
    assert!(!cancel_bind_wanted(&RoleEnum::Repairer(st(CreepStatus::UseEnergy, ActionStatus::Repair))));
}

#[test]
fn steps_are_their_actions() {
    assert_eq!(Harvest.action(), ActionStatus::Harversting);
    assert_eq!(PickUp.action(), ActionStatus::PickUp);
    assert_eq!(Withdraw(CarryUp).action(), ActionStatus::CarryUp);
    assert_eq!(Transfer(HarvesterStore).action(), ActionStatus::CarryDown);
    assert_eq!(Transfer(CarryDown).action(), ActionStatus::CarryDown);
    assert_eq!(Build.action(), ActionStatus::Building);
    assert_eq!(Upgrade.action(), ActionStatus::Upgrade);
}
