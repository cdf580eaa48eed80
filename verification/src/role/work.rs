//! The order in which each role tries its actions every tick.
use vstd::prelude::*;

use crate::model::ctx::{ActionStatus, CreepStatus};
use crate::role::{RoleEnum, RoleStatus};
use crate::utils::find::FindStoreOption;

verus! {

/// Which store search an action uses.
#[derive(Debug, Clone, Copy, PartialEq, Eq, Structural)]
pub enum StoreSearch {
    /// Take energy out of stores other than spawns and extensions.
    CarryUp,
    /// Bring energy to extensions, spawns and storage, in that order.
    CarryDown,
    /// Bring energy to a store near the harvester other than a spawn or an
    /// extension.
    HarvesterStore,
}

impl StoreSearch {
    pub fn option(&self) -> (r: FindStoreOption)
        ensures
            *self == StoreSearch::CarryUp ==> r@ == FindStoreOption::carry_up_query(),
            *self == StoreSearch::CarryDown ==> r@ == FindStoreOption::carry_down_query(),
            *self == StoreSearch::HarvesterStore ==> r@ == FindStoreOption::harvester_store_query(),
    {
        match self {
            StoreSearch::CarryUp => FindStoreOption::carry_up(),
            StoreSearch::CarryDown => FindStoreOption::carry_down(),
            StoreSearch::HarvesterStore => FindStoreOption::harvester_store(),
        }
    }
}

/// One thing a creep may try in a tick.
#[derive(Debug, Clone, Copy, PartialEq, Eq, Structural)]
pub enum WorkStep {
    Harvest,
    PickUp,
    Withdraw(StoreSearch),
    Transfer(StoreSearch),
    Build,
    Upgrade,
}

impl WorkStep {
    /// The action a step is, as the role allows it and records it.
    pub open spec fn action_spec(self) -> ActionStatus {
        match self {
            WorkStep::Harvest => ActionStatus::Harversting,
            WorkStep::PickUp => ActionStatus::PickUp,
            WorkStep::Withdraw(_) => ActionStatus::CarryUp,
            WorkStep::Transfer(_) => ActionStatus::CarryDown,
            WorkStep::Build => ActionStatus::Building,
            WorkStep::Upgrade => ActionStatus::Upgrade,
        }
    }

    pub fn action(&self) -> (r: ActionStatus)
        ensures
            r == self.action_spec(),
    {
        match self {
            WorkStep::Harvest => ActionStatus::Harversting,
            WorkStep::PickUp => ActionStatus::PickUp,
            WorkStep::Withdraw(_) => ActionStatus::CarryUp,
            WorkStep::Transfer(_) => ActionStatus::CarryDown,
            WorkStep::Build => ActionStatus::Building,
            WorkStep::Upgrade => ActionStatus::Upgrade,
        }
    }
}

/// What a harvester looks at before choosing where to bring its energy.
#[derive(Debug, Clone, Copy, PartialEq, Eq, Structural)]
pub struct HarvesterScene {
    /// The level of the room's controller.
    pub controller_level: u8,
    /// How many creeps the player has.
    pub creep_count: usize,
    /// How many harvesters the room's sources take, if the room is known.
    pub source_capacity: Option<usize>,
    /// How many spawns and extensions lie within 25 tiles of the creep.
    pub spawns_nearby: usize,
}

/// The steps a role tries, in order, until one of them acts.
///
/// A harvester harvests, or takes energy from a store; with its energy it
/// feeds a controller below level two, then spawns and extensions while
/// the colony has at most one creep more than the room's sources take and
/// there are spawns or extensions nearby, then stores near it, then builds
/// and upgrades. A builder takes energy, builds, brings energy to the
/// spawns and upgrades. A porter picks energy up, takes it from stores or
/// harvests, then brings it to the spawns, builds and upgrades. A repairer
/// takes energy and brings it to the spawns, then builds and upgrades. An
/// upgrader takes energy or harvests, then upgrades and builds.
pub open spec fn plan_spec(role: RoleEnum, scene: HarvesterScene) -> Seq<WorkStep> {
    match role {
        RoleEnum::Harvester(_) => {
            let feed_controller = if scene.controller_level < 2 {
                seq![WorkStep::Upgrade]
            } else {
                Seq::empty()
            };
            let feed_spawns = match scene.source_capacity {
                Some(c) => if scene.creep_count < c + 1 && scene.spawns_nearby > 0 {
                    seq![WorkStep::Transfer(StoreSearch::CarryDown)]
                } else {
                    Seq::empty()
                },
                None => Seq::empty(),
            };
            seq![WorkStep::Harvest, WorkStep::Withdraw(StoreSearch::CarryUp)] + feed_controller
                + feed_spawns + seq![
                WorkStep::Transfer(StoreSearch::HarvesterStore),
                WorkStep::Build,
                WorkStep::Upgrade,
            ]
        },
        RoleEnum::Builder(_) => seq![
            WorkStep::Withdraw(StoreSearch::CarryUp),
            WorkStep::Build,
            WorkStep::Transfer(StoreSearch::CarryDown),
            WorkStep::Upgrade,
        ],
        RoleEnum::Porter(_) => seq![
            WorkStep::PickUp,
            WorkStep::Withdraw(StoreSearch::CarryUp),
            WorkStep::Harvest,
            WorkStep::Transfer(StoreSearch::CarryDown),
            WorkStep::Build,
            WorkStep::Upgrade,
        ],
        RoleEnum::Repairer(_) => seq![
            WorkStep::Withdraw(StoreSearch::CarryUp),
            WorkStep::Transfer(StoreSearch::CarryDown),
            WorkStep::Build,
            WorkStep::Upgrade,
        ],
        RoleEnum::Upgrader(_) => seq![
            WorkStep::Withdraw(StoreSearch::CarryUp),
            WorkStep::Harvest,
            WorkStep::Upgrade,
            WorkStep::Build,
        ],
    }
}

/// The steps the creep tries this tick, in order.
pub fn work_plan(role: &RoleEnum, scene: &HarvesterScene) -> (r: Vec<WorkStep>)
    ensures
        r@ == plan_spec(*role, *scene),
{
    match role {
        RoleEnum::Harvester(_) => {
            let mut plan = vec![WorkStep::Harvest, WorkStep::Withdraw(StoreSearch::CarryUp)];
            if scene.controller_level < 2 {
                plan.push(WorkStep::Upgrade);
            }
            if let Some(c) = scene.source_capacity {
                if scene.creep_count <= c && scene.spawns_nearby > 0 {
                    plan.push(WorkStep::Transfer(StoreSearch::CarryDown));
                }
            }
            plan.push(WorkStep::Transfer(StoreSearch::HarvesterStore));
            plan.push(WorkStep::Build);
            plan.push(WorkStep::Upgrade);
            assert(plan@ =~= plan_spec(*role, *scene));
            plan
        },
        RoleEnum::Builder(_) => {
            let plan = vec![
                WorkStep::Withdraw(StoreSearch::CarryUp),
                WorkStep::Build,
                WorkStep::Transfer(StoreSearch::CarryDown),
                WorkStep::Upgrade,
            ];
            assert(plan@ =~= plan_spec(*role, *scene));
            plan
        },
        RoleEnum::Porter(_) => {
            let plan = vec![
                WorkStep::PickUp,
                WorkStep::Withdraw(StoreSearch::CarryUp),
                WorkStep::Harvest,
                WorkStep::Transfer(StoreSearch::CarryDown),
                WorkStep::Build,
                WorkStep::Upgrade,
            ];
            assert(plan@ =~= plan_spec(*role, *scene));
            plan
        },
        RoleEnum::Repairer(_) => {
            let plan = vec![
                WorkStep::Withdraw(StoreSearch::CarryUp),
                WorkStep::Transfer(StoreSearch::CarryDown),
                WorkStep::Build,
                WorkStep::Upgrade,
            ];
            assert(plan@ =~= plan_spec(*role, *scene));
            plan
        },
        RoleEnum::Upgrader(_) => {
            let plan = vec![
                WorkStep::Withdraw(StoreSearch::CarryUp),
                WorkStep::Harvest,
                WorkStep::Upgrade,
                WorkStep::Build,
            ];
            assert(plan@ =~= plan_spec(*role, *scene));
            plan
        },
    }
}

/// Whether a creep gives up the structure it is bound to at the end of its
/// tick: only when it uses energy and its role lets go.
pub fn cancel_bind_wanted(role: &RoleEnum) -> (r: bool)
    ensures
        r == (role.status_spec().creep_status == CreepStatus::UseEnergy && role.cancel_bind_spec()),
{
    if role.status().creep_status != CreepStatus::UseEnergy {
        return false;
    }
    role.is_cancel_bind()
}


/// A harvester first harvests, then takes energy from a store, and ends by
/// storing near it, building and upgrading. In between it feeds a
/// controller below level two, and it feeds spawns and extensions exactly
/// when the room's source capacity `c` is known, the colony has at most
/// `c` creeps and at least one spawn or extension is nearby; that feeding
/// comes right before it stores near it.
pub proof fn lemma_harvester_plan(st: RoleStatus, scene: HarvesterScene)
    ensures
        ({
            let p = plan_spec(RoleEnum::Harvester(st), scene);
            let up = scene.controller_level < 2;
            let feed = match scene.source_capacity {
                Some(c) => scene.creep_count <= c && scene.spawns_nearby >= 1,
                None => false,
            };
            &&& p.len() == 5 + (if up { 1int } else { 0int }) + (if feed { 1int } else { 0int })
            &&& p[0] == WorkStep::Harvest
            &&& p[1] == WorkStep::Withdraw(StoreSearch::CarryUp)
            &&& (up <==> p[2] == WorkStep::Upgrade)
            &&& (feed <==> p.contains(WorkStep::Transfer(StoreSearch::CarryDown)))
            &&& (feed ==> p[p.len() - 4] == WorkStep::Transfer(StoreSearch::CarryDown))
            &&& p[p.len() - 3] == WorkStep::Transfer(StoreSearch::HarvesterStore)
            &&& p[p.len() - 2] == WorkStep::Build
            &&& p[p.len() - 1] == WorkStep::Upgrade
        }),
{
    let p = plan_spec(RoleEnum::Harvester(st), scene);
    let feed = match scene.source_capacity {
        Some(c) => scene.creep_count <= c && scene.spawns_nearby >= 1,
        None => false,
    };
    if feed {
        assert(p[p.len() - 4] == WorkStep::Transfer(StoreSearch::CarryDown));
    } else {
        assert forall|i: int| 0 <= i < p.len() implies p[i] != WorkStep::Transfer(StoreSearch::CarryDown) by {}
    }
}

/// The other roles try the same steps whatever the scene: a builder takes
/// energy, builds, feeds the spawns and upgrades; a porter picks energy up,
/// takes it from stores or harvests, then feeds the spawns, builds and
/// upgrades; a repairer takes energy, feeds the spawns, builds and
/// upgrades; an upgrader takes energy or harvests, then upgrades and
/// builds.
pub proof fn lemma_other_plans(st: RoleStatus, scene: HarvesterScene)
    ensures
        plan_spec(RoleEnum::Builder(st), scene) =~= seq![
            WorkStep::Withdraw(StoreSearch::CarryUp),
            WorkStep::Build,
            WorkStep::Transfer(StoreSearch::CarryDown),
            WorkStep::Upgrade,
        ],
        plan_spec(RoleEnum::Porter(st), scene) =~= seq![
            WorkStep::PickUp,
            WorkStep::Withdraw(StoreSearch::CarryUp),
            WorkStep::Harvest,
            WorkStep::Transfer(StoreSearch::CarryDown),
            WorkStep::Build,
            WorkStep::Upgrade,
        ],
        plan_spec(RoleEnum::Repairer(st), scene) =~= seq![
            WorkStep::Withdraw(StoreSearch::CarryUp),
            WorkStep::Transfer(StoreSearch::CarryDown),
            WorkStep::Build,
            WorkStep::Upgrade,
        ],
        plan_spec(RoleEnum::Upgrader(st), scene) =~= seq![
            WorkStep::Withdraw(StoreSearch::CarryUp),
            WorkStep::Harvest,
            WorkStep::Upgrade,
            WorkStep::Build,
        ],
{
}

} // verus!
