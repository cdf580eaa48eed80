use vstd::prelude::*;
use vstd::string::*;

use crate::role::{RoleEnum, RoleStatus};

verus! {

/// What a creep is doing this tick.
#[derive(Debug, Clone, Copy, PartialEq, Eq, Structural)]
pub enum ActionStatus {
    NoWork,
    Harversting,
    Building,
    CarryUp,
    PickUp,
    CarryDown,
    Upgrade,
    Repair,
}

impl ActionStatus {
    /// The glyph a creep says for this action.
    pub open spec fn symbol_spec(self) -> Seq<char> {
        match self {
            ActionStatus::NoWork => "☹"@,
            ActionStatus::Harversting => "⛏️"@,
            ActionStatus::Building => "🚧"@,
            ActionStatus::CarryUp => "🐛"@,
            ActionStatus::PickUp => "🍂"@,
            ActionStatus::CarryDown => "🐌"@,
            ActionStatus::Upgrade => "🔥"@,
            ActionStatus::Repair => "💉"@,
        }
    }

    pub fn symbol(&self) -> (r: &'static str)
        ensures
            r@ == self.symbol_spec(),
    {
        match self {
            ActionStatus::NoWork => "☹",
            ActionStatus::Harversting => "⛏️",
            ActionStatus::Building => "🚧",
            ActionStatus::CarryUp => "🐛",
            ActionStatus::PickUp => "🍂",
            ActionStatus::CarryDown => "🐌",
            ActionStatus::Upgrade => "🔥",
            ActionStatus::Repair => "💉",
        }
    }
}

impl Default for ActionStatus {
    fn default() -> (r: Self)
        ensures
            r == ActionStatus::NoWork,
    {
        ActionStatus::NoWork
    }
}

/// How full a creep's store is.
#[derive(Debug, Clone, Copy, PartialEq, Eq, Structural)]
pub enum StoreStatus {
    UnderFill,
    Full,
    Empty,
}

impl Default for StoreStatus {
    fn default() -> (r: Self)
        ensures
            r == StoreStatus::Empty,
    {
        StoreStatus::Empty
    }
}

impl StoreStatus {
    /// The store status for a store with the given free and used capacity.
    pub open spec fn from_capacity(free_capacity: int, used_capacity: int) -> StoreStatus {
        if free_capacity == 0 {
            StoreStatus::Full
        } else if used_capacity > 0 {
            StoreStatus::UnderFill
        } else {
            StoreStatus::Empty
        }
    }

    /// Classifies a store by its free and used capacity (over all resources).
    pub fn new(free_capacity: i32, used_capacity: u32) -> (r: StoreStatus)
        ensures
            r == StoreStatus::from_capacity(free_capacity as int, used_capacity as int),
    {
        if free_capacity == 0 {
            return StoreStatus::Full;
        }
        if used_capacity > 0 {
            return StoreStatus::UnderFill;
        }
        StoreStatus::Empty
    }
}

/// Whether a creep is looking for energy or spending it.
#[derive(Debug, Clone, Copy, PartialEq, Eq, Structural)]
pub enum CreepStatus {
    SourceNotfound,
    UseEnergy,
    FindEnergy,
}

impl CreepStatus {
    pub open spec fn symbol_spec(self) -> Seq<char> {
        match self {
            CreepStatus::SourceNotfound => "☹"@,
            CreepStatus::UseEnergy => "⛏️"@,
            CreepStatus::FindEnergy => "🚧"@,
        }
    }

    pub fn symbol(&self) -> (r: &'static str)
        ensures
            r@ == self.symbol_spec(),
    {
        match self {
            CreepStatus::SourceNotfound => "☹",
            CreepStatus::UseEnergy => "⛏️",
            CreepStatus::FindEnergy => "🚧",
        }
    }
}

impl Default for CreepStatus {
    fn default() -> (r: Self)
        ensures
            r == CreepStatus::SourceNotfound,
    {
        CreepStatus::SourceNotfound
    }
}

/// The memory a creep carries between ticks.
pub struct CreepMemory {
    pub name: String,
    pub role: RoleEnum,
    pub store_status: StoreStatus,
}

impl CreepMemory {
    /// The memory of a creep that has none yet: a harvester in its initial
    /// state, with the given name and store status.
    pub fn fresh(name: String, store_status: StoreStatus) -> (r: CreepMemory)
        ensures
            r.name@ == name@,
            r.role == RoleEnum::Harvester(RoleStatus::initial()),
            r.store_status == store_status,
    {
        CreepMemory { name, role: RoleEnum::Harvester(RoleStatus::default()), store_status }
    }
}

} // verus!
