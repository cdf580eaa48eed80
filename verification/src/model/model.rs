//! An earlier shape of the creep records, kept for the memory that was
//! written in it.
use vstd::prelude::*;

use crate::role::{RoleEnum, RoleStatus};

verus! {

/// How many creeps of each role a room has.
#[derive(Debug, Clone, Copy, PartialEq, Eq, Structural)]
pub struct ManagerRoleCount {
    pub harvester: i32,
    pub upgrade: i32,
    pub builder: i32,
    pub porter: i32,
}

impl Default for ManagerRoleCount {
    fn default() -> (r: Self)
        ensures
            r == (ManagerRoleCount { harvester: 0, upgrade: 0, builder: 0, porter: 0 }),
    {
        ManagerRoleCount { harvester: 0, upgrade: 0, builder: 0, porter: 0 }
    }
}

/// The memory a creep carries between ticks, with the status of its work.
pub struct CreepMemory {
    pub name: String,
    pub role: RoleEnum,
    pub status: CreepSourceStatus,
    pub store_status: StoreStatus,
}

impl Default for CreepMemory {
    /// No name, a harvester in its initial state, harvesting, with an empty
    /// store.
    fn default() -> (r: Self)
        ensures
            r.name@ == Seq::<char>::empty(),
            r.role == RoleEnum::Harvester(RoleStatus::initial()),
            r.status == CreepSourceStatus::Harversting,
            r.store_status == StoreStatus::Empty,
    {
        CreepMemory {
            name: String::new(),
            role: RoleEnum::Harvester(RoleStatus::default()),
            status: CreepSourceStatus::default(),
            store_status: StoreStatus::default(),
        }
    }
}

/// What a creep works at.
#[derive(Debug, Clone, Copy, PartialEq, Eq, Structural)]
pub enum CreepStatus {
    Building,
    Upgrading,
    Harverst,
}

impl Default for CreepStatus {
    fn default() -> (r: Self)
        ensures
            r == CreepStatus::Harverst,
    {
        CreepStatus::Harverst
    }
}

/// How full a creep's store is.
#[derive(Debug, Clone, Copy, PartialEq, Eq, Structural)]
pub enum StoreStatus {
    UnderFill,
    Full,
    Empty,
}

impl Default for StoreStatus {
    fn default() -> (r: Self)
        ensures
            r == StoreStatus::Empty,
    {
        StoreStatus::Empty
    }
}

impl StoreStatus {
    /// Classifies a store by its free and used capacity: full when no room
    /// is left, partly filled when it holds something, empty otherwise.
    pub fn new(free_capacity: i32, used_capacity: u32) -> (r: StoreStatus)
        ensures
            r == (if free_capacity == 0 {
                StoreStatus::Full
            } else if used_capacity > 0 {
                StoreStatus::UnderFill
            } else {
                StoreStatus::Empty
            }),
    {
        if free_capacity == 0 {
            return StoreStatus::Full;
        }
        if used_capacity > 0 {
            return StoreStatus::UnderFill;
        }
        StoreStatus::Empty
    }
}

/// What a creep is doing with its energy source.
#[derive(Debug, Clone, Copy, PartialEq, Eq, Structural)]
pub enum CreepSourceStatus {
    Harversting,
    Building,
    SourceNotfound,
    CarryUp,
    CarryDown,
}

impl CreepSourceStatus {
    pub open spec fn text_spec(self) -> Seq<char> {
        match self {
            CreepSourceStatus::Harversting => "🔄harvest"@,
            CreepSourceStatus::Building => "🚧build"@,
            CreepSourceStatus::SourceNotfound => "Notfound"@,
            CreepSourceStatus::CarryUp => "♋carry"@,
            CreepSourceStatus::CarryDown => "♒carry"@,
        }
    }

    /// The text a creep says for the status.
    pub fn text(&self) -> (r: &'static str)
        ensures
            r@ == self.text_spec(),
    {
        match self {
            CreepSourceStatus::Harversting => "🔄harvest",
            CreepSourceStatus::Building => "🚧build",
            CreepSourceStatus::SourceNotfound => "Notfound",
            CreepSourceStatus::CarryUp => "♋carry",
            CreepSourceStatus::CarryDown => "♒carry",
        }
    }
}

impl Default for CreepSourceStatus {
    fn default() -> (r: Self)
        ensures
            r == CreepSourceStatus::Harversting,
    {
        CreepSourceStatus::Harversting
    }
}

} // verus!
