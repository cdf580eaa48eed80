use vstd::prelude::*;

use crate::manager::source_manager::StructureManager;
use crate::model::ctx::CreepMemory;
use crate::role::{role_from_name, RoleEnum, RoleStatus};
use crate::utils::errorx::ScreepError;
use crate::utils::keyed::{
    filter_keys,
    find_key,
    insert_views,
    keys_unique,
    lemma_filter_keys,
    lemma_same_keys,
    lemma_upsert_all_keeps,
    lemma_upsert_unique,
    lemma_view_map_pointwise,
    lemma_view_map_upsert,
    lemma_view_map_upsert_all,
    upsert,
    upsert_entries,
    upsert_entry,
    view_map,
    Keyed,
};
use crate::utils::{contains_name, names};

verus! {

/// A creep and the name of its role.
pub struct CreepRoleName {
    pub name: String,
    pub role: String,
}

impl View for CreepRoleName {
    type V = Seq<char>;

    open spec fn view(&self) -> Seq<char> {
        self.role@
    }
}

impl Keyed for CreepRoleName {
    open spec fn key(&self) -> Seq<char> {
        self.name@
    }

    fn key_ref(&self) -> (r: &String) {
        &self.name
    }
}

impl Clone for CreepRoleName {
    fn clone(&self) -> (r: Self)
        ensures
            r.name@ == self.name@,
            r.role@ == self.role@,
    {
        CreepRoleName { name: self.name.clone(), role: self.role.clone() }
    }
}

/// The number of creeps of the list whose role name names `kind`'s role;
/// an unknown name counts as a harvester.
pub open spec fn count_named(s: Seq<CreepRoleName>, kind: RoleEnum) -> nat
    decreases s.len(),
{
    if s.len() == 0 {
        0
    } else {
        count_named(s.drop_last(), kind) + if role_from_name(s.last().role@).same_role(kind) {
            1nat
        } else {
            0nat
        }
    }
}

pub proof fn lemma_count_named_le(s: Seq<CreepRoleName>, kind: RoleEnum)
    ensures
        count_named(s, kind) <= s.len(),
    decreases s.len(),
{
    if s.len() > 0 {
        lemma_count_named_le(s.drop_last(), kind);
    }
}

/// The role a new creep of a room takes: first fill the sources with
/// harvesters, then make sure there is one porter, upgrader, builder and
/// repairer, then one porter per harvester, two builders, two upgraders,
/// and repairers beyond that.
pub open spec fn next_role_spec(
    harvester: nat,
    upgrader: nat,
    builder: nat,
    porter: nat,
    repairer: nat,
    max_count: nat,
) -> RoleEnum {
    let s = RoleStatus::initial();
    if harvester < max_count {
        RoleEnum::Harvester(s)
    } else if porter == 0 {
        RoleEnum::Porter(s)
    } else if upgrader == 0 {
        RoleEnum::Upgrader(s)
    } else if builder == 0 {
        RoleEnum::Builder(s)
    } else if repairer == 0 {
        RoleEnum::Repairer(s)
    } else if porter < harvester {
        RoleEnum::Porter(s)
    } else if builder < 2 {
        RoleEnum::Builder(s)
    } else if upgrader < 2 {
        RoleEnum::Upgrader(s)
    } else {
        RoleEnum::Repairer(s)
    }
}

/// What the game shows of a room for the spawning rule.
#[derive(Debug, Clone, Copy, PartialEq, Eq, Structural)]
pub struct RoomSpawnInfo {
    /// The level of the room's own controller, if it has one.
    pub controller_level: Option<u8>,
    /// How many containers the room has.
    pub container_count: usize,
}

/// Whether a room may spawn another creep. The room takes five creeps per
/// harvester its sources take; a room whose controller is at level two or
/// below always takes harvesters up to that number, and beyond them only
/// once it has a container.
pub open spec fn spawn_allowed(
    harvester: nat,
    total: nat,
    max_count: nat,
    room: Option<RoomSpawnInfo>,
) -> bool {
    match room {
        Some(info) => match info.controller_level {
            Some(level) => if level <= 2 && harvester < max_count {
                true
            } else if level <= 2 {
                0 < info.container_count && total < max_count * 5
            } else {
                total < max_count * 5
            },
            None => total < max_count * 5,
        },
        None => total < max_count * 5,
    }
}

/// The creeps of a room, by role.
pub struct RoomScreepsItem {
    pub room_id: String,
    pub harvester: usize,
    pub upgrader: usize,
    pub builder: usize,
    pub porter: usize,
    pub repairer: usize,
    /// The role name of each creep, by creep name.
    pub creep_map: Vec<CreepRoleName>,
}

pub struct RoomScreepsView {
    pub room_id: Seq<char>,
    pub harvester: nat,
    pub upgrader: nat,
    pub builder: nat,
    pub porter: nat,
    pub repairer: nat,
    pub creeps: Map<Seq<char>, Seq<char>>,
}

impl RoomScreepsView {
    pub open spec fn total(self) -> nat {
        self.harvester + self.upgrader + self.builder + self.porter + self.repairer
    }
}

impl View for RoomScreepsItem {
    type V = RoomScreepsView;

    open spec fn view(&self) -> RoomScreepsView {
        RoomScreepsView {
            room_id: self.room_id@,
            harvester: self.harvester as nat,
            upgrader: self.upgrader as nat,
            builder: self.builder as nat,
            porter: self.porter as nat,
            repairer: self.repairer as nat,
            creeps: view_map(self.creep_map@),
        }
    }
}

impl Keyed for RoomScreepsItem {
    open spec fn key(&self) -> Seq<char> {
        self.room_id@
    }

    fn key_ref(&self) -> (r: &String) {
        &self.room_id
    }
}

impl Clone for RoomScreepsItem {
    fn clone(&self) -> (r: Self)
        ensures
            self.wf() ==> r@ == self@,
            r.wf() == self.wf(),
            r.room_id@ == self.room_id@,
    {
        let mut creep_map: Vec<CreepRoleName> = Vec::new();
        let mut i: usize = 0;
        while i < self.creep_map.len()
            invariant
                i <= self.creep_map.len(),
                creep_map@.len() == i,
                forall|j: int| 0 <= j < i ==> #[trigger] creep_map@[j].key() == self.creep_map@[j].key(),
                forall|j: int| 0 <= j < i ==> #[trigger] creep_map@[j]@ == self.creep_map@[j]@,
            decreases self.creep_map.len() - i,
        {
            creep_map.push(self.creep_map[i].clone());
            i += 1;
        }
        proof {
            if keys_unique(self.creep_map@) {
                lemma_view_map_pointwise(self.creep_map@, creep_map@, |k: Seq<char>, v: Seq<char>| v);
                assert(view_map(creep_map@) =~= view_map(self.creep_map@));
            }
            if keys_unique(creep_map@) {
                lemma_same_keys(creep_map@, self.creep_map@);
            }
        }
        RoomScreepsItem {
            room_id: self.room_id.clone(),
            harvester: self.harvester,
            upgrader: self.upgrader,
            builder: self.builder,
            porter: self.porter,
            repairer: self.repairer,
            creep_map,
        }
    }
}

impl Default for RoomScreepsItem {
    fn default() -> (r: Self)
        ensures
            r.wf(),
            r@ == RoomScreepsView::empty(Seq::empty()),
    {
        RoomScreepsItem::new(String::new())
    }
}

impl RoomScreepsView {
    pub open spec fn empty(id: Seq<char>) -> RoomScreepsView {
        RoomScreepsView {
            room_id: id,
            harvester: 0,
            upgrader: 0,
            builder: 0,
            porter: 0,
            repairer: 0,
            creeps: Map::empty(),
        }
    }
}

/// The room after a creep of the given role has been recorded and counted.
pub open spec fn counted(v: RoomScreepsView, name: Seq<char>, role: RoleEnum) -> RoomScreepsView {
    RoomScreepsView {
        harvester: if role is Harvester { v.harvester + 1 } else { v.harvester },
        upgrader: if role is Upgrader { v.upgrader + 1 } else { v.upgrader },
        builder: if role is Builder { v.builder + 1 } else { v.builder },
        porter: if role is Porter { v.porter + 1 } else { v.porter },
        repairer: if role is Repairer { v.repairer + 1 } else { v.repairer },
        creeps: v.creeps.insert(name, role.role_name_spec()),
        ..v
    }
}

impl RoomScreepsItem {
    /// No creep is listed twice.
    pub open spec fn wf(&self) -> bool {
        keys_unique(self.creep_map@)
    }

    /// No count is at its limit.
    pub open spec fn counts_bounded(&self) -> bool {
        &&& self.harvester < usize::MAX
        &&& self.upgrader < usize::MAX
        &&& self.builder < usize::MAX
        &&& self.porter < usize::MAX
        &&& self.repairer < usize::MAX
    }

    /// Whether the room may spawn another creep, given the harvester limit
    /// of its sources as the structure manager records it (none when the
    /// room is unknown there) and what the game shows of the room (`None`
    /// when it cannot be found).
    pub fn can_spawing(&self, source: &StructureManager, room: Option<RoomSpawnInfo>) -> (r: bool)
        requires
            source.wf(),
        ensures
            r == spawn_allowed(
                self.harvester as nat,
                self@.total(),
                if source.rooms().contains_key(self.room_id@) {
                    source.rooms()[self.room_id@].source_count
                } else {
                    0
                },
                room,
            ),
    {
        let max_count: usize = match source.get_memory(self.room_id.clone()) {
            Some(m) => m.source_count,
            None => 0,
        };
        let total: u128 = self.harvester as u128 + self.upgrader as u128 + self.builder as u128
            + self.porter as u128 + self.repairer as u128;
        let limit: u128 = max_count as u128 * 5;
        if let Some(info) = room {
            if let Some(level) = info.controller_level {
                if level <= 2 && self.harvester < max_count {
                    return true;
                } else if level <= 2 {
                    return 0 < info.container_count && total < limit;
                }
            }
        }
        total < limit
    }

    pub fn new(id: String) -> (r: RoomScreepsItem)
        ensures
            r.wf(),
            r@ == RoomScreepsView::empty(id@),
    {
        let r = RoomScreepsItem {
            room_id: id,
            harvester: 0,
            upgrader: 0,
            builder: 0,
            porter: 0,
            repairer: 0,
            creep_map: Vec::new(),
        };
        assert(view_map(r.creep_map@) =~= Map::<Seq<char>, Seq<char>>::empty());
        r
    }

    /// Records a creep from its memory, under its name and role, and counts
    /// it.
    pub fn bind_screep(&mut self, memory: CreepMemory)
        requires
            old(self).wf(),
            old(self).counts_bounded(),
        ensures
            final(self).wf(),
            final(self)@ == counted(old(self)@, memory.name@, memory.role),
            final(self).room_id == old(self).room_id,
    {
        let role = memory.role;
        self.record(memory.name, role);
    }

    fn record(&mut self, name: String, role: RoleEnum)
        requires
            old(self).wf(),
            old(self).counts_bounded(),
        ensures
            final(self).wf(),
            final(self)@ == counted(old(self)@, name@, role),
            final(self).room_id == old(self).room_id,
    {
        let ghost start = self.creep_map@;
        let e = CreepRoleName { name, role: role.get_role_name() };
        proof {
            lemma_view_map_upsert(start, e);
        }
        upsert_entry(&mut self.creep_map, e);
        self.add_count(&role);
    }

    /// Creates the record for a creep: its memory gets the role the room
    /// needs next, and the creep is recorded and counted. Fails, changing
    /// nothing, when the structures of the room are unknown.
    pub fn add_screep(&mut self, creep_name: String, memory: CreepMemory, source: &StructureManager) -> (r:
        Result<CreepMemory, ScreepError>)
        requires
            old(self).wf(),
            old(self).counts_bounded(),
            source.wf(),
        ensures
            final(self).wf(),
            final(self).room_id == old(self).room_id,
            match r {
                Err(e) => e matches ScreepError::RoomNotfound(id) && id@ == old(self).room_id@
                    && !source.rooms().contains_key(old(self).room_id@) && final(self)@ == old(self)@,
                Ok(c) => {
                    let v = old(self)@;
                    let role = next_role_spec(
                        v.harvester,
                        v.upgrader,
                        v.builder,
                        v.porter,
                        v.repairer,
                        source.rooms()[v.room_id].source_count,
                    );
                    &&& source.rooms().contains_key(v.room_id)
                    &&& c.role == role
                    &&& c.name@ == memory.name@
                    &&& c.store_status == memory.store_status
                    &&& final(self)@ == counted(v, creep_name@, role)
                },
            },
    {
        let role = match self.next_role(source) {
            Ok(role) => role,
            Err(e) => {
                return Err(e);
            },
        };
        let mut c = memory;
        c.role = role;
        self.record(creep_name, role);
        Ok(c)
    }

    /// Drops the creeps that are no longer alive and counts the others by
    /// the role their role name names.
    pub fn check(&mut self, alive: &Vec<String>)
        requires
            old(self).wf(),
        ensures
            final(self).wf(),
            final(self).room_id == old(self).room_id,
            final(self)@.creeps == Map::new(
                |k: Seq<char>| old(self)@.creeps.contains_key(k) && names(alive@).contains(k),
                |k: Seq<char>| old(self)@.creeps[k],
            ),
            final(self).harvester == count_named(final(self).creep_map@, RoleEnum::Harvester(RoleStatus::initial())),
            final(self).upgrader == count_named(final(self).creep_map@, RoleEnum::Upgrader(RoleStatus::initial())),
            final(self).builder == count_named(final(self).creep_map@, RoleEnum::Builder(RoleStatus::initial())),
            final(self).porter == count_named(final(self).creep_map@, RoleEnum::Porter(RoleStatus::initial())),
            final(self).repairer == count_named(final(self).creep_map@, RoleEnum::Repairer(RoleStatus::initial())),
    {
        let ghost keep = |k: Seq<char>| names(alive@).contains(k);
        let ghost start = self.creep_map@;
        let ghost h = RoleEnum::Harvester(RoleStatus::initial());
        let ghost u = RoleEnum::Upgrader(RoleStatus::initial());
        let ghost b = RoleEnum::Builder(RoleStatus::initial());
        let ghost p = RoleEnum::Porter(RoleStatus::initial());
        let ghost rp = RoleEnum::Repairer(RoleStatus::initial());
        let mut kept: Vec<CreepRoleName> = Vec::new();
        self.harvester = 0;
        self.upgrader = 0;
        self.builder = 0;
        self.porter = 0;
        self.repairer = 0;
        let mut i: usize = 0;
        while i < self.creep_map.len()
            invariant
                i <= self.creep_map.len(),
                start == self.creep_map@,
                self.room_id == old(self).room_id,
                kept@ == filter_keys(start.take(i as int), keep),
                self.harvester == count_named(kept@, h),
                self.upgrader == count_named(kept@, u),
                self.builder == count_named(kept@, b),
                self.porter == count_named(kept@, p),
                self.repairer == count_named(kept@, rp),
                kept@.len() <= i,
                h == RoleEnum::Harvester(RoleStatus::initial()),
                u == RoleEnum::Upgrader(RoleStatus::initial()),
                b == RoleEnum::Builder(RoleStatus::initial()),
                p == RoleEnum::Porter(RoleStatus::initial()),
                rp == RoleEnum::Repairer(RoleStatus::initial()),
                keep == (|k: Seq<char>| names(alive@).contains(k)),
            decreases self.creep_map.len() - i,
        {
            assert(start.take(i as int + 1).drop_last() == start.take(i as int));
            assert(start.take(i as int + 1).last() == start[i as int]);
            if contains_name(alive, &self.creep_map[i].name) {
                let e = CreepRoleName { name: self.creep_map[i].name.clone(), role: self.creep_map[i].role.clone() };
                assert(e == start[i as int]);
                let ghost before = kept@;
                proof {
                    lemma_count_named_le(before, h);
                    lemma_count_named_le(before, u);
                    lemma_count_named_le(before, b);
                    lemma_count_named_le(before, p);
                    lemma_count_named_le(before, rp);
                }
                let role = RoleEnum::from(e.role.clone());
                kept.push(e);
                assert(kept@.drop_last() == before);
                match role {
                    RoleEnum::Harvester(_) => self.harvester += 1,
                    RoleEnum::Upgrader(_) => self.upgrader += 1,
                    RoleEnum::Builder(_) => self.builder += 1,
                    RoleEnum::Porter(_) => self.porter += 1,
                    RoleEnum::Repairer(_) => self.repairer += 1,
                }
            }
            i += 1;
        }
        assert(start.take(start.len() as int) == start);
        proof {
            lemma_filter_keys(start, keep);
        }
        self.creep_map = kept;
    }

    /// The role the room needs next; an error when the structures of the
    /// room are unknown.
    pub fn next_role(&self, source: &StructureManager) -> (r: Result<RoleEnum, ScreepError>)
        requires
            source.wf(),
        ensures
            match r {
                Err(e) => e matches ScreepError::RoomNotfound(id) && id@ == self.room_id@
                    && !source.rooms().contains_key(self.room_id@),
                Ok(role) => source.rooms().contains_key(self.room_id@) && role == next_role_spec(
                    self.harvester as nat,
                    self.upgrader as nat,
                    self.builder as nat,
                    self.porter as nat,
                    self.repairer as nat,
                    source.rooms()[self.room_id@].source_count,
                ),
            },
    {
        let room_source_info = match source.get_memory(self.room_id.clone()) {
            Some(r) => r,
            None => {
                return Err(ScreepError::RoomNotfound(self.room_id.clone()));
            },
        };
        let s = RoleStatus::default();
        if self.harvester < room_source_info.source_count {
            return Ok(RoleEnum::Harvester(s));
        }
        if self.porter == 0 {
            return Ok(RoleEnum::Porter(s));
        }
        if self.upgrader == 0 {
            return Ok(RoleEnum::Upgrader(s));
        }
        if self.builder == 0 {
            return Ok(RoleEnum::Builder(s));
        }
        if self.repairer == 0 {
            return Ok(RoleEnum::Repairer(s));
        }
        if self.porter < self.harvester {
            Ok(RoleEnum::Porter(s))
        } else if self.builder < 2 {
            Ok(RoleEnum::Builder(s))
        } else if self.upgrader < 2 {
            Ok(RoleEnum::Upgrader(s))
        } else {
            Ok(RoleEnum::Repairer(s))
        }
    }

    fn add_count(&mut self, role: &RoleEnum)
        requires
            old(self).counts_bounded(),
        ensures
            final(self).room_id == old(self).room_id,
            final(self).creep_map == old(self).creep_map,
            final(self).harvester == old(self).harvester + if *role is Harvester { 1int } else { 0 },
            final(self).upgrader == old(self).upgrader + if *role is Upgrader { 1int } else { 0 },
            final(self).builder == old(self).builder + if *role is Builder { 1int } else { 0 },
            final(self).porter == old(self).porter + if *role is Porter { 1int } else { 0 },
            final(self).repairer == old(self).repairer + if *role is Repairer { 1int } else { 0 },
    {
        match role {
            RoleEnum::Harvester(_) => self.harvester += 1,
            RoleEnum::Upgrader(_) => self.upgrader += 1,
            RoleEnum::Builder(_) => self.builder += 1,
            RoleEnum::Porter(_) => self.porter += 1,
            RoleEnum::Repairer(_) => self.repairer += 1,
        }
    }
}

/// The room's counters are the numbers of creeps of each role.
pub open spec fn counts_match(item: RoomScreepsItem) -> bool {
    &&& item.harvester == count_named(item.creep_map@, RoleEnum::Harvester(RoleStatus::initial()))
    &&& item.upgrader == count_named(item.creep_map@, RoleEnum::Upgrader(RoleStatus::initial()))
    &&& item.builder == count_named(item.creep_map@, RoleEnum::Builder(RoleStatus::initial()))
    &&& item.porter == count_named(item.creep_map@, RoleEnum::Porter(RoleStatus::initial()))
    &&& item.repairer == count_named(item.creep_map@, RoleEnum::Repairer(RoleStatus::initial()))
}

/// The creeps of every room, by room name.
pub struct ScreepManager {
    pub room_item: Vec<RoomScreepsItem>,
}

/// A room's creeps after the dead ones are dropped.
pub open spec fn checked_creeps(v: RoomScreepsView, kept: Map<Seq<char>, Seq<char>>, alive: Seq<Seq<char>>) -> bool {
    kept == Map::new(
        |k: Seq<char>| v.creeps.contains_key(k) && alive.contains(k),
        |k: Seq<char>| v.creeps[k],
    )
}

impl ScreepManager {
    pub open spec fn wf(&self) -> bool {
        &&& keys_unique(self.room_item@)
        &&& forall|i: int| 0 <= i < self.room_item@.len() ==> #[trigger] self.room_item@[i].wf()
    }

    pub open spec fn counts_bounded(&self) -> bool {
        forall|i: int| 0 <= i < self.room_item@.len() ==> #[trigger] self.room_item@[i].counts_bounded()
    }

    pub open spec fn rooms(&self) -> Map<Seq<char>, RoomScreepsView> {
        view_map(self.room_item@)
    }

    pub fn new() -> (r: Self)
        ensures
            r.wf(),
            r.rooms() == Map::<Seq<char>, RoomScreepsView>::empty(),
    {
        let r = ScreepManager { room_item: Vec::new() };
        assert(r.rooms() =~= Map::<Seq<char>, RoomScreepsView>::empty());
        r
    }

    /// Records the rooms, each under its name; a later room replaces an
    /// earlier one of the same name.
    pub fn init(&mut self, room_creeps: Vec<RoomScreepsItem>)
        requires
            old(self).wf(),
            forall|i: int| 0 <= i < room_creeps@.len() ==> #[trigger] room_creeps@[i].wf(),
        ensures
            final(self).wf(),
            final(self).rooms() == insert_views(old(self).rooms(), room_creeps@),
    {
        let ghost start = self.room_item@;
        let ghost xs = room_creeps@;
        upsert_entries(&mut self.room_item, room_creeps);
        proof {
            lemma_view_map_upsert_all(start, xs);
            lemma_upsert_all_keeps(start, xs, |x: RoomScreepsItem| x.wf());
        }
    }

    /// Whether the room may spawn another creep, as
    /// `RoomScreepsItem::can_spawing` decides; an unknown room may not.
    pub fn can_spawing(&self, room_id: String, source: &StructureManager, room: Option<RoomSpawnInfo>) -> (r: bool)
        requires
            self.wf(),
            source.wf(),
        ensures
            r == (self.rooms().contains_key(room_id@) && spawn_allowed(
                self.rooms()[room_id@].harvester,
                self.rooms()[room_id@].total(),
                if source.rooms().contains_key(room_id@) {
                    source.rooms()[room_id@].source_count
                } else {
                    0
                },
                room,
            )),
    {
        match find_key(&self.room_item, &room_id) {
            Some(i) => self.room_item[i].can_spawing(source, room),
            None => false,
        }
    }

    /// Records a creep of the room, as `RoomScreepsItem::add_screep` does;
    /// `None`, changing nothing, when the room or its structures are
    /// unknown.
    pub fn add_screep(
        &mut self,
        room_name: String,
        creep_name: String,
        memory: CreepMemory,
        source: &StructureManager,
    ) -> (r: Option<CreepMemory>)
        requires
            old(self).wf(),
            old(self).counts_bounded(),
            source.wf(),
        ensures
            final(self).wf(),
            match r {
                None => final(self).rooms() == old(self).rooms() && !(old(self).rooms().contains_key(
                    room_name@,
                ) && source.rooms().contains_key(room_name@)),
                Some(c) => {
                    let v = old(self).rooms()[room_name@];
                    let role = next_role_spec(
                        v.harvester,
                        v.upgrader,
                        v.builder,
                        v.porter,
                        v.repairer,
                        source.rooms()[room_name@].source_count,
                    );
                    &&& old(self).rooms().contains_key(room_name@)
                    &&& source.rooms().contains_key(room_name@)
                    &&& c.role == role
                    &&& c.name@ == memory.name@
                    &&& c.store_status == memory.store_status
                    &&& final(self).rooms() == old(self).rooms().insert(
                        room_name@,
                        counted(v, creep_name@, role),
                    )
                },
            },
    {
        let i = match find_key(&self.room_item, &room_name) {
            Some(i) => i,
            None => {
                return None;
            },
        };
        let ghost start = self.room_item@;
        assert(start[i as int].counts_bounded() && start[i as int].wf());
        let mut item = self.room_item[i].clone();
        assert(item.room_id@ == room_name@);
        match item.add_screep(creep_name, memory, source) {
            Ok(c) => {
                proof {
                    assert(start[i as int].key() == item.key());
                    assert(start.update(i as int, item) == upsert(start, item));
                    lemma_view_map_upsert(start, item);
                    lemma_upsert_unique(start, item);
                }
                self.room_item.set(i, item);
                assert forall|j: int| 0 <= j < self.room_item@.len() implies #[trigger] self.room_item@[j].wf() by {
                    if j != i {
                        assert(self.room_item@[j] == start[j]);
                    }
                }
                Some(c)
            },
            Err(_) => None,
        }
    }

    /// Drops the dead creeps of every room and counts the others.
    pub fn check(&mut self, alive: &Vec<String>)
        requires
            old(self).wf(),
        ensures
            final(self).wf(),
            final(self).rooms().dom() == old(self).rooms().dom(),
            forall|k: Seq<char>| #[trigger] final(self).rooms().contains_key(k) ==> checked_creeps(
                old(self).rooms()[k],
                final(self).rooms()[k].creeps,
                names(alive@),
            ),
            forall|i: int| 0 <= i < final(self).room_item@.len() ==> {
                let item = #[trigger] final(self).room_item@[i];
                &&& item.harvester == count_named(item.creep_map@, RoleEnum::Harvester(RoleStatus::initial()))
                &&& item.upgrader == count_named(item.creep_map@, RoleEnum::Upgrader(RoleStatus::initial()))
                &&& item.builder == count_named(item.creep_map@, RoleEnum::Builder(RoleStatus::initial()))
                &&& item.porter == count_named(item.creep_map@, RoleEnum::Porter(RoleStatus::initial()))
                &&& item.repairer == count_named(item.creep_map@, RoleEnum::Repairer(RoleStatus::initial()))
            },
    {
        let ghost start = self.room_item@;
        let mut j: usize = 0;
        while j < self.room_item.len()
            invariant
                j <= self.room_item.len(),
                keys_unique(start),
                forall|k: int| 0 <= k < start.len() ==> #[trigger] start[k].wf(),
                self.room_item@.len() == start.len(),
                forall|k: int| 0 <= k < start.len() ==> #[trigger] self.room_item@[k].key() == start[k].key(),
                forall|k: int| 0 <= k < start.len() ==> #[trigger] self.room_item@[k].wf(),
                forall|k: int| 0 <= k < j ==> checked_creeps(start[k]@, #[trigger] self.room_item@[k]@.creeps, names(alive@)),
                forall|k: int| 0 <= k < j ==> {
                    let item = #[trigger] self.room_item@[k];
                    &&& item.harvester == count_named(item.creep_map@, RoleEnum::Harvester(RoleStatus::initial()))
                    &&& item.upgrader == count_named(item.creep_map@, RoleEnum::Upgrader(RoleStatus::initial()))
                    &&& item.builder == count_named(item.creep_map@, RoleEnum::Builder(RoleStatus::initial()))
                    &&& item.porter == count_named(item.creep_map@, RoleEnum::Porter(RoleStatus::initial()))
                    &&& item.repairer == count_named(item.creep_map@, RoleEnum::Repairer(RoleStatus::initial()))
                },
                forall|k: int| j <= k < start.len() ==> #[trigger] self.room_item@[k] == start[k],
            decreases self.room_item.len() - j,
        {
            let mut item = self.room_item[j].clone();
            item.check(alive);
            self.room_item.set(j, item);
            j += 1;
        }
        proof {
            lemma_same_keys(start, self.room_item@);
            assert forall|k: Seq<char>| #[trigger] self.rooms().contains_key(k) implies checked_creeps(
                view_map(start)[k],
                self.rooms()[k].creeps,
                names(alive@),
            ) by {
                let i = crate::utils::keyed::index_of(start, k);
                assert(start[i].key() == k);
                assert(self.room_item@[i].key() == k);
            }
            assert(self.rooms().dom() =~= view_map(start).dom());
        }
    }

    /// A copy of the creeps of the room.
    pub fn get_memory(&self, room_id: String) -> (r: Option<RoomScreepsItem>)
        requires
            self.wf(),
        ensures
            r is None <==> !self.rooms().contains_key(room_id@),
            r matches Some(x) ==> x.wf() && x@ == self.rooms()[room_id@],
    {
        match find_key(&self.room_item, &room_id) {
            Some(i) => Some(self.room_item[i].clone()),
            None => None,
        }
    }
}


/// Which role a new creep takes, from the counts of the room's roles and
/// the number `m` of harvesters its sources take: a harvester while there
/// are fewer than `m`; then, in this order, the first of porter, upgrader,
/// builder and repairer that the room has none of; then a porter while
/// there are fewer porters than harvesters; then a builder while there are
/// fewer than two, an upgrader while there are fewer than two, and a
/// repairer after that.
pub proof fn lemma_next_role_order(h: nat, u: nat, b: nat, p: nat, r: nat, m: nat)
    ensures
        ({
            let s = RoleStatus::initial();
            let role = next_role_spec(h, u, b, p, r, m);
            &&& h < m ==> role == RoleEnum::Harvester(s)
            &&& h >= m && p == 0 ==> role == RoleEnum::Porter(s)
            &&& h >= m && p > 0 && u == 0 ==> role == RoleEnum::Upgrader(s)
            &&& h >= m && p > 0 && u > 0 && b == 0 ==> role == RoleEnum::Builder(s)
            &&& h >= m && p > 0 && u > 0 && b > 0 && r == 0 ==> role == RoleEnum::Repairer(s)
            &&& h >= m && p > 0 && u > 0 && b > 0 && r > 0 && p < h ==> role == RoleEnum::Porter(s)
            &&& h >= m && p > 0 && u > 0 && b > 0 && r > 0 && p >= h && b < 2 ==> role == RoleEnum::Builder(s)
            &&& h >= m && p > 0 && u > 0 && b >= 2 && r > 0 && p >= h && u < 2 ==> role == RoleEnum::Upgrader(
                s,
            )
            &&& h >= m && p > 0 && u >= 2 && b >= 2 && r > 0 && p >= h ==> role == RoleEnum::Repairer(s)
        }),
{
}

/// When a room may spawn: with its controller at level two or below it may
/// always spawn while it has fewer harvesters than its sources take,
/// whatever its other creeps; beyond that only with a container and fewer
/// than five creeps per harvester its sources take. At a higher level, or
/// when the controller or room is unknown, it may spawn while it has fewer
/// than five creeps per harvester its sources take.
pub proof fn lemma_spawn_rule(harvester: nat, total: nat, m: nat, room: Option<RoomSpawnInfo>)
    ensures
        (room matches Some(info) && info.controller_level matches Some(level) && level <= 2) ==> (
        spawn_allowed(harvester, total, m, room) == (harvester < m || (0 < room->0.container_count && total
            < m * 5))),
        !(room matches Some(info) && info.controller_level matches Some(level) && level <= 2) ==> (
        spawn_allowed(harvester, total, m, room) == (total < m * 5)),
{
}

} // verus!
