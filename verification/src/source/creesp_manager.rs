use vstd::prelude::*;

use crate::model::ctx::CreepMemory;
use crate::role::{RoleEnum, RoleStatus};
use crate::source::source_manager::SourceManager;
use crate::utils::errorx::ScreepError;
use crate::utils::keyed::{
    filter_keys,
    find_key,
    insert_views,
    keys_unique,
    lemma_filter_keys,
    lemma_same_keys,
    lemma_upsert_all_keeps,
    lemma_upsert_unique,
    lemma_view_map_pointwise,
    lemma_view_map_upsert,
    lemma_view_map_upsert_all,
    upsert,
    upsert_entries,
    upsert_entry,
    view_map,
    Keyed,
};
use crate::utils::{contains_name, names};

verus! {

/// A creep and its role.
pub struct CreepRole {
    pub name: String,
    pub role: RoleEnum,
}

impl View for CreepRole {
    type V = RoleEnum;

    open spec fn view(&self) -> RoleEnum {
        self.role
    }
}

impl Keyed for CreepRole {
    open spec fn key(&self) -> Seq<char> {
        self.name@
    }

    fn key_ref(&self) -> (r: &String) {
        &self.name
    }
}

impl Clone for CreepRole {
    fn clone(&self) -> (r: Self)
        ensures
            r.name@ == self.name@,
            r.role == self.role,
    {
        CreepRole { name: self.name.clone(), role: self.role }
    }
}

/// The room's counters are the numbers of its harvesters, upgraders and
/// builders.
pub open spec fn counts_match(item: RoomScreepsItem) -> bool {
    &&& item.harvester == count_role(item.creep_map@, RoleEnum::Harvester(RoleStatus::initial()))
    &&& item.upgrader == count_role(item.creep_map@, RoleEnum::Upgrader(RoleStatus::initial()))
    &&& item.builder == count_role(item.creep_map@, RoleEnum::Builder(RoleStatus::initial()))
}

/// The number of creeps of the list whose role is `kind`'s.
pub open spec fn count_role(s: Seq<CreepRole>, kind: RoleEnum) -> nat
    decreases s.len(),
{
    if s.len() == 0 {
        0
    } else {
        count_role(s.drop_last(), kind) + if s.last().role.same_role(kind) {
            1nat
        } else {
            0nat
        }
    }
}

/// No role is held by more creeps than the list has.
pub proof fn lemma_count_role_le(s: Seq<CreepRole>, kind: RoleEnum)
    ensures
        count_role(s, kind) <= s.len(),
    decreases s.len(),
{
    if s.len() > 0 {
        lemma_count_role_le(s.drop_last(), kind);
    }
}

/// The role a new creep of a room takes, given how many harvesters,
/// upgraders and builders the room has and how many harvesters its sources
/// take: first fill the sources, then make sure there is a builder and an
/// upgrader, then keep two upgraders and two builders per harvester.
pub open spec fn next_role_spec(harvester: nat, upgrader: nat, builder: nat, max_count: nat) -> RoleEnum {
    if harvester < max_count {
        RoleEnum::Harvester(RoleStatus::initial())
    } else if builder == 0 {
        RoleEnum::Builder(RoleStatus::initial())
    } else if upgrader == 0 {
        RoleEnum::Upgrader(RoleStatus::initial())
    } else if upgrader < harvester * 2 {
        RoleEnum::Upgrader(RoleStatus::initial())
    } else if builder < harvester * 2 {
        RoleEnum::Builder(RoleStatus::initial())
    } else {
        RoleEnum::Harvester(RoleStatus::initial())
    }
}

/// The creeps of a room, by role.
pub struct RoomScreepsItem {
    pub room_id: String,
    pub harvester: usize,
    pub upgrader: usize,
    pub builder: usize,
    /// The role of each creep, by creep name.
    pub creep_map: Vec<CreepRole>,
}

pub struct RoomScreepsView {
    pub room_id: Seq<char>,
    pub harvester: nat,
    pub upgrader: nat,
    pub builder: nat,
    pub creeps: Map<Seq<char>, RoleEnum>,
}

impl View for RoomScreepsItem {
    type V = RoomScreepsView;

    open spec fn view(&self) -> RoomScreepsView {
        RoomScreepsView {
            room_id: self.room_id@,
            harvester: self.harvester as nat,
            upgrader: self.upgrader as nat,
            builder: self.builder as nat,
            creeps: view_map(self.creep_map@),
        }
    }
}

impl Keyed for RoomScreepsItem {
    open spec fn key(&self) -> Seq<char> {
        self.room_id@
    }

    fn key_ref(&self) -> (r: &String) {
        &self.room_id
    }
}

impl Clone for RoomScreepsItem {
    fn clone(&self) -> (r: Self)
        ensures
            self.wf() ==> r@ == self@,
            r.wf() == self.wf(),
            r.room_id@ == self.room_id@,
    {
        let mut creep_map: Vec<CreepRole> = Vec::new();
        let mut i: usize = 0;
        while i < self.creep_map.len()
            invariant
                i <= self.creep_map.len(),
                creep_map@.len() == i,
                forall|j: int| 0 <= j < i ==> #[trigger] creep_map@[j].key() == self.creep_map@[j].key(),
                forall|j: int| 0 <= j < i ==> #[trigger] creep_map@[j]@ == self.creep_map@[j]@,
            decreases self.creep_map.len() - i,
        {
            creep_map.push(self.creep_map[i].clone());
            i += 1;
        }
        proof {
            if keys_unique(self.creep_map@) {
                lemma_view_map_pointwise(self.creep_map@, creep_map@, |k: Seq<char>, v: RoleEnum| v);
                assert(view_map(creep_map@) =~= view_map(self.creep_map@));
            }
            if keys_unique(creep_map@) {
                lemma_same_keys(creep_map@, self.creep_map@);
            }
        }
        RoomScreepsItem {
            room_id: self.room_id.clone(),
            harvester: self.harvester,
            upgrader: self.upgrader,
            builder: self.builder,
            creep_map,
        }
    }
}

impl Default for RoomScreepsItem {
    /// A room with no name and no creeps.
    fn default() -> (r: Self)
        ensures
            r.wf(),
            r@ == (RoomScreepsView {
                room_id: Seq::empty(),
                harvester: 0,
                upgrader: 0,
                builder: 0,
                creeps: Map::empty(),
            }),
    {
        RoomScreepsItem::new(String::new())
    }
}

impl RoomScreepsItem {
    /// No creep is listed twice.
    pub open spec fn wf(&self) -> bool {
        keys_unique(self.creep_map@)
    }

    /// Rooms may always spawn.
    pub fn can_spawing(&self) -> (r: bool)
        ensures
            r,
    {
        true
    }

    pub fn new(id: String) -> (r: RoomScreepsItem)
        ensures
            r.wf(),
            r@ == (RoomScreepsView {
                room_id: id@,
                harvester: 0,
                upgrader: 0,
                builder: 0,
                creeps: Map::empty(),
            }),
    {
        let r = RoomScreepsItem { room_id: id, harvester: 0, upgrader: 0, builder: 0, creep_map: Vec::new() };
        assert(view_map(r.creep_map@) =~= Map::<Seq<char>, RoleEnum>::empty());
        r
    }

    /// Creates the record for a creep: its memory gets the role the room
    /// needs next, and the creep is counted. Fails, changing nothing, when
    /// the sources of the room are unknown.
    pub fn add_screep(&mut self, creep_name: String, memory: CreepMemory, source: &SourceManager) -> (r:
        Result<CreepMemory, ScreepError>)
        requires
            old(self).wf(),
            source.wf(),
            old(self).harvester < usize::MAX,
            old(self).upgrader < usize::MAX,
            old(self).builder < usize::MAX,
        ensures
            final(self).wf(),
            match r {
                Err(e) => e matches ScreepError::RoomNotfound(id) && id@ == old(self).room_id@
                    && !source.rooms().contains_key(old(self).room_id@) && final(self)@ == old(self)@,
                Ok(c) => {
                    let role = next_role_spec(
                        old(self).harvester as nat,
                        old(self).upgrader as nat,
                        old(self).builder as nat,
                        source.rooms()[old(self).room_id@].max_count,
                    );
                    &&& source.rooms().contains_key(old(self).room_id@)
                    &&& c.role == role
                    &&& c.name@ == memory.name@
                    &&& c.store_status == memory.store_status
                    &&& final(self)@ == counted(old(self)@, creep_name@, role)
                },
            },
    {
        let role = match self.next_role(source) {
            Ok(role) => role,
            Err(e) => {
                return Err(e);
            },
        };
        let mut c = memory;
        c.role = role;
        self.add_count(creep_name, role);
        Ok(c)
    }

    /// Drops the creeps that are no longer alive and counts the others by
    /// role.
    pub fn check(&mut self, alive: &Vec<String>)
        requires
            old(self).wf(),
        ensures
            final(self).wf(),
            final(self).room_id == old(self).room_id,
            final(self)@.creeps == Map::new(
                |k: Seq<char>| old(self)@.creeps.contains_key(k) && names(alive@).contains(k),
                |k: Seq<char>| old(self)@.creeps[k],
            ),
            final(self).harvester == count_role(final(self).creep_map@, RoleEnum::Harvester(RoleStatus::initial())),
            final(self).upgrader == count_role(final(self).creep_map@, RoleEnum::Upgrader(RoleStatus::initial())),
            final(self).builder == count_role(final(self).creep_map@, RoleEnum::Builder(RoleStatus::initial())),
    {
        let ghost keep = |k: Seq<char>| names(alive@).contains(k);
        let ghost start = self.creep_map@;
        let h = RoleEnum::Harvester(RoleStatus::default());
        let u = RoleEnum::Upgrader(RoleStatus::default());
        let b = RoleEnum::Builder(RoleStatus::default());
        let mut kept: Vec<CreepRole> = Vec::new();
        let mut harvester: usize = 0;
        let mut upgrader: usize = 0;
        let mut builder: usize = 0;
        let mut i: usize = 0;
        while i < self.creep_map.len()
            invariant
                i <= self.creep_map.len(),
                start == self.creep_map@,
                kept@ == filter_keys(start.take(i as int), keep),
                harvester == count_role(kept@, h),
                upgrader == count_role(kept@, u),
                builder == count_role(kept@, b),
                kept@.len() <= i,
                h == RoleEnum::Harvester(RoleStatus::initial()),
                u == RoleEnum::Upgrader(RoleStatus::initial()),
                b == RoleEnum::Builder(RoleStatus::initial()),
                keep == (|k: Seq<char>| names(alive@).contains(k)),
            decreases self.creep_map.len() - i,
        {
            assert(start.take(i as int + 1).drop_last() == start.take(i as int));
            assert(start.take(i as int + 1).last() == start[i as int]);
            if contains_name(alive, &self.creep_map[i].name) {
                let e = CreepRole { name: self.creep_map[i].name.clone(), role: self.creep_map[i].role };
                assert(e == start[i as int]);
                let ghost before = kept@;
                proof {
                    lemma_count_role_le(before, h);
                    lemma_count_role_le(before, u);
                    lemma_count_role_le(before, b);
                }
                let role = e.role;
                kept.push(e);
                assert(kept@.drop_last() == before);
                match role {
                    RoleEnum::Harvester(_) => harvester += 1,
                    RoleEnum::Upgrader(_) => upgrader += 1,
                    RoleEnum::Builder(_) => builder += 1,
                    _ => {},
                }
            }
            i += 1;
        }
        assert(start.take(start.len() as int) == start);
        proof {
            lemma_filter_keys(start, keep);
        }
        self.creep_map = kept;
        self.harvester = harvester;
        self.upgrader = upgrader;
        self.builder = builder;
    }

    /// The role the room needs next; an error when the sources of the room
    /// are unknown.
    pub fn next_role(&self, source: &SourceManager) -> (r: Result<RoleEnum, ScreepError>)
        requires
            source.wf(),
        ensures
            match r {
                Err(e) => e matches ScreepError::RoomNotfound(id) && id@ == self.room_id@
                    && !source.rooms().contains_key(self.room_id@),
                Ok(role) => source.rooms().contains_key(self.room_id@) && role == next_role_spec(
                    self.harvester as nat,
                    self.upgrader as nat,
                    self.builder as nat,
                    source.rooms()[self.room_id@].max_count,
                ),
            },
    {
        let room_source_info = match source.get_memory(self.room_id.clone()) {
            Some(r) => r,
            None => {
                return Err(ScreepError::RoomNotfound(self.room_id.clone()));
            },
        };
        let status = RoleStatus::default();
        if self.harvester < room_source_info.max_count {
            return Ok(RoleEnum::Harvester(status));
        }
        if self.builder == 0 {
            return Ok(RoleEnum::Builder(status));
        }
        if self.upgrader == 0 {
            return Ok(RoleEnum::Upgrader(status));
        }
        // Twice the harvesters, compared without overflow.
        let twice_more_than_upgraders = self.harvester > usize::MAX / 2 || self.upgrader < self.harvester
            * 2;
        let twice_more_than_builders = self.harvester > usize::MAX / 2 || self.builder < self.harvester
            * 2;
        if twice_more_than_upgraders {
            Ok(RoleEnum::Upgrader(status))
        } else if twice_more_than_builders {
            Ok(RoleEnum::Builder(status))
        } else {
            Ok(RoleEnum::Harvester(status))
        }
    }

    /// Records the creep under its role and counts it.
    fn add_count(&mut self, creep_name: String, role: RoleEnum)
        requires
            old(self).wf(),
            old(self).harvester < usize::MAX,
            old(self).upgrader < usize::MAX,
            old(self).builder < usize::MAX,
        ensures
            final(self).wf(),
            final(self)@ == counted(old(self)@, creep_name@, role),
            final(self).room_id == old(self).room_id,
    {
        match role {
            RoleEnum::Harvester(_) => self.harvester += 1,
            RoleEnum::Upgrader(_) => self.upgrader += 1,
            RoleEnum::Builder(_) => self.builder += 1,
            _ => {},
        }
        let ghost start = self.creep_map@;
        let e = CreepRole { name: creep_name, role };
        proof {
            lemma_view_map_upsert(start, e);
        }
        upsert_entry(&mut self.creep_map, e);
    }
}

/// The room after a creep of the given role has been recorded and counted.
pub open spec fn counted(v: RoomScreepsView, name: Seq<char>, role: RoleEnum) -> RoomScreepsView {
    RoomScreepsView {
        harvester: if role is Harvester { v.harvester + 1 } else { v.harvester },
        upgrader: if role is Upgrader { v.upgrader + 1 } else { v.upgrader },
        builder: if role is Builder { v.builder + 1 } else { v.builder },
        creeps: v.creeps.insert(name, role),
        ..v
    }
}

/// The creeps of every room, by room name.
pub struct ScreepManager {
    pub room_item: Vec<RoomScreepsItem>,
}

/// A room's creeps after the dead ones are dropped and the rest counted.
pub open spec fn checked_creeps(v: RoomScreepsView, kept: Map<Seq<char>, RoleEnum>, alive: Seq<Seq<char>>) -> bool {
    kept == Map::new(
        |k: Seq<char>| v.creeps.contains_key(k) && alive.contains(k),
        |k: Seq<char>| v.creeps[k],
    )
}

impl ScreepManager {
    /// Every room is listed once and is itself well formed.
    pub open spec fn wf(&self) -> bool {
        &&& keys_unique(self.room_item@)
        &&& forall|i: int| 0 <= i < self.room_item@.len() ==> #[trigger] self.room_item@[i].wf()
    }

    /// No count of any room is at its limit.
    pub open spec fn counts_bounded(&self) -> bool {
        forall|i: int|
            0 <= i < self.room_item@.len() ==> {
                &&& #[trigger] self.room_item@[i].harvester < usize::MAX
                &&& self.room_item@[i].upgrader < usize::MAX
                &&& self.room_item@[i].builder < usize::MAX
            }
    }

    pub open spec fn rooms(&self) -> Map<Seq<char>, RoomScreepsView> {
        view_map(self.room_item@)
    }

    pub fn new() -> (r: Self)
        ensures
            r.wf(),
            r.rooms() == Map::<Seq<char>, RoomScreepsView>::empty(),
    {
        let r = ScreepManager { room_item: Vec::new() };
        assert(r.rooms() =~= Map::<Seq<char>, RoomScreepsView>::empty());
        r
    }

    /// Records the rooms, each under its name; a later room replaces an
    /// earlier one of the same name.
    pub fn init(&mut self, room_creeps: Vec<RoomScreepsItem>)
        requires
            old(self).wf(),
            forall|i: int| 0 <= i < room_creeps@.len() ==> #[trigger] room_creeps@[i].wf(),
        ensures
            final(self).wf(),
            final(self).rooms() == insert_views(old(self).rooms(), room_creeps@),
    {
        let ghost start = self.room_item@;
        let ghost xs = room_creeps@;
        upsert_entries(&mut self.room_item, room_creeps);
        proof {
            lemma_view_map_upsert_all(start, xs);
            lemma_upsert_all_keeps(start, xs, |x: RoomScreepsItem| x.wf());
        }
    }

    /// Whether the room may spawn a creep: it must be known.
    pub fn can_spawing(&self, room_id: String) -> (r: bool)
        requires
            self.wf(),
        ensures
            r == self.rooms().contains_key(room_id@),
    {
        match find_key(&self.room_item, &room_id) {
            Some(i) => self.room_item[i].can_spawing(),
            None => false,
        }
    }

    /// Records a creep of the room, as `RoomScreepsItem::add_screep` does;
    /// `None`, changing nothing, when the room or its sources are unknown.
    pub fn add_screep(
        &mut self,
        room_name: String,
        creep_name: String,
        memory: CreepMemory,
        source: &SourceManager,
    ) -> (r: Option<CreepMemory>)
        requires
            old(self).wf(),
            old(self).counts_bounded(),
            source.wf(),
        ensures
            final(self).wf(),
            match r {
                None => final(self).rooms() == old(self).rooms() && !(old(self).rooms().contains_key(
                    room_name@,
                ) && source.rooms().contains_key(room_name@)),
                Some(c) => {
                    let v = old(self).rooms()[room_name@];
                    let role = next_role_spec(
                        v.harvester,
                        v.upgrader,
                        v.builder,
                        source.rooms()[room_name@].max_count,
                    );
                    &&& old(self).rooms().contains_key(room_name@)
                    &&& source.rooms().contains_key(room_name@)
                    &&& c.role == role
                    &&& c.name@ == memory.name@
                    &&& c.store_status == memory.store_status
                    &&& final(self).rooms() == old(self).rooms().insert(
                        room_name@,
                        counted(v, creep_name@, role),
                    )
                },
            },
    {
        let i = match find_key(&self.room_item, &room_name) {
            Some(i) => i,
            None => {
                return None;
            },
        };
        let ghost start = self.room_item@;
        let mut item = self.room_item[i].clone();
        assert(item.room_id@ == room_name@);
        match item.add_screep(creep_name, memory, source) {
            Ok(c) => {
                proof {
                    assert(start[i as int].key() == item.key());
                    assert(start.update(i as int, item) == upsert(start, item));
                    lemma_view_map_upsert(start, item);
                    lemma_upsert_unique(start, item);
                }
                self.room_item.set(i, item);
                assert forall|j: int| 0 <= j < self.room_item@.len() implies #[trigger] self.room_item@[j].wf() by {
                    if j != i {
                        assert(self.room_item@[j] == start[j]);
                    }
                }
                Some(c)
            },
            Err(_) => None,
        }
    }

    /// Drops the dead creeps of every room and counts the others.
    pub fn check(&mut self, alive: &Vec<String>)
        requires
            old(self).wf(),
        ensures
            final(self).wf(),
            final(self).rooms().dom() == old(self).rooms().dom(),
            forall|k: Seq<char>| #[trigger] final(self).rooms().contains_key(k) ==> checked_creeps(
                old(self).rooms()[k],
                final(self).rooms()[k].creeps,
                names(alive@),
            ) && final(self).rooms()[k].room_id == old(self).rooms()[k].room_id,
            forall|i: int| 0 <= i < final(self).room_item@.len() ==> {
                let item = #[trigger] final(self).room_item@[i];
                &&& item.harvester == count_role(item.creep_map@, RoleEnum::Harvester(RoleStatus::initial()))
                &&& item.upgrader == count_role(item.creep_map@, RoleEnum::Upgrader(RoleStatus::initial()))
                &&& item.builder == count_role(item.creep_map@, RoleEnum::Builder(RoleStatus::initial()))
            },
    {
        let ghost start = self.room_item@;
        let mut j: usize = 0;
        while j < self.room_item.len()
            invariant
                j <= self.room_item.len(),
                keys_unique(start),
                forall|k: int| 0 <= k < start.len() ==> #[trigger] start[k].wf(),
                self.room_item@.len() == start.len(),
                forall|k: int| 0 <= k < start.len() ==> #[trigger] self.room_item@[k].key() == start[k].key(),
                forall|k: int| 0 <= k < start.len() ==> #[trigger] self.room_item@[k].wf(),
                forall|k: int| 0 <= k < j ==> checked_creeps(start[k]@, #[trigger] self.room_item@[k]@.creeps, names(alive@)),
                forall|k: int| 0 <= k < j ==> {
                    let item = #[trigger] self.room_item@[k];
                    &&& item.harvester == count_role(item.creep_map@, RoleEnum::Harvester(RoleStatus::initial()))
                    &&& item.upgrader == count_role(item.creep_map@, RoleEnum::Upgrader(RoleStatus::initial()))
                    &&& item.builder == count_role(item.creep_map@, RoleEnum::Builder(RoleStatus::initial()))
                },
                forall|k: int| j <= k < start.len() ==> #[trigger] self.room_item@[k] == start[k],
            decreases self.room_item.len() - j,
        {
            let mut item = self.room_item[j].clone();
            item.check(alive);
            self.room_item.set(j, item);
            j += 1;
        }
        proof {
            lemma_same_keys(start, self.room_item@);
            assert forall|k: Seq<char>| #[trigger] self.rooms().contains_key(k) implies checked_creeps(
                view_map(start)[k],
                self.rooms()[k].creeps,
                names(alive@),
            ) && self.rooms()[k].room_id == view_map(start)[k].room_id by {
                let i = crate::utils::keyed::index_of(start, k);
                assert(start[i].key() == k);
                assert(self.room_item@[i].key() == k);
            }
            assert(self.rooms().dom() =~= view_map(start).dom());
        }
    }

    /// A copy of the creeps of the room.
    pub fn get_memory(&self, room_id: String) -> (r: Option<RoomScreepsItem>)
        requires
            self.wf(),
        ensures
            r is None <==> !self.rooms().contains_key(room_id@),
            r matches Some(x) ==> x.wf() && x@ == self.rooms()[room_id@],
    {
        match find_key(&self.room_item, &room_id) {
            Some(i) => Some(self.room_item[i].clone()),
            None => None,
        }
    }
}


/// Which role a new creep of the room takes, from its counts of harvesters
/// `h`, upgraders `u` and builders `b` and the number `m` of harvesters its
/// sources take: a harvester while there are fewer than `m`; then a
/// builder if there is none, an upgrader if there is none; then an upgrader
/// while there are fewer than twice the harvesters, a builder while there
/// are fewer than twice the harvesters, and a harvester after that.
pub proof fn lemma_next_role_order(h: nat, u: nat, b: nat, m: nat)
    ensures
        ({
            let s = RoleStatus::initial();
            let role = next_role_spec(h, u, b, m);
            &&& h < m ==> role == RoleEnum::Harvester(s)
            &&& h >= m && b == 0 ==> role == RoleEnum::Builder(s)
            &&& h >= m && b > 0 && u == 0 ==> role == RoleEnum::Upgrader(s)
            &&& h >= m && b > 0 && u > 0 && u < 2 * h ==> role == RoleEnum::Upgrader(s)
            &&& h >= m && b > 0 && u > 0 && u >= 2 * h && b < 2 * h ==> role == RoleEnum::Builder(s)
            &&& h >= m && b > 0 && u > 0 && u >= 2 * h && b >= 2 * h ==> role == RoleEnum::Harvester(s)
        }),
{
}

} // verus!
