use vstd::prelude::*;

use crate::utils::errorx::ScreepError;
use crate::utils::find::{get_near_site, is_first_nearest, Pos, Site};
use crate::utils::keyed::{
    find_key,
    insert_views,
    keys_unique,
    lemma_same_keys,
    lemma_upsert_all_keeps,
    lemma_upsert_unique,
    lemma_view_map_pointwise,
    lemma_view_map_upsert,
    lemma_view_map_upsert_all,
    upsert,
    upsert_entries,
    upsert_entry,
    view_map,
    Keyed,
};
use crate::utils::{
    clone_names,
    contains_name,
    lemma_push_contains,
    lemma_without_contains,
    names,
    remove_name,
    without,
};

verus! {

/// A structure that creeps work at, and the creeps working there.
pub struct StructureInfo {
    pub room_id: String,
    pub object_id: String,
    /// Names of the creeps bound to the structure.
    pub creeps: Vec<String>,
    /// How many creeps may work there at once.
    pub max_count: usize,
    /// Whether there is work to do there.
    pub work: bool,
}

pub struct StructureInfoView {
    pub room_id: Seq<char>,
    pub object_id: Seq<char>,
    pub creeps: Seq<Seq<char>>,
    pub max_count: nat,
    pub work: bool,
}

impl View for StructureInfo {
    type V = StructureInfoView;

    open spec fn view(&self) -> StructureInfoView {
        StructureInfoView {
            room_id: self.room_id@,
            object_id: self.object_id@,
            creeps: names(self.creeps@),
            max_count: self.max_count as nat,
            work: self.work,
        }
    }
}

impl Clone for StructureInfo {
    fn clone(&self) -> (r: Self)
        ensures
            r@ == self@,
    {
        StructureInfo {
            room_id: self.room_id.clone(),
            object_id: self.object_id.clone(),
            creeps: clone_names(&self.creeps),
            max_count: self.max_count,
            work: self.work,
        }
    }
}

/// The kinds of structure creeps are bound to.
#[derive(Debug, Clone, Copy, PartialEq, Eq, Structural)]
pub enum StructureInfoKind {
    Source,
    Rampart,
    Wall,
}

/// A structure creeps work at, by kind.
pub enum StructureInfoEnum {
    Source(StructureInfo),
    Rampart(StructureInfo),
    Wall(StructureInfo),
}

pub struct StructureEntryView {
    pub kind: StructureInfoKind,
    pub info: StructureInfoView,
}

impl View for StructureInfoEnum {
    type V = StructureEntryView;

    open spec fn view(&self) -> StructureEntryView {
        match self {
            StructureInfoEnum::Source(s) => StructureEntryView { kind: StructureInfoKind::Source, info: s@ },
            StructureInfoEnum::Rampart(s) => StructureEntryView { kind: StructureInfoKind::Rampart, info: s@ },
            StructureInfoEnum::Wall(s) => StructureEntryView { kind: StructureInfoKind::Wall, info: s@ },
        }
    }
}

impl Keyed for StructureInfoEnum {
    open spec fn key(&self) -> Seq<char> {
        self@.info.object_id
    }

    fn key_ref(&self) -> (r: &String) {
        match self {
            StructureInfoEnum::Source(s) => &s.object_id,
            StructureInfoEnum::Rampart(s) => &s.object_id,
            StructureInfoEnum::Wall(s) => &s.object_id,
        }
    }
}

impl Clone for StructureInfoEnum {
    fn clone(&self) -> (r: Self)
        ensures
            r@ == self@,
    {
        match self {
            StructureInfoEnum::Source(s) => StructureInfoEnum::Source(s.clone()),
            StructureInfoEnum::Rampart(s) => StructureInfoEnum::Rampart(s.clone()),
            StructureInfoEnum::Wall(s) => StructureInfoEnum::Wall(s.clone()),
        }
    }
}

/// What the game shows of a structure's object this tick.
#[derive(Debug, Clone, Copy, PartialEq, Eq, Structural)]
pub enum SiteState {
    /// The id does not name an object of the structure's kind.
    Missing,
    /// A source holding this much energy.
    Energy(u32),
    /// A structure with these hit points out of its maximum.
    Hits(u32, u32),
}

/// What the game shows of the structure with this object id.
pub struct SiteReport {
    pub object_id: String,
    pub state: SiteState,
}

/// The harvester limit of a source with `wall_count` walls among the nine
/// tiles around and under it: one per free tile, but two at most.
pub open spec fn source_limit(wall_count: nat) -> nat {
    if 9 - wall_count > 2 {
        2
    } else {
        (9 - wall_count) as nat
    }
}

/// A structure's state after the game has been looked at: a source keeps at
/// most its limit of creeps and has work while it holds energy; a rampart
/// has work while it is damaged, and at full health has none and loses its
/// creeps; an object that cannot be found changes nothing more.
pub open spec fn checked_entry(v: StructureEntryView, state: SiteState) -> StructureEntryView {
    match v.kind {
        StructureInfoKind::Source => {
            let cut = if v.info.creeps.len() > v.info.max_count {
                v.info.creeps.take(v.info.max_count as int)
            } else {
                v.info.creeps
            };
            let i = StructureInfoView { creeps: cut, ..v.info };
            match state {
                SiteState::Energy(e) => if e == 0 {
                    StructureEntryView { info: StructureInfoView { work: false, creeps: Seq::empty(), ..i }, ..v }
                } else {
                    StructureEntryView { info: StructureInfoView { work: true, ..i }, ..v }
                },
                _ => StructureEntryView { info: i, ..v },
            }
        },
        StructureInfoKind::Rampart => match state {
            SiteState::Hits(h, m) => if h == m {
                StructureEntryView { info: StructureInfoView { work: false, creeps: Seq::empty(), ..v.info }, ..v }
            } else {
                StructureEntryView { info: StructureInfoView { work: true, ..v.info }, ..v }
            },
            _ => v,
        },
        StructureInfoKind::Wall => v,
    }
}

impl StructureInfoEnum {
    /// The record shared by every kind.
    pub fn info(&self) -> (r: &StructureInfo)
        ensures
            r@ == self@.info,
    {
        match self {
            StructureInfoEnum::Source(s) => s,
            StructureInfoEnum::Rampart(s) => s,
            StructureInfoEnum::Wall(s) => s,
        }
    }

    pub open spec fn kind(&self) -> StructureInfoKind {
        self@.kind
    }

    /// A fresh record of the same kind for the structure `structure_id` of
    /// room `room_name`, with nobody bound and work to do. A source takes
    /// one creep per tile around it that is not a wall, two at most; a
    /// rampart or a wall takes one.
    pub fn init(&self, room_name: String, structure_id: String, wall_count: usize) -> (r: Self)
        requires
            self@.kind == StructureInfoKind::Source ==> wall_count <= 9,
        ensures
            r@ == (StructureEntryView {
                kind: self@.kind,
                info: StructureInfoView {
                    room_id: room_name@,
                    object_id: structure_id@,
                    creeps: Seq::empty(),
                    max_count: if self@.kind == StructureInfoKind::Source {
                        source_limit(wall_count as nat)
                    } else {
                        1
                    },
                    work: true,
                },
            }),
    {
        let (kind, max_count) = match self {
            StructureInfoEnum::Source(_) => {
                let mut max_count: usize = 9 - wall_count;
                if max_count > 2 {
                    max_count = 2;
                }
                (StructureInfoKind::Source, max_count)
            },
            StructureInfoEnum::Rampart(_) => (StructureInfoKind::Rampart, 1),
            StructureInfoEnum::Wall(_) => (StructureInfoKind::Wall, 1),
        };
        let info = StructureInfo {
            room_id: room_name,
            creeps: Vec::new(),
            object_id: structure_id,
            max_count,
            work: true,
        };
        assert(names(info.creeps@) =~= Seq::<Seq<char>>::empty());
        match kind {
            StructureInfoKind::Source => StructureInfoEnum::Source(info),
            StructureInfoKind::Rampart => StructureInfoEnum::Rampart(info),
            StructureInfoKind::Wall => StructureInfoEnum::Wall(info),
        }
    }

    /// Brings the record in line with what the game shows of its object.
    pub fn check(&mut self, state: SiteState)
        ensures
            final(self)@ == checked_entry(old(self)@, state),
    {
        match self {
            StructureInfoEnum::Source(s) => {
                let count = s.max_count;
                let mut t = s.clone();
                if count < t.creeps.len() {
                    t.creeps.truncate(count);
                    assert(names(t.creeps@) =~= names(s.creeps@).take(count as int));
                }
                match state {
                    SiteState::Energy(e) => {
                        if e == 0 {
                            t.work = false;
                            t.creeps.clear();
                            assert(names(t.creeps@) =~= Seq::<Seq<char>>::empty());
                        } else {
                            t.work = true;
                        }
                    },
                    _ => {},
                }
                *s = t;
            },
            StructureInfoEnum::Rampart(s) => {
                match state {
                    SiteState::Hits(h, m) => {
                        let mut t = s.clone();
                        if h == m {
                            t.work = false;
                            t.creeps.clear();
                            assert(names(t.creeps@) =~= Seq::<Seq<char>>::empty());
                        } else {
                            t.work = true;
                        }
                        *s = t;
                    },
                    _ => {},
                }
            },
            StructureInfoEnum::Wall(_) => {},
        }
    }
}

impl Default for StructureInfo {
    /// A record with empty names, nobody bound, no room for creeps and no
    /// work.
    fn default() -> (r: Self)
        ensures
            r@ == (StructureInfoView {
                room_id: Seq::empty(),
                object_id: Seq::empty(),
                creeps: Seq::empty(),
                max_count: 0,
                work: false,
            }),
    {
        let r = StructureInfo {
            room_id: String::new(),
            object_id: String::new(),
            creeps: Vec::new(),
            max_count: 0,
            work: false,
        };
        assert(names(r.creeps@) =~= Seq::<Seq<char>>::empty());
        r
    }
}

/// A source of a room and how many of the tiles around it are walls.
pub struct WallSite {
    pub id: String,
    pub wall_count: usize,
}

/// What a room holds that creeps can be bound to.
pub struct RoomSites {
    pub name: String,
    pub sources: Vec<WallSite>,
    /// The ids of the room's ramparts.
    pub ramparts: Vec<String>,
}

pub open spec fn source_entry(room: Seq<char>, site: WallSite) -> StructureEntryView {
    StructureEntryView {
        kind: StructureInfoKind::Source,
        info: StructureInfoView {
            room_id: room,
            object_id: site.id@,
            creeps: Seq::empty(),
            max_count: source_limit(site.wall_count as nat),
            work: true,
        },
    }
}

pub open spec fn rampart_entry(room: Seq<char>, id: Seq<char>) -> StructureEntryView {
    StructureEntryView {
        kind: StructureInfoKind::Rampart,
        info: StructureInfoView { room_id: room, object_id: id, creeps: Seq::empty(), max_count: 1, work: true },
    }
}

pub open spec fn insert_sources(m: Map<Seq<char>, StructureEntryView>, room: Seq<char>, s: Seq<WallSite>) -> Map<
    Seq<char>,
    StructureEntryView,
>
    decreases s.len(),
{
    if s.len() == 0 {
        m
    } else {
        insert_sources(m, room, s.drop_last()).insert(s.last().id@, source_entry(room, s.last()))
    }
}

pub open spec fn insert_ramparts(m: Map<Seq<char>, StructureEntryView>, room: Seq<char>, ids: Seq<String>) -> Map<
    Seq<char>,
    StructureEntryView,
>
    decreases ids.len(),
{
    if ids.len() == 0 {
        m
    } else {
        insert_ramparts(m, room, ids.drop_last()).insert(ids.last()@, rampart_entry(room, ids.last()@))
    }
}

/// The harvester limits of a room's sources together.
pub open spec fn total_source_limit(s: Seq<WallSite>) -> nat
    decreases s.len(),
{
    if s.len() == 0 {
        0
    } else {
        total_source_limit(s.drop_last()) + source_limit(s.last().wall_count as nat)
    }
}

/// Whether creep `cid` may be bound to structure `sid`: the structure is
/// known, has work, and has room for the creep or has it already.
pub open spec fn can_bind_structure(m: Map<Seq<char>, StructureEntryView>, sid: Seq<char>, cid: Seq<char>) -> bool {
    &&& m.contains_key(sid)
    &&& m[sid].info.work
    &&& !(m[sid].info.creeps.len() >= m[sid].info.max_count && !m[sid].info.creeps.contains(cid))
}

pub open spec fn with_creeps(v: StructureEntryView, creeps: Seq<Seq<char>>) -> StructureEntryView {
    StructureEntryView { info: StructureInfoView { creeps, ..v.info }, ..v }
}

pub open spec fn bind_structure_entry(k: Seq<char>, v: StructureEntryView, sid: Seq<char>, cid: Seq<char>) -> StructureEntryView {
    if k == sid {
        if v.info.creeps.contains(cid) {
            v
        } else {
            with_creeps(v, v.info.creeps.push(cid))
        }
    } else {
        with_creeps(v, without(v.info.creeps, cid))
    }
}

/// The structures after creep `cid` has been bound to structure `sid`: it
/// is added there, if the structure is known and does not have it yet, and
/// taken off every other.
pub open spec fn bind_structures(m: Map<Seq<char>, StructureEntryView>, sid: Seq<char>, cid: Seq<char>) -> Map<
    Seq<char>,
    StructureEntryView,
> {
    Map::new(|k: Seq<char>| m.contains_key(k), |k: Seq<char>| bind_structure_entry(k, m[k], sid, cid))
}

/// The structures after creep `cid` has been released from all of them.
pub open spec fn cancel_structures(m: Map<Seq<char>, StructureEntryView>, cid: Seq<char>) -> Map<
    Seq<char>,
    StructureEntryView,
> {
    Map::new(|k: Seq<char>| m.contains_key(k), |k: Seq<char>| with_creeps(m[k], without(m[k].info.creeps, cid)))
}

/// What the reports say of the object `id`: the first report about it, or
/// that it is missing.
pub open spec fn report_for(reports: Seq<SiteReport>, id: Seq<char>) -> SiteState
    decreases reports.len(),
{
    if reports.len() == 0 {
        SiteState::Missing
    } else if reports[0].object_id@ == id {
        reports[0].state
    } else {
        report_for(reports.drop_first(), id)
    }
}

/// The structures of a room that creeps are bound to.
pub struct RoomSourceItem {
    pub room_id: String,
    /// How many harvesters the room's sources take together.
    pub source_count: usize,
    /// How many repairers the room's ramparts take together, plus one.
    pub rampart_count: usize,
    pub source_map: Vec<StructureInfoEnum>,
}

pub struct RoomSourceView {
    pub room_id: Seq<char>,
    pub source_count: nat,
    pub rampart_count: nat,
    pub structures: Map<Seq<char>, StructureEntryView>,
}

impl View for RoomSourceItem {
    type V = RoomSourceView;

    open spec fn view(&self) -> RoomSourceView {
        RoomSourceView {
            room_id: self.room_id@,
            source_count: self.source_count as nat,
            rampart_count: self.rampart_count as nat,
            structures: view_map(self.source_map@),
        }
    }
}

impl Keyed for RoomSourceItem {
    open spec fn key(&self) -> Seq<char> {
        self.room_id@
    }

    fn key_ref(&self) -> (r: &String) {
        &self.room_id
    }
}

impl Clone for RoomSourceItem {
    fn clone(&self) -> (r: Self)
        ensures
            self.wf() ==> r@ == self@,
            r.wf() == self.wf(),
            r.room_id@ == self.room_id@,
    {
        let mut source_map: Vec<StructureInfoEnum> = Vec::new();
        let mut i: usize = 0;
        while i < self.source_map.len()
            invariant
                i <= self.source_map.len(),
                source_map@.len() == i,
                forall|j: int| 0 <= j < i ==> #[trigger] source_map@[j]@ == self.source_map@[j]@,
            decreases self.source_map.len() - i,
        {
            source_map.push(self.source_map[i].clone());
            i += 1;
        }
        assert forall|j: int| 0 <= j < source_map@.len() implies #[trigger] source_map@[j].key()
            == self.source_map@[j].key() by {
            assert(source_map@[j]@ == self.source_map@[j]@);
        }
        proof {
            if keys_unique(self.source_map@) {
                lemma_view_map_pointwise(
                    self.source_map@,
                    source_map@,
                    |k: Seq<char>, v: StructureEntryView| v,
                );
                assert(view_map(source_map@) =~= view_map(self.source_map@));
            }
            if keys_unique(source_map@) {
                lemma_same_keys(source_map@, self.source_map@);
            }
        }
        RoomSourceItem {
            room_id: self.room_id.clone(),
            source_count: self.source_count,
            rampart_count: self.rampart_count,
            source_map,
        }
    }
}

impl Default for RoomSourceItem {
    /// A room with no name and no structures.
    fn default() -> (r: Self)
        ensures
            r.wf(),
            r@ == (RoomSourceView {
                room_id: Seq::empty(),
                source_count: 0,
                rampart_count: 0,
                structures: Map::empty(),
            }),
    {
        RoomSourceItem::new(String::new())
    }
}

impl RoomSourceItem {
    /// No structure is listed twice.
    pub open spec fn wf(&self) -> bool {
        keys_unique(self.source_map@)
    }

    pub fn new(id: String) -> (r: Self)
        ensures
            r.wf(),
            r@ == (RoomSourceView {
                room_id: id@,
                source_count: 0,
                rampart_count: 0,
                structures: Map::empty(),
            }),
    {
        let r = RoomSourceItem { room_id: id, source_count: 0, rampart_count: 0, source_map: Vec::new() };
        assert(view_map(r.source_map@) =~= Map::<Seq<char>, StructureEntryView>::empty());
        r
    }

    /// Records the sources and ramparts of the room, given as found there
    /// (the error of the room's lookup when it failed), and counts how many
    /// harvesters and repairers they take; one repairer more is counted for
    /// the walls. The counts start from nothing even when the lookup failed,
    /// and its error is returned.
    pub fn init<E>(&mut self, room: Result<RoomSites, E>) -> (r: Result<(), E>)
        requires
            old(self).wf(),
            room matches Ok(sites) ==> {
                &&& forall|i: int| 0 <= i < sites.sources@.len() ==> #[trigger] sites.sources@[i].wall_count <= 9
                &&& 2 * sites.sources@.len() + sites.ramparts@.len() < usize::MAX
            },
        ensures
            final(self).wf(),
            final(self).room_id == old(self).room_id,
            match room {
                Err(e) => r == Err::<(), E>(e) && final(self)@.structures == old(self)@.structures
                    && final(self).source_count == 0 && final(self).rampart_count == 0,
                Ok(sites) => r is Ok && final(self)@.structures == insert_ramparts(
                    insert_sources(old(self)@.structures, sites.name@, sites.sources@),
                    sites.name@,
                    sites.ramparts@,
                ) && final(self).source_count == total_source_limit(sites.sources@)
                    && final(self).rampart_count == sites.ramparts@.len() + 1,
            },
    {
        self.source_count = 0;
        self.rampart_count = 0;
        let sites = match room {
            Ok(r) => r,
            Err(e) => {
                return Err(e);
            },
        };
        let ghost start = view_map(self.source_map@);
        let template = StructureInfoEnum::Source(StructureInfo::default());
        let mut i: usize = 0;
        while i < sites.sources.len()
            invariant
                i <= sites.sources.len(),
                keys_unique(self.source_map@),
                forall|j: int| 0 <= j < sites.sources@.len() ==> #[trigger] sites.sources@[j].wall_count <= 9,
                2 * sites.sources@.len() + sites.ramparts@.len() < usize::MAX,
                template@.kind == StructureInfoKind::Source,
                view_map(self.source_map@) == insert_sources(start, sites.name@, sites.sources@.take(i as int)),
                self.source_count == total_source_limit(sites.sources@.take(i as int)),
                self.source_count <= 2 * i,
                self.room_id == old(self).room_id,
                self.rampart_count == 0,
            decreases sites.sources.len() - i,
        {
            let site = &sites.sources[i];
            let entry = template.init(sites.name.clone(), site.id.clone(), site.wall_count);
            assert(sites.sources@.take(i as int + 1).drop_last() == sites.sources@.take(i as int));
            assert(sites.sources@.take(i as int + 1).last() == sites.sources@[i as int]);
            self.source_count = self.source_count + entry.info().max_count;
            proof {
                lemma_view_map_upsert(self.source_map@, entry);
            }
            upsert_entry(&mut self.source_map, entry);
            i += 1;
        }
        assert(sites.sources@.take(sites.sources@.len() as int) == sites.sources@);
        let ghost mid = view_map(self.source_map@);
        let template = StructureInfoEnum::Rampart(StructureInfo::default());
        let mut j: usize = 0;
        while j < sites.ramparts.len()
            invariant
                j <= sites.ramparts.len(),
                keys_unique(self.source_map@),
                2 * sites.sources@.len() + sites.ramparts@.len() < usize::MAX,
                template@.kind == StructureInfoKind::Rampart,
                view_map(self.source_map@) == insert_ramparts(mid, sites.name@, sites.ramparts@.take(j as int)),
                self.rampart_count == j,
                self.room_id == old(self).room_id,
                self.source_count == total_source_limit(sites.sources@),
            decreases sites.ramparts.len() - j,
        {
            let entry = template.init(sites.name.clone(), sites.ramparts[j].clone(), 0);
            assert(sites.ramparts@.take(j as int + 1).drop_last() == sites.ramparts@.take(j as int));
            assert(sites.ramparts@.take(j as int + 1).last() == sites.ramparts@[j as int]);
            self.rampart_count = self.rampart_count + entry.info().max_count;
            proof {
                lemma_view_map_upsert(self.source_map@, entry);
            }
            upsert_entry(&mut self.source_map, entry);
            j += 1;
        }
        assert(sites.ramparts@.take(sites.ramparts@.len() as int) == sites.ramparts@);
        self.rampart_count = self.rampart_count + 1;
        Ok(())
    }

    /// Brings every structure in line with what the game shows of it.
    pub fn check(&mut self, reports: &Vec<SiteReport>)
        requires
            old(self).wf(),
        ensures
            final(self).wf(),
            final(self).room_id == old(self).room_id,
            final(self).source_count == old(self).source_count,
            final(self).rampart_count == old(self).rampart_count,
            final(self)@.structures == Map::new(
                |k: Seq<char>| old(self)@.structures.contains_key(k),
                |k: Seq<char>| checked_entry(old(self)@.structures[k], report_for(reports@, k)),
            ),
    {
        let ghost start = self.source_map@;
        let mut j: usize = 0;
        while j < self.source_map.len()
            invariant
                j <= self.source_map.len(),
                self.source_map@.len() == start.len(),
                forall|k: int| 0 <= k < start.len() ==> #[trigger] self.source_map@[k].key() == start[k].key(),
                forall|k: int| 0 <= k < j ==> #[trigger] self.source_map@[k]@ == checked_entry(start[k]@, report_for(reports@, start[k].key())),
                forall|k: int| j <= k < start.len() ==> #[trigger] self.source_map@[k] == start[k],
                self.room_id == old(self).room_id,
                self.source_count == old(self).source_count,
                self.rampart_count == old(self).rampart_count,
            decreases self.source_map.len() - j,
        {
            let mut item = self.source_map[j].clone();
            let state = find_report(reports, item.key_ref());
            item.check(state);
            self.source_map.set(j, item);
            j += 1;
        }
        proof {
            lemma_view_map_pointwise(
                start,
                self.source_map@,
                |k: Seq<char>, v: StructureEntryView| checked_entry(v, report_for(reports@, k)),
            );
        }
    }

    /// Whether the creep may be bound to the structure.
    pub fn check_bind(&self, source_id: &String, creep_id: &String) -> (r: bool)
        requires
            self.wf(),
        ensures
            r == can_bind_structure(self@.structures, source_id@, creep_id@),
    {
        match find_key(&self.source_map, source_id) {
            Some(i) => {
                let s = self.source_map[i].info();
                if !s.work || (s.creeps.len() >= s.max_count && !contains_name(&s.creeps, creep_id)) {
                    return false;
                }
                true
            },
            None => false,
        }
    }

    /// Binds the creep to the structure and releases it from every other.
    pub fn bind_screep(&mut self, source_id: String, creep_id: String)
        requires
            old(self).wf(),
        ensures
            final(self).wf(),
            final(self).room_id == old(self).room_id,
            final(self).source_count == old(self).source_count,
            final(self).rampart_count == old(self).rampart_count,
            final(self)@.structures == bind_structures(old(self)@.structures, source_id@, creep_id@),
    {
        let ghost start = self.source_map@;
        let ghost sid = source_id@;
        let ghost cid = creep_id@;
        if let Some(i) = find_key(&self.source_map, &source_id) {
            if !contains_name(&self.source_map[i].info().creeps, &creep_id) {
                let mut item = self.source_map[i].clone();
                push_creep(&mut item, creep_id.clone());
                self.source_map.set(i, item);
            }
        }
        let mut j: usize = 0;
        while j < self.source_map.len()
            invariant
                j <= self.source_map.len(),
                sid == source_id@,
                cid == creep_id@,
                keys_unique(start),
                self.source_map@.len() == start.len(),
                forall|k: int| 0 <= k < start.len() ==> #[trigger] self.source_map@[k].key() == start[k].key(),
                forall|k: int| 0 <= k < j ==> #[trigger] self.source_map@[k]@ == bind_structure_entry(start[k].key(), start[k]@, sid, cid),
                forall|k: int| j <= k < start.len() && start[k].key() != sid ==> #[trigger] self.source_map@[k] == start[k],
                forall|k: int| j <= k < start.len() && start[k].key() == sid ==> #[trigger] self.source_map@[k]@ == bind_structure_entry(start[k].key(), start[k]@, sid, cid),
                self.room_id == old(self).room_id,
                self.source_count == old(self).source_count,
                self.rampart_count == old(self).rampart_count,
            decreases self.source_map.len() - j,
        {
            if *self.source_map[j].key_ref() != source_id {
                let mut item = self.source_map[j].clone();
                drop_creep(&mut item, &creep_id);
                self.source_map.set(j, item);
            }
            j += 1;
        }
        proof {
            lemma_view_map_pointwise(
                start,
                self.source_map@,
                |k: Seq<char>, v: StructureEntryView| bind_structure_entry(k, v, sid, cid),
            );
            assert(self@.structures =~= bind_structures(view_map(start), sid, cid));
        }
    }

    /// Releases the creep from every structure.
    pub fn cancel_bind(&mut self, creep_id: String)
        requires
            old(self).wf(),
        ensures
            final(self).wf(),
            final(self).room_id == old(self).room_id,
            final(self).source_count == old(self).source_count,
            final(self).rampart_count == old(self).rampart_count,
            final(self)@.structures == cancel_structures(old(self)@.structures, creep_id@),
    {
        let ghost start = self.source_map@;
        let mut j: usize = 0;
        while j < self.source_map.len()
            invariant
                j <= self.source_map.len(),
                self.source_map@.len() == start.len(),
                forall|k: int| 0 <= k < start.len() ==> #[trigger] self.source_map@[k].key() == start[k].key(),
                forall|k: int| 0 <= k < j ==> #[trigger] self.source_map@[k]@ == with_creeps(start[k]@, without(start[k]@.info.creeps, creep_id@)),
                forall|k: int| j <= k < start.len() ==> #[trigger] self.source_map@[k] == start[k],
                self.room_id == old(self).room_id,
                self.source_count == old(self).source_count,
                self.rampart_count == old(self).rampart_count,
            decreases self.source_map.len() - j,
        {
            let mut item = self.source_map[j].clone();
            drop_creep(&mut item, &creep_id);
            self.source_map.set(j, item);
            j += 1;
        }
        proof {
            lemma_view_map_pointwise(
                start,
                self.source_map@,
                |k: Seq<char>, v: StructureEntryView| with_creeps(v, without(v.info.creeps, creep_id@)),
            );
        }
    }
}

fn push_creep(item: &mut StructureInfoEnum, creep_id: String)
    ensures
        final(item)@ == with_creeps(old(item)@, old(item)@.info.creeps.push(creep_id@)),
{
    let ghost before = old(item)@.info.creeps;
    match item {
        StructureInfoEnum::Source(s) => {
            s.creeps.push(creep_id);
            assert(names(s.creeps@) =~= before.push(creep_id@));
        },
        StructureInfoEnum::Rampart(s) => {
            s.creeps.push(creep_id);
            assert(names(s.creeps@) =~= before.push(creep_id@));
        },
        StructureInfoEnum::Wall(s) => {
            s.creeps.push(creep_id);
            assert(names(s.creeps@) =~= before.push(creep_id@));
        },
    }
}

fn drop_creep(item: &mut StructureInfoEnum, creep_id: &String)
    ensures
        final(item)@ == with_creeps(old(item)@, without(old(item)@.info.creeps, creep_id@)),
{
    match item {
        StructureInfoEnum::Source(s) => remove_name(&mut s.creeps, creep_id),
        StructureInfoEnum::Rampart(s) => remove_name(&mut s.creeps, creep_id),
        StructureInfoEnum::Wall(s) => remove_name(&mut s.creeps, creep_id),
    }
}

fn find_report(reports: &Vec<SiteReport>, id: &String) -> (r: SiteState)
    ensures
        r == report_for(reports@, id@),
{
    let mut i: usize = 0;
    assert(reports@.skip(0) == reports@);
    while i < reports.len()
        invariant
            i <= reports.len(),
            report_for(reports@, id@) == report_for(reports@.skip(i as int), id@),
        decreases reports.len() - i,
    {
        assert(reports@.skip(i as int)[0] == reports@[i as int]);
        assert(reports@.skip(i as int).drop_first() == reports@.skip(i as int + 1));
        if reports[i].object_id == *id {
            return reports[i].state;
        }
        i += 1;
    }
    SiteState::Missing
}

/// The structures of every room, by room name.
pub struct StructureManager {
    pub room_item: Vec<RoomSourceItem>,
}

pub open spec fn bind_room(v: RoomSourceView, sid: Seq<char>, cid: Seq<char>) -> RoomSourceView {
    RoomSourceView { structures: bind_structures(v.structures, sid, cid), ..v }
}

pub open spec fn cancel_room(v: RoomSourceView, cid: Seq<char>) -> RoomSourceView {
    RoomSourceView { structures: cancel_structures(v.structures, cid), ..v }
}

pub open spec fn checked_room(v: RoomSourceView, reports: Seq<SiteReport>) -> RoomSourceView {
    RoomSourceView {
        structures: Map::new(
            |k: Seq<char>| v.structures.contains_key(k),
            |k: Seq<char>| checked_entry(v.structures[k], report_for(reports, k)),
        ),
        ..v
    }
}

/// The indices of the first `n` sites to which the creep may be bound.
pub open spec fn workable(
    m: Map<Seq<char>, RoomSourceView>,
    rid: Seq<char>,
    cid: Seq<char>,
    sites: Seq<Site>,
    n: nat,
) -> Seq<usize>
    decreases n,
{
    if n == 0 {
        Seq::empty()
    } else {
        let w = workable(m, rid, cid, sites, (n - 1) as nat);
        if m.contains_key(rid) && can_bind_structure(m[rid].structures, sites[n - 1].id@, cid) {
            w.push((n - 1) as usize)
        } else {
            w
        }
    }
}

/// `r` is the site the creep should go to: the first nearest of the sites it
/// may be bound to; none when there is none or the room is unknown.
pub open spec fn picks_workable(
    m: Map<Seq<char>, RoomSourceView>,
    rid: Seq<char>,
    cid: Seq<char>,
    creep: Pos,
    sites: Option<Seq<Site>>,
    r: Option<usize>,
) -> bool {
    match sites {
        None => r is None,
        Some(s) => {
            let w = workable(m, rid, cid, s, s.len());
            &&& (r is None <==> w.len() == 0)
            &&& (r matches Some(i) ==> exists|k: int|
                is_first_nearest(creep, w.map_values(|j: usize| s[j as int].pos), k) && w[k] == i)
        },
    }
}

pub proof fn lemma_workable_members(
    m: Map<Seq<char>, RoomSourceView>,
    rid: Seq<char>,
    cid: Seq<char>,
    sites: Seq<Site>,
    n: nat,
)
    requires
        n <= sites.len() <= usize::MAX,
    ensures
        forall|t: int|
            0 <= t < workable(m, rid, cid, sites, n).len() ==> {
                let i = #[trigger] workable(m, rid, cid, sites, n)[t];
                &&& i < n
                &&& m.contains_key(rid)
                &&& can_bind_structure(m[rid].structures, sites[i as int].id@, cid)
            },
    decreases n,
{
    if n > 0 {
        lemma_workable_members(m, rid, cid, sites, (n - 1) as nat);
        let w = workable(m, rid, cid, sites, (n - 1) as nat);
        let wn = workable(m, rid, cid, sites, n);
        assert forall|t: int| 0 <= t < wn.len() implies {
            let i = #[trigger] wn[t];
            &&& i < n
            &&& m.contains_key(rid)
            &&& can_bind_structure(m[rid].structures, sites[i as int].id@, cid)
        } by {
            if t < w.len() {
                assert(wn[t] == w[t]);
            } else {
                assert(((n - 1) as usize) as int == n - 1);
                assert(wn[t] == (n - 1) as usize);
            }
        }
    }
}

/// Who may be bound to a structure: a known structure with work takes a
/// creep it already has, and any creep while it holds fewer creeps than
/// its limit; once at its limit it refuses every creep it does not have;
/// an unknown structure, or one without work, takes nobody.
pub proof fn lemma_bind_rule(m: Map<Seq<char>, StructureEntryView>, sid: Seq<char>, cid: Seq<char>)
    ensures
        m.contains_key(sid) && m[sid].info.work && m[sid].info.creeps.len() < m[sid].info.max_count
            ==> can_bind_structure(m, sid, cid),
        m.contains_key(sid) && m[sid].info.work && m[sid].info.creeps.contains(cid) ==> can_bind_structure(
            m,
            sid,
            cid,
        ),
        m.contains_key(sid) && m[sid].info.creeps.len() >= m[sid].info.max_count
            && !m[sid].info.creeps.contains(cid) ==> !can_bind_structure(m, sid, cid),
        !m.contains_key(sid) || !m[sid].info.work ==> !can_bind_structure(m, sid, cid),
{
}

/// Every site among the first `n` to which the creep may be bound is
/// listed as workable.
pub proof fn lemma_workable_complete(
    m: Map<Seq<char>, RoomSourceView>,
    rid: Seq<char>,
    cid: Seq<char>,
    sites: Seq<Site>,
    n: nat,
    i: int,
)
    requires
        0 <= i < n <= sites.len() <= usize::MAX,
        m.contains_key(rid),
        can_bind_structure(m[rid].structures, sites[i].id@, cid),
    ensures
        workable(m, rid, cid, sites, n).contains(i as usize),
    decreases n,
{
    let w = workable(m, rid, cid, sites, (n - 1) as nat);
    if i < n - 1 {
        lemma_workable_complete(m, rid, cid, sites, (n - 1) as nat, i);
        let k = choose|k: int| 0 <= k < w.len() && w[k] == i as usize;
        assert(workable(m, rid, cid, sites, n)[k] == i as usize);
    } else {
        assert(workable(m, rid, cid, sites, n) == w.push((n - 1) as usize));
        assert(workable(m, rid, cid, sites, n)[w.len() as int] == i as usize);
    }
}

/// A creep of a known room finds a site whenever one of the sites given is
/// a structure of the room with work that holds fewer creeps than its
/// limit, or that already has the creep.
pub proof fn lemma_pick_finds_room(
    m: Map<Seq<char>, RoomSourceView>,
    rid: Seq<char>,
    cid: Seq<char>,
    creep: Pos,
    sites: Seq<Site>,
    r: Option<usize>,
    i: int,
)
    requires
        sites.len() <= usize::MAX,
        0 <= i < sites.len(),
        picks_workable(m, rid, cid, creep, Some(sites), r),
        m.contains_key(rid),
        m[rid].structures.contains_key(sites[i].id@),
        m[rid].structures[sites[i].id@].info.work,
        m[rid].structures[sites[i].id@].info.creeps.len() < m[rid].structures[sites[i].id@].info.max_count
            || m[rid].structures[sites[i].id@].info.creeps.contains(cid),
    ensures
        r is Some,
{
    lemma_workable_complete(m, rid, cid, sites, sites.len(), i);
}

impl StructureManager {
    pub open spec fn wf(&self) -> bool {
        &&& keys_unique(self.room_item@)
        &&& forall|i: int| 0 <= i < self.room_item@.len() ==> #[trigger] self.room_item@[i].wf()
    }

    pub open spec fn rooms(&self) -> Map<Seq<char>, RoomSourceView> {
        view_map(self.room_item@)
    }

    pub fn new() -> (r: Self)
        ensures
            r.wf(),
            r.rooms() == Map::<Seq<char>, RoomSourceView>::empty(),
    {
        let r = StructureManager { room_item: Vec::new() };
        assert(r.rooms() =~= Map::<Seq<char>, RoomSourceView>::empty());
        r
    }

    /// Records the rooms, each under its name.
    pub fn init(&mut self, room_creeps: Vec<RoomSourceItem>)
        requires
            old(self).wf(),
            forall|i: int| 0 <= i < room_creeps@.len() ==> #[trigger] room_creeps@[i].wf(),
        ensures
            final(self).wf(),
            final(self).rooms() == insert_views(old(self).rooms(), room_creeps@),
    {
        let ghost start = self.room_item@;
        let ghost xs = room_creeps@;
        upsert_entries(&mut self.room_item, room_creeps);
        proof {
            lemma_view_map_upsert_all(start, xs);
            lemma_upsert_all_keeps(start, xs, |x: RoomSourceItem| x.wf());
        }
    }

    fn find_can_work(&self, room_id: &String, creep_name: &String, creep_pos: Pos, sites: &Option<Vec<Site>>) -> (r:
        Option<usize>)
        requires
            self.wf(),
        ensures
            picks_workable(
                self.rooms(),
                room_id@,
                creep_name@,
                creep_pos,
                match sites {
                    Some(v) => Some(v@),
                    None => None,
                },
                r,
            ),
    {
        let sites = match sites {
            Some(v) => v,
            None => {
                return None;
            },
        };
        let ghost s = sites@;
        let mut list: Vec<usize> = Vec::new();
        let mut spots: Vec<Pos> = Vec::new();
        let mut i: usize = 0;
        while i < sites.len()
            invariant
                i <= sites.len(),
                s == sites@,
                self.wf(),
                list@ == workable(self.rooms(), room_id@, creep_name@, s, i as nat),
                spots@ == list@.map_values(|j: usize| s[j as int].pos),
                forall|t: int| 0 <= t < list@.len() ==> list@[t] < s.len(),
            decreases sites.len() - i,
        {
            if self.check_can_work(room_id.clone(), sites[i].id.clone(), creep_name.clone()) {
                list.push(i);
                spots.push(sites[i].pos);
                assert(spots@ =~= list@.map_values(|j: usize| s[j as int].pos));
            }
            i += 1;
        }
        match get_near_site(creep_pos, &spots) {
            Some(k) => Some(list[k]),
            None => None,
        }
    }

    /// The source the creep should harvest among `sources`, the active
    /// sources found in the room (`None` when the room cannot be found):
    /// the first nearest of those it may be bound to. The result is an
    /// index into `sources`.
    pub fn find_source_can_work(&self, room_id: String, creep_name: String, creep_pos: Pos, sources: &Option<Vec<Site>>) -> (r:
        Option<usize>)
        requires
            self.wf(),
        ensures
            picks_workable(
                self.rooms(),
                room_id@,
                creep_name@,
                creep_pos,
                match sources {
                    Some(v) => Some(v@),
                    None => None,
                },
                r,
            ),
    {
        self.find_can_work(&room_id, &creep_name, creep_pos, sources)
    }

    /// The rampart the creep should repair among `ramparts`, those found in
    /// the room (`None` when the room cannot be found): the first nearest of
    /// those it may be bound to. The result is an index into `ramparts`.
    pub fn find_rampart_can_work(&self, room_id: String, creep_name: String, creep_pos: Pos, ramparts: &Option<Vec<Site>>) -> (r:
        Option<usize>)
        requires
            self.wf(),
        ensures
            picks_workable(
                self.rooms(),
                room_id@,
                creep_name@,
                creep_pos,
                match ramparts {
                    Some(v) => Some(v@),
                    None => None,
                },
                r,
            ),
    {
        self.find_can_work(&room_id, &creep_name, creep_pos, ramparts)
    }

    fn find_and_bind(&mut self, room_id: String, creep_name: String, creep_pos: Pos, sites: &Option<Vec<Site>>) -> (r:
        Option<usize>)
        requires
            old(self).wf(),
        ensures
            final(self).wf(),
            picks_workable(
                old(self).rooms(),
                room_id@,
                creep_name@,
                creep_pos,
                match sites {
                    Some(v) => Some(v@),
                    None => None,
                },
                r,
            ),
            r is None ==> final(self).rooms() == old(self).rooms(),
            r matches Some(i) ==> sites matches Some(v) && i < v@.len() && final(self).rooms()
                == old(self).rooms().insert(
                room_id@,
                bind_room(old(self).rooms()[room_id@], v@[i as int].id@, creep_name@),
            ),
    {
        let ghost m = self.rooms();
        let pick = self.find_can_work(&room_id, &creep_name, creep_pos, sites);
        proof {
            if let Some(v) = sites {
                assert(v@.len() == v.len());
                lemma_workable_members(m, room_id@, creep_name@, v@, v@.len());
            }
        }
        match pick {
            Some(i) => {
                let id = match sites {
                    Some(v) => v[i].id.clone(),
                    None => {
                        return None;
                    },
                };
                match self.bind_source(room_id, id, creep_name) {
                    Ok(Some(())) => Some(i),
                    _ => None,
                }
            },
            None => None,
        }
    }

    /// Finds the source the creep should harvest, as `find_source_can_work`
    /// does, and binds the creep to it. Returns the id of that source.
    pub fn find_and_bind_source(&mut self, room_id: String, creep_name: String, creep_pos: Pos, sources: &Option<Vec<Site>>) -> (r:
        Option<String>)
        requires
            old(self).wf(),
        ensures
            final(self).wf(),
            r is None ==> final(self).rooms() == old(self).rooms() && picks_workable(
                old(self).rooms(),
                room_id@,
                creep_name@,
                creep_pos,
                match sources {
                    Some(v) => Some(v@),
                    None => None,
                },
                None,
            ),
            r matches Some(id) ==> exists|i: usize|
                picks_workable(
                    old(self).rooms(),
                    room_id@,
                    creep_name@,
                    creep_pos,
                    match sources {
                        Some(v) => Some(v@),
                        None => None,
                    },
                    Some(i),
                ) && (sources matches Some(v) && i < v@.len() && v@[i as int].id@ == id@)
                    && final(self).rooms() == old(self).rooms().insert(
                    room_id@,
                    bind_room(old(self).rooms()[room_id@], id@, creep_name@),
                ),
    {
        match self.find_and_bind(room_id, creep_name, creep_pos, sources) {
            Some(i) => match sources {
                Some(v) => Some(v[i].id.clone()),
                None => None,
            },
            None => None,
        }
    }

    /// Finds the rampart the creep should repair, as `find_rampart_can_work`
    /// does, and binds the creep to it. Returns its index in `ramparts`.
    pub fn find_and_bind_rampart(&mut self, room_id: String, creep_name: String, creep_pos: Pos, ramparts: &Option<Vec<Site>>) -> (r:
        Option<usize>)
        requires
            old(self).wf(),
        ensures
            final(self).wf(),
            picks_workable(
                old(self).rooms(),
                room_id@,
                creep_name@,
                creep_pos,
                match ramparts {
                    Some(v) => Some(v@),
                    None => None,
                },
                r,
            ),
            r is None ==> final(self).rooms() == old(self).rooms(),
            r matches Some(i) ==> ramparts matches Some(v) && i < v@.len() && final(self).rooms()
                == old(self).rooms().insert(
                room_id@,
                bind_room(old(self).rooms()[room_id@], v@[i as int].id@, creep_name@),
            ),
    {
        self.find_and_bind(room_id, creep_name, creep_pos, ramparts)
    }

    /// Binds the creep to the structure of the room; an unknown room is an
    /// error and changes nothing.
    pub fn bind_source(&mut self, room_id: String, source_id: String, creep_name: String) -> (r:
        Result<Option<()>, ScreepError>)
        requires
            old(self).wf(),
        ensures
            final(self).wf(),
            old(self).rooms().contains_key(room_id@) ==> r == Ok::<Option<()>, ScreepError>(Some(()))
                && final(self).rooms() == old(self).rooms().insert(
                room_id@,
                bind_room(old(self).rooms()[room_id@], source_id@, creep_name@),
            ),
            !old(self).rooms().contains_key(room_id@) ==> (r matches Err(ScreepError::RoomNotfound(id))
                && id@ == room_id@) && final(self).rooms() == old(self).rooms(),
    {
        match find_key(&self.room_item, &room_id) {
            Some(i) => {
                let ghost start = self.room_item@;
                let mut item = self.room_item[i].clone();
                item.bind_screep(source_id, creep_name);
                proof {
                    assert(start[i as int].key() == item.key());
                    assert(start.update(i as int, item) == upsert(start, item));
                    lemma_view_map_upsert(start, item);
                    lemma_upsert_unique(start, item);
                }
                self.room_item.set(i, item);
                assert forall|j: int| 0 <= j < self.room_item@.len() implies #[trigger] self.room_item@[j].wf() by {
                    if j != i {
                        assert(self.room_item@[j] == start[j]);
                    }
                }
                Ok(Some(()))
            },
            None => Err(ScreepError::RoomNotfound(room_id)),
        }
    }

    /// Releases the creep from every structure of the room; nothing happens
    /// for an unknown room.
    pub fn cancel_bind(&mut self, room_id: String, creep_id: String)
        requires
            old(self).wf(),
        ensures
            final(self).wf(),
            old(self).rooms().contains_key(room_id@) ==> final(self).rooms() == old(self).rooms().insert(
                room_id@,
                cancel_room(old(self).rooms()[room_id@], creep_id@),
            ),
            !old(self).rooms().contains_key(room_id@) ==> final(self).rooms() == old(self).rooms(),
    {
        match find_key(&self.room_item, &room_id) {
            Some(i) => {
                let ghost start = self.room_item@;
                let mut item = self.room_item[i].clone();
                item.cancel_bind(creep_id);
                proof {
                    assert(start[i as int].key() == item.key());
                    assert(start.update(i as int, item) == upsert(start, item));
                    lemma_view_map_upsert(start, item);
                    lemma_upsert_unique(start, item);
                }
                self.room_item.set(i, item);
                assert forall|j: int| 0 <= j < self.room_item@.len() implies #[trigger] self.room_item@[j].wf() by {
                    if j != i {
                        assert(self.room_item@[j] == start[j]);
                    }
                }
            },
            None => {},
        }
    }

    /// Whether the creep may be bound to the structure of the room.
    pub fn check_can_work(&self, room_id: String, source_id: String, creep_id: String) -> (r: bool)
        requires
            self.wf(),
        ensures
            r == (self.rooms().contains_key(room_id@) && can_bind_structure(
                self.rooms()[room_id@].structures,
                source_id@,
                creep_id@,
            )),
    {
        match find_key(&self.room_item, &room_id) {
            Some(i) => self.room_item[i].check_bind(&source_id, &creep_id),
            None => false,
        }
    }

    /// Brings the structures of every room in line with the game.
    pub fn check(&mut self, reports: &Vec<SiteReport>)
        requires
            old(self).wf(),
        ensures
            final(self).wf(),
            final(self).rooms() == Map::new(
                |k: Seq<char>| old(self).rooms().contains_key(k),
                |k: Seq<char>| checked_room(old(self).rooms()[k], reports@),
            ),
    {
        let ghost start = self.room_item@;
        let mut j: usize = 0;
        while j < self.room_item.len()
            invariant
                j <= self.room_item.len(),
                keys_unique(start),
                forall|k: int| 0 <= k < start.len() ==> #[trigger] start[k].wf(),
                self.room_item@.len() == start.len(),
                forall|k: int| 0 <= k < start.len() ==> #[trigger] self.room_item@[k].key() == start[k].key(),
                forall|k: int| 0 <= k < start.len() ==> #[trigger] self.room_item@[k].wf(),
                forall|k: int| 0 <= k < j ==> #[trigger] self.room_item@[k]@ == checked_room(start[k]@, reports@),
                forall|k: int| j <= k < start.len() ==> #[trigger] self.room_item@[k] == start[k],
            decreases self.room_item.len() - j,
        {
            let mut item = self.room_item[j].clone();
            item.check(reports);
            self.room_item.set(j, item);
            j += 1;
        }
        proof {
            lemma_view_map_pointwise(
                start,
                self.room_item@,
                |k: Seq<char>, v: RoomSourceView| checked_room(v, reports@),
            );
        }
    }

    /// A copy of the structures of the room.
    pub fn get_memory(&self, room_id: String) -> (r: Option<RoomSourceItem>)
        requires
            self.wf(),
        ensures
            r is None <==> !self.rooms().contains_key(room_id@),
            r matches Some(x) ==> x.wf() && x@ == self.rooms()[room_id@],
    {
        match find_key(&self.room_item, &room_id) {
            Some(i) => Some(self.room_item[i].clone()),
            None => None,
        }
    }
}

impl Default for StructureManager {
    fn default() -> (r: Self)
        ensures
            r.wf(),
            r.rooms() == Map::<Seq<char>, RoomSourceView>::empty(),
    {
        StructureManager::new()
    }
}

/// Every creep is bound to at most one structure.
pub open spec fn bound_once(m: Map<Seq<char>, StructureEntryView>) -> bool {
    forall|a: Seq<char>, b: Seq<char>, c: Seq<char>|
        m.contains_key(a) && m.contains_key(b) && a != b && #[trigger] m[a].info.creeps.contains(c)
            ==> !#[trigger] m[b].info.creeps.contains(c)
}

/// Binding a creep to a known structure leaves it bound there and nowhere
/// else, and keeps every creep bound to at most one structure; if the
/// structure has work, the creep is then allowed there.
pub proof fn lemma_bind_structure_exclusive(m: Map<Seq<char>, StructureEntryView>, sid: Seq<char>, cid: Seq<char>)
    requires
        bound_once(m),
        m.contains_key(sid),
    ensures
        ({
            let n = bind_structures(m, sid, cid);
            &&& n.dom() == m.dom()
            &&& n[sid].info.creeps.contains(cid)
            &&& forall|k: Seq<char>| n.contains_key(k) && k != sid ==> !#[trigger] n[k].info.creeps.contains(cid)
            &&& bound_once(n)
            &&& (m[sid].info.work ==> can_bind_structure(n, sid, cid))
        }),
{
    let n = bind_structures(m, sid, cid);
    assert(n.dom() =~= m.dom());
    lemma_push_contains(m[sid].info.creeps, cid, cid);
    assert forall|k: Seq<char>| n.contains_key(k) && k != sid implies !#[trigger] n[k].info.creeps.contains(cid) by {
        lemma_without_contains(m[k].info.creeps, cid, cid);
    }
    assert forall|a: Seq<char>, b: Seq<char>, c: Seq<char>|
        n.contains_key(a) && n.contains_key(b) && a != b && #[trigger] n[a].info.creeps.contains(c)
            implies !#[trigger] n[b].info.creeps.contains(c) by {
        if c != cid {
            lemma_push_contains(m[a].info.creeps, cid, c);
            lemma_push_contains(m[b].info.creeps, cid, c);
            lemma_without_contains(m[a].info.creeps, cid, c);
            lemma_without_contains(m[b].info.creeps, cid, c);
            assert(m[a].info.creeps.contains(c));
        } else if a == sid {
            lemma_without_contains(m[b].info.creeps, cid, cid);
        } else {
            lemma_without_contains(m[a].info.creeps, cid, cid);
        }
    }
}

/// Releasing a creep leaves it bound nowhere and every other creep where
/// it was.
pub proof fn lemma_cancel_releases(m: Map<Seq<char>, StructureEntryView>, cid: Seq<char>, k: Seq<char>, c: Seq<char>)
    requires
        m.contains_key(k),
    ensures
        !cancel_structures(m, cid)[k].info.creeps.contains(cid),
        c != cid ==> cancel_structures(m, cid)[k].info.creeps.contains(c) == m[k].info.creeps.contains(c),
        cancel_structures(m, cid).dom() == m.dom(),
{
    lemma_without_contains(m[k].info.creeps, cid, cid);
    lemma_without_contains(m[k].info.creeps, cid, c);
    assert(cancel_structures(m, cid).dom() =~= m.dom());
}

/// A structure without work takes no creep.
pub proof fn lemma_no_work_no_bind(m: Map<Seq<char>, StructureEntryView>, sid: Seq<char>, cid: Seq<char>)
    requires
        m.contains_key(sid),
        !m[sid].info.work,
    ensures
        !can_bind_structure(m, sid, cid),
{
}

/// After a check a source holds no more creeps than it may take, and a
/// source found empty has no work and nobody bound.
pub proof fn lemma_checked_source_bounds(v: StructureEntryView, state: SiteState)
    requires
        v.kind == StructureInfoKind::Source,
    ensures
        checked_entry(v, state).info.creeps.len() <= v.info.max_count,
        state == SiteState::Energy(0) ==> !checked_entry(v, state).info.work && checked_entry(
            v,
            state,
        ).info.creeps.len() == 0,
        checked_entry(v, state).kind == v.kind,
        checked_entry(v, state).info.object_id == v.info.object_id,
{
}

} // verus!
