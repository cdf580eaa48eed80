use vstd::prelude::*;

use crate::utils::errorx::ScreepError;
use crate::utils::find::{get_near_site, is_first_nearest, Pos, Site};
use crate::utils::keyed::{
    find_key,
    insert_views,
    lemma_upsert_all_keeps,
    lemma_upsert_unique,
    lemma_view_map_upsert,
    lemma_view_map_upsert_all,
    upsert,
    keys_unique,
    lemma_same_keys,
    lemma_view_map_pointwise,
    upsert_all,
    upsert_entries,
    view_map,
    Keyed,
};
use crate::utils::{
    clone_names,
    contains_name,
    keep_alive,
    lemma_keep_alive_contains,
    lemma_occurrences_contains,
    lemma_push_contains,
    lemma_without_contains,
    names,
    occurrences,
    remove_expire_screep,
    remove_name,
    without,
};

verus! {

/// A source and the creeps that harvest it.
pub struct SourceInfoItem {
    pub source_id: String,
    /// Names of the creeps bound to the source.
    pub creeps: Vec<String>,
    /// How many creeps may harvest it at once.
    pub max_count: usize,
}

pub struct SourceInfoView {
    pub source_id: Seq<char>,
    pub creeps: Seq<Seq<char>>,
    pub max_count: nat,
}

impl View for SourceInfoItem {
    type V = SourceInfoView;

    open spec fn view(&self) -> SourceInfoView {
        SourceInfoView {
            source_id: self.source_id@,
            creeps: names(self.creeps@),
            max_count: self.max_count as nat,
        }
    }
}

impl Keyed for SourceInfoItem {
    open spec fn key(&self) -> Seq<char> {
        self.source_id@
    }

    fn key_ref(&self) -> (r: &String) {
        &self.source_id
    }
}

impl Clone for SourceInfoItem {
    fn clone(&self) -> (r: Self)
        ensures
            r@ == self@,
    {
        SourceInfoItem {
            source_id: self.source_id.clone(),
            creeps: clone_names(&self.creeps),
            max_count: self.max_count,
        }
    }
}

impl SourceInfoItem {
    /// A source with `wall_count` walls among the nine tiles around and
    /// under it; every other of these tiles can hold a harvester.
    pub fn new(source_id: String, wall_count: usize) -> (r: Self)
        requires
            wall_count <= 9,
        ensures
            r@ == (SourceInfoView {
                source_id: source_id@,
                creeps: Seq::empty(),
                max_count: (9 - wall_count) as nat,
            }),
    {
        let r = SourceInfoItem { source_id, creeps: Vec::new(), max_count: 9 - wall_count };
        assert(names(r.creeps@) =~= Seq::<Seq<char>>::empty());
        r
    }
}

/// The total of the harvester limits of a list of sources.
pub open spec fn total_max(s: Seq<SourceInfoItem>) -> nat
    decreases s.len(),
{
    if s.len() == 0 {
        0
    } else {
        total_max(s.drop_last()) + s.last().max_count as nat
    }
}

/// A source's creeps after the dead ones are dropped and the list is cut
/// to the source's limit.
pub open spec fn checked_source(v: SourceInfoView, alive: Seq<Seq<char>>) -> SourceInfoView {
    let k = keep_alive(v.creeps, alive);
    SourceInfoView { creeps: if k.len() > v.max_count { k.take(v.max_count as int) } else { k }, ..v }
}

/// Whether creep `cid` may be bound to source `sid`: the source is known and
/// has room for it, or already has it.
pub open spec fn can_bind(m: Map<Seq<char>, SourceInfoView>, sid: Seq<char>, cid: Seq<char>) -> bool {
    &&& m.contains_key(sid)
    &&& !(m[sid].creeps.len() >= m[sid].max_count && !m[sid].creeps.contains(cid))
}

/// A source's creeps after creep `cid` has been bound to source `sid`.
pub open spec fn bind_entry(k: Seq<char>, v: SourceInfoView, sid: Seq<char>, cid: Seq<char>) -> SourceInfoView {
    if k == sid {
        if v.creeps.contains(cid) {
            v
        } else {
            SourceInfoView { creeps: v.creeps.push(cid), ..v }
        }
    } else {
        SourceInfoView { creeps: without(v.creeps, cid), ..v }
    }
}

/// The sources after creep `cid` has been bound to source `sid`: it is
/// added to that source, if known and not there yet, and taken out of every
/// other.
pub open spec fn bind_sources(m: Map<Seq<char>, SourceInfoView>, sid: Seq<char>, cid: Seq<char>) -> Map<
    Seq<char>,
    SourceInfoView,
> {
    Map::new(|k: Seq<char>| m.contains_key(k), |k: Seq<char>| bind_entry(k, m[k], sid, cid))
}

/// The sources of a room and the creeps bound to them.
pub struct RoomSourceItem {
    pub room_id: String,
    /// How many harvesters the room's sources take together.
    pub max_count: usize,
    pub source_map: Vec<SourceInfoItem>,
}

pub struct RoomSourceView {
    pub room_id: Seq<char>,
    pub max_count: nat,
    pub sources: Map<Seq<char>, SourceInfoView>,
}

impl View for RoomSourceItem {
    type V = RoomSourceView;

    open spec fn view(&self) -> RoomSourceView {
        RoomSourceView {
            room_id: self.room_id@,
            max_count: self.max_count as nat,
            sources: view_map(self.source_map@),
        }
    }
}

impl Keyed for RoomSourceItem {
    open spec fn key(&self) -> Seq<char> {
        self.room_id@
    }

    fn key_ref(&self) -> (r: &String) {
        &self.room_id
    }
}

fn clone_sources(v: &Vec<SourceInfoItem>) -> (r: Vec<SourceInfoItem>)
    ensures
        r@.len() == v@.len(),
        forall|i: int| 0 <= i < v@.len() ==> #[trigger] r@[i]@ == v@[i]@,
{
    let mut r: Vec<SourceInfoItem> = Vec::new();
    let mut i: usize = 0;
    while i < v.len()
        invariant
            i <= v.len(),
            r@.len() == i,
            forall|j: int| 0 <= j < i ==> #[trigger] r@[j]@ == v@[j]@,
        decreases v.len() - i,
    {
        r.push(v[i].clone());
        i += 1;
    }
    r
}

impl Clone for RoomSourceItem {
    fn clone(&self) -> (r: Self)
        ensures
            self.wf() ==> r@ == self@,
            r.wf() == self.wf(),
            r.room_id@ == self.room_id@,
            r.max_count == self.max_count,
    {
        let source_map = clone_sources(&self.source_map);
        assert forall|i: int| 0 <= i < source_map@.len() implies #[trigger] source_map@[i].key()
            == self.source_map@[i].key() by {
            assert(source_map@[i]@ == self.source_map@[i]@);
        }
        proof {
            if keys_unique(self.source_map@) {
                lemma_view_map_pointwise(
                    self.source_map@,
                    source_map@,
                    |k: Seq<char>, v: SourceInfoView| v,
                );
                assert(view_map(source_map@) =~= view_map(self.source_map@));
            }
            if keys_unique(source_map@) {
                lemma_same_keys(source_map@, self.source_map@);
                lemma_view_map_pointwise(
                    source_map@,
                    self.source_map@,
                    |k: Seq<char>, v: SourceInfoView| v,
                );
            }
        }
        RoomSourceItem { room_id: self.room_id.clone(), max_count: self.max_count, source_map }
    }
}

impl Default for RoomSourceItem {
    /// A room with no name and no sources.
    fn default() -> (r: Self)
        ensures
            r.wf(),
            r@ == (RoomSourceView { room_id: Seq::empty(), max_count: 0, sources: Map::empty() }),
    {
        RoomSourceItem::new(String::new())
    }
}

impl RoomSourceItem {
    /// No source is listed twice.
    pub open spec fn wf(&self) -> bool {
        keys_unique(self.source_map@)
    }

    pub fn new(id: String) -> (r: Self)
        ensures
            r.wf(),
            r@ == (RoomSourceView { room_id: id@, max_count: 0, sources: Map::empty() }),
    {
        let r = RoomSourceItem { room_id: id, max_count: 0, source_map: Vec::new() };
        assert(view_map(r.source_map@) =~= Map::<Seq<char>, SourceInfoView>::empty());
        r
    }

    /// Records the sources of the room, given as found there (the error of
    /// the room's lookup when it failed, which is then returned), and sets
    /// `max_count`, the room's harvester limit, to the sum of the limits of
    /// all its recorded sources.
    pub fn init<E>(&mut self, sources: Result<Vec<SourceInfoItem>, E>) -> (r: Result<(), E>)
        requires
            old(self).wf(),
            sources matches Ok(v) ==> total_max(upsert_all(old(self).source_map@, v@)) <= usize::MAX,
        ensures
            final(self).wf(),
            match sources {
                Err(e) => r == Err::<(), E>(e) && *final(self) == *old(self),
                Ok(v) => r is Ok && final(self).room_id == old(self).room_id
                    && final(self).source_map@ == upsert_all(old(self).source_map@, v@)
                    && final(self).max_count == total_max(final(self).source_map@),
            },
    {
        let sources = match sources {
            Ok(v) => v,
            Err(e) => {
                return Err(e);
            },
        };
        upsert_entries(&mut self.source_map, sources);
        let mut total: usize = 0;
        let mut i: usize = 0;
        while i < self.source_map.len()
            invariant
                i <= self.source_map.len(),
                total == total_max(self.source_map@.take(i as int)),
                total_max(self.source_map@) <= usize::MAX,
            decreases self.source_map.len() - i,
        {
            assert(self.source_map@.take(i as int + 1).drop_last() == self.source_map@.take(
                i as int,
            ));
            proof {
                lemma_total_max_prefix(self.source_map@, i as int + 1);
            }
            total = total + self.source_map[i].max_count;
            i += 1;
        }
        assert(self.source_map@.take(self.source_map@.len() as int) == self.source_map@);
        self.max_count = total;
        Ok(())
    }

    /// Drops the creeps that are no longer alive from every source, and cuts
    /// each list to its source's limit.
    pub fn check(&mut self, alive: &Vec<String>)
        requires
            old(self).wf(),
        ensures
            final(self).wf(),
            final(self).room_id == old(self).room_id,
            final(self).max_count == old(self).max_count,
            final(self)@.sources == Map::new(
                |k: Seq<char>| old(self)@.sources.contains_key(k),
                |k: Seq<char>| checked_source(old(self)@.sources[k], names(alive@)),
            ),
    {
        let ghost start = self.source_map@;
        let mut j: usize = 0;
        while j < self.source_map.len()
            invariant
                j <= self.source_map.len(),
                self.source_map@.len() == start.len(),
                forall|k: int| 0 <= k < start.len() ==> #[trigger] self.source_map@[k].key() == start[k].key(),
                forall|k: int| 0 <= k < j ==> #[trigger] self.source_map@[k]@ == checked_source(start[k]@, names(alive@)),
                forall|k: int| j <= k < start.len() ==> #[trigger] self.source_map@[k] == start[k],
            self.room_id == old(self).room_id,
            self.max_count == old(self).max_count,
            decreases self.source_map.len() - j,
        {
            let mut item = self.source_map[j].clone();
            remove_expire_screep(&mut item.creeps, alive);
            if item.max_count < item.creeps.len() {
                item.creeps.truncate(item.max_count);
                assert(names(item.creeps@) =~= keep_alive(start[j as int]@.creeps, names(alive@)).take(item.max_count as int));
            }
            self.source_map.set(j, item);
            j += 1;
        }
        proof {
            lemma_view_map_pointwise(
                start,
                self.source_map@,
                |k: Seq<char>, v: SourceInfoView| checked_source(v, names(alive@)),
            );
        }
    }

    /// Whether the creep may be bound to the source: the source is known and
    /// either has room or already has the creep.
    pub fn check_bind(&self, source_id: &String, creep_id: &String) -> (r: bool)
        requires
            self.wf(),
        ensures
            r == can_bind(self@.sources, source_id@, creep_id@),
    {
        match find_key(&self.source_map, source_id) {
            Some(i) => {
                let s = &self.source_map[i];
                if s.creeps.len() >= s.max_count && !contains_name(&s.creeps, creep_id) {
                    return false;
                }
                true
            },
            None => false,
        }
    }

    /// Binds the creep to the source and releases it from every other one.
    pub fn bind_screep(&mut self, source_id: String, creep_id: String)
        requires
            old(self).wf(),
        ensures
            final(self).wf(),
            final(self).room_id == old(self).room_id,
            final(self).max_count == old(self).max_count,
            final(self)@.sources == bind_sources(old(self)@.sources, source_id@, creep_id@),
    {
        let ghost start = self.source_map@;
        let ghost sid = source_id@;
        let ghost cid = creep_id@;
        let found = find_key(&self.source_map, &source_id);
        if let Some(i) = found {
            if !contains_name(&self.source_map[i].creeps, &creep_id) {
                let mut item = self.source_map[i].clone();
                item.creeps.push(creep_id.clone());
                assert(names(item.creeps@) =~= start[i as int]@.creeps.push(cid));
                self.source_map.set(i, item);
            }
        }
        let mut j: usize = 0;
        while j < self.source_map.len()
            invariant
                j <= self.source_map.len(),
                sid == source_id@,
                cid == creep_id@,
                keys_unique(start),
                self.source_map@.len() == start.len(),
                forall|k: int| 0 <= k < start.len() ==> #[trigger] self.source_map@[k].key() == start[k].key(),
                forall|k: int| 0 <= k < j ==> #[trigger] self.source_map@[k]@ == bind_entry(start[k].key(), start[k]@, sid, cid),
                forall|k: int| j <= k < start.len() && start[k].key() != sid ==> #[trigger] self.source_map@[k] == start[k],
                forall|k: int| j <= k < start.len() && start[k].key() == sid ==> #[trigger] self.source_map@[k]@ == bind_entry(start[k].key(), start[k]@, sid, cid),
            self.room_id == old(self).room_id,
            self.max_count == old(self).max_count,
            decreases self.source_map.len() - j,
        {
            if *self.source_map[j].key_ref() != source_id {
                let mut item = self.source_map[j].clone();
                remove_name(&mut item.creeps, &creep_id);
                self.source_map.set(j, item);
            }
            j += 1;
        }
        proof {
            lemma_view_map_pointwise(
                start,
                self.source_map@,
                |k: Seq<char>, v: SourceInfoView| bind_entry(k, v, sid, cid),
            );
            assert(self@.sources =~= bind_sources(view_map(start), sid, cid));
        }
    }
}

proof fn lemma_total_max_prefix(s: Seq<SourceInfoItem>, n: int)
    requires
        0 <= n <= s.len(),
    ensures
        total_max(s.take(n)) <= total_max(s),
    decreases s.len(),
{
    if n < s.len() {
        assert(s.drop_last().take(n) == s.take(n));
        lemma_total_max_prefix(s.drop_last(), n);
    } else {
        assert(s.take(n) == s);
    }
}

/// The sources of every room, by room name.
pub struct SourceManager {
    pub room_item: Vec<RoomSourceItem>,
}

/// A room's sources after creep `cid` has been bound to source `sid`.
pub open spec fn bind_room(v: RoomSourceView, sid: Seq<char>, cid: Seq<char>) -> RoomSourceView {
    RoomSourceView { sources: bind_sources(v.sources, sid, cid), ..v }
}

/// A room's sources after the dead creeps are dropped.
pub open spec fn checked_room(v: RoomSourceView, alive: Seq<Seq<char>>) -> RoomSourceView {
    RoomSourceView {
        sources: Map::new(
            |k: Seq<char>| v.sources.contains_key(k),
            |k: Seq<char>| checked_source(v.sources[k], alive),
        ),
        ..v
    }
}

/// The indices of the first `n` sites to which the creep may be bound.
pub open spec fn workable(
    m: Map<Seq<char>, RoomSourceView>,
    rid: Seq<char>,
    cid: Seq<char>,
    sites: Seq<Site>,
    n: nat,
) -> Seq<usize>
    decreases n,
{
    if n == 0 {
        Seq::empty()
    } else {
        let w = workable(m, rid, cid, sites, (n - 1) as nat);
        if m.contains_key(rid) && can_bind(m[rid].sources, sites[n - 1].id@, cid) {
            w.push((n - 1) as usize)
        } else {
            w
        }
    }
}

/// `r` is the site the creep should go to: the first nearest of the sites it
/// may be bound to, none when there is no such site or the room is unknown.
pub open spec fn picks_workable(
    m: Map<Seq<char>, RoomSourceView>,
    rid: Seq<char>,
    cid: Seq<char>,
    creep: Pos,
    sites: Option<Seq<Site>>,
    r: Option<usize>,
) -> bool {
    match sites {
        None => r is None,
        Some(s) => {
            let w = workable(m, rid, cid, s, s.len());
            &&& (r is None <==> w.len() == 0)
            &&& (r matches Some(i) ==> exists|k: int|
                is_first_nearest(creep, w.map_values(|j: usize| s[j as int].pos), k) && w[k] == i)
        },
    }
}

/// Every site the creep may go to is one it may be bound to.
pub proof fn lemma_workable_members(
    m: Map<Seq<char>, RoomSourceView>,
    rid: Seq<char>,
    cid: Seq<char>,
    sites: Seq<Site>,
    n: nat,
)
    requires
        n <= sites.len() <= usize::MAX,
    ensures
        forall|t: int|
            0 <= t < workable(m, rid, cid, sites, n).len() ==> {
                let i = #[trigger] workable(m, rid, cid, sites, n)[t];
                &&& i < n
                &&& m.contains_key(rid)
                &&& can_bind(m[rid].sources, sites[i as int].id@, cid)
            },
    decreases n,
{
    if n > 0 {
        lemma_workable_members(m, rid, cid, sites, (n - 1) as nat);
        let w = workable(m, rid, cid, sites, (n - 1) as nat);
        let wn = workable(m, rid, cid, sites, n);
        assert forall|t: int| 0 <= t < wn.len() implies {
            let i = #[trigger] wn[t];
            &&& i < n
            &&& m.contains_key(rid)
            &&& can_bind(m[rid].sources, sites[i as int].id@, cid)
        } by {
            if t < w.len() {
                assert(wn[t] == w[t]);
            } else {
                assert(((n - 1) as usize) as int == n - 1);
                assert(wn[t] == (n - 1) as usize);
            }
        }
    }
}

/// Who may be bound to a source: a known source takes a creep it already
/// has, and any creep while it holds fewer creeps than its limit; once at
/// its limit it refuses every creep it does not have; an unknown source
/// takes nobody.
pub proof fn lemma_bind_rule(m: Map<Seq<char>, SourceInfoView>, sid: Seq<char>, cid: Seq<char>)
    ensures
        m.contains_key(sid) && m[sid].creeps.len() < m[sid].max_count ==> can_bind(m, sid, cid),
        m.contains_key(sid) && m[sid].creeps.contains(cid) ==> can_bind(m, sid, cid),
        m.contains_key(sid) && m[sid].creeps.len() >= m[sid].max_count && !m[sid].creeps.contains(cid)
            ==> !can_bind(m, sid, cid),
        !m.contains_key(sid) ==> !can_bind(m, sid, cid),
{
}

/// Every site among the first `n` to which the creep may be bound is
/// listed as workable.
pub proof fn lemma_workable_complete(
    m: Map<Seq<char>, RoomSourceView>,
    rid: Seq<char>,
    cid: Seq<char>,
    sites: Seq<Site>,
    n: nat,
    i: int,
)
    requires
        0 <= i < n <= sites.len() <= usize::MAX,
        m.contains_key(rid),
        can_bind(m[rid].sources, sites[i].id@, cid),
    ensures
        workable(m, rid, cid, sites, n).contains(i as usize),
    decreases n,
{
    let w = workable(m, rid, cid, sites, (n - 1) as nat);
    if i < n - 1 {
        lemma_workable_complete(m, rid, cid, sites, (n - 1) as nat, i);
        let k = choose|k: int| 0 <= k < w.len() && w[k] == i as usize;
        assert(workable(m, rid, cid, sites, n)[k] == i as usize);
    } else {
        assert(workable(m, rid, cid, sites, n) == w.push((n - 1) as usize));
        assert(workable(m, rid, cid, sites, n)[w.len() as int] == i as usize);
    }
}

/// A creep of a known room finds a source whenever one of the sites given
/// is a source of the room that holds fewer creeps than its limit, or that
/// already has the creep.
pub proof fn lemma_pick_finds_room(
    m: Map<Seq<char>, RoomSourceView>,
    rid: Seq<char>,
    cid: Seq<char>,
    creep: Pos,
    sites: Seq<Site>,
    r: Option<usize>,
    i: int,
)
    requires
        sites.len() <= usize::MAX,
        0 <= i < sites.len(),
        picks_workable(m, rid, cid, creep, Some(sites), r),
        m.contains_key(rid),
        m[rid].sources.contains_key(sites[i].id@),
        m[rid].sources[sites[i].id@].creeps.len() < m[rid].sources[sites[i].id@].max_count
            || m[rid].sources[sites[i].id@].creeps.contains(cid),
    ensures
        r is Some,
{
    lemma_workable_complete(m, rid, cid, sites, sites.len(), i);
}

impl SourceManager {
    /// Every room is listed once and is itself well formed.
    pub open spec fn wf(&self) -> bool {
        &&& keys_unique(self.room_item@)
        &&& forall|i: int| 0 <= i < self.room_item@.len() ==> #[trigger] self.room_item@[i].wf()
    }

    pub open spec fn rooms(&self) -> Map<Seq<char>, RoomSourceView> {
        view_map(self.room_item@)
    }

    pub fn new() -> (r: Self)
        ensures
            r.wf(),
            r.rooms() == Map::<Seq<char>, RoomSourceView>::empty(),
    {
        let r = SourceManager { room_item: Vec::new() };
        assert(r.rooms() =~= Map::<Seq<char>, RoomSourceView>::empty());
        r
    }

    /// Records the rooms, each under its name; a later room replaces an
    /// earlier one of the same name.
    pub fn init(&mut self, room_creeps: Vec<RoomSourceItem>)
        requires
            old(self).wf(),
            forall|i: int| 0 <= i < room_creeps@.len() ==> #[trigger] room_creeps@[i].wf(),
        ensures
            final(self).wf(),
            final(self).rooms() == insert_views(old(self).rooms(), room_creeps@),
    {
        let ghost start = self.room_item@;
        let ghost xs = room_creeps@;
        upsert_entries(&mut self.room_item, room_creeps);
        proof {
            lemma_view_map_upsert_all(start, xs);
            lemma_upsert_all_keeps(start, xs, |x: RoomSourceItem| x.wf());
        }
    }

    /// A copy of the sources of the room.
    pub fn get_memory(&self, room_id: String) -> (r: Option<RoomSourceItem>)
        requires
            self.wf(),
        ensures
            r is None <==> !self.rooms().contains_key(room_id@),
            r matches Some(x) ==> x.wf() && x@ == self.rooms()[room_id@],
    {
        match find_key(&self.room_item, &room_id) {
            Some(i) => Some(self.room_item[i].clone()),
            None => None,
        }
    }

    /// Whether the creep may be bound to the source of the room.
    pub fn check_can_work(&self, room_id: String, source_id: String, creep_id: String) -> (r: bool)
        requires
            self.wf(),
        ensures
            r == (self.rooms().contains_key(room_id@) && can_bind(
                self.rooms()[room_id@].sources,
                source_id@,
                creep_id@,
            )),
    {
        match find_key(&self.room_item, &room_id) {
            Some(i) => self.room_item[i].check_bind(&source_id, &creep_id),
            None => false,
        }
    }

    /// Binds the creep to the source of the room; an unknown room is an
    /// error and changes nothing.
    pub fn bind_source(&mut self, room_id: String, source_id: String, creep_name: String) -> (r:
        Result<Option<()>, ScreepError>)
        requires
            old(self).wf(),
        ensures
            final(self).wf(),
            old(self).rooms().contains_key(room_id@) ==> r == Ok::<Option<()>, ScreepError>(Some(()))
                && final(self).rooms() == old(self).rooms().insert(
                room_id@,
                bind_room(old(self).rooms()[room_id@], source_id@, creep_name@),
            ),
            !old(self).rooms().contains_key(room_id@) ==> (r matches Err(ScreepError::RoomNotfound(id))
                && id@ == room_id@) && final(self).rooms() == old(self).rooms(),
    {
        match find_key(&self.room_item, &room_id) {
            Some(i) => {
                let ghost start = self.room_item@;
                let mut item = self.room_item[i].clone();
                item.bind_screep(source_id, creep_name);
                proof {
                    assert(start[i as int].key() == item.key());
                    assert(start.update(i as int, item) == upsert(start, item));
                    lemma_view_map_upsert(start, item);
                    lemma_upsert_unique(start, item);
                }
                self.room_item.set(i, item);
                assert forall|j: int| 0 <= j < self.room_item@.len() implies #[trigger] self.room_item@[j].wf() by {
                    if j != i {
                        assert(self.room_item@[j] == start[j]);
                    }
                }
                Ok(Some(()))
            },
            None => Err(ScreepError::RoomNotfound(room_id)),
        }
    }

    /// Drops the dead creeps from every source of every room.
    pub fn check(&mut self, alive: &Vec<String>)
        requires
            old(self).wf(),
        ensures
            final(self).wf(),
            final(self).rooms() == Map::new(
                |k: Seq<char>| old(self).rooms().contains_key(k),
                |k: Seq<char>| checked_room(old(self).rooms()[k], names(alive@)),
            ),
    {
        let ghost start = self.room_item@;
        let mut j: usize = 0;
        while j < self.room_item.len()
            invariant
                j <= self.room_item.len(),
                keys_unique(start),
                forall|k: int| 0 <= k < start.len() ==> #[trigger] start[k].wf(),
                self.room_item@.len() == start.len(),
                forall|k: int| 0 <= k < start.len() ==> #[trigger] self.room_item@[k].key() == start[k].key(),
                forall|k: int| 0 <= k < start.len() ==> #[trigger] self.room_item@[k].wf(),
                forall|k: int| 0 <= k < j ==> #[trigger] self.room_item@[k]@ == checked_room(start[k]@, names(alive@)),
                forall|k: int| j <= k < start.len() ==> #[trigger] self.room_item@[k] == start[k],
            decreases self.room_item.len() - j,
        {
            let mut item = self.room_item[j].clone();
            item.check(alive);
            self.room_item.set(j, item);
            j += 1;
        }
        proof {
            lemma_view_map_pointwise(
                start,
                self.room_item@,
                |k: Seq<char>, v: RoomSourceView| checked_room(v, names(alive@)),
            );
        }
    }

    /// The source the creep should harvest among `sources`, the active
    /// sources found in the room (`None` when the room cannot be found):
    /// the first nearest of those it may be bound to. The result is an
    /// index into `sources`.
    pub fn find_source_can_work(
        &self,
        room_id: String,
        creep_name: String,
        creep_pos: Pos,
        sources: &Option<Vec<Site>>,
    ) -> (r: Option<usize>)
        requires
            self.wf(),
        ensures
            picks_workable(
                self.rooms(),
                room_id@,
                creep_name@,
                creep_pos,
                match sources {
                    Some(v) => Some(v@),
                    None => None,
                },
                r,
            ),
    {
        let sources = match sources {
            Some(v) => v,
            None => {
                return None;
            },
        };
        let ghost s = sources@;
        let mut list: Vec<usize> = Vec::new();
        let mut spots: Vec<Pos> = Vec::new();
        let mut i: usize = 0;
        while i < sources.len()
            invariant
                i <= sources.len(),
                s == sources@,
                self.wf(),
                list@ == workable(self.rooms(), room_id@, creep_name@, s, i as nat),
                spots@ == list@.map_values(|j: usize| s[j as int].pos),
                forall|t: int| 0 <= t < list@.len() ==> list@[t] < s.len(),
            decreases sources.len() - i,
        {
            if self.check_can_work(room_id.clone(), sources[i].id.clone(), creep_name.clone()) {
                list.push(i);
                spots.push(sources[i].pos);
                assert(spots@ =~= list@.map_values(|j: usize| s[j as int].pos));
            }
            i += 1;
        }
        match get_near_site(creep_pos, &spots) {
            Some(k) => Some(list[k]),
            None => None,
        }
    }

    /// Finds the source the creep should harvest, as `find_source_can_work`
    /// does, and binds the creep to it. Returns the id of that source.
    pub fn find_and_bind_source(
        &mut self,
        room_id: String,
        creep_name: String,
        creep_pos: Pos,
        sources: &Option<Vec<Site>>,
    ) -> (r: Option<String>)
        requires
            old(self).wf(),
        ensures
            final(self).wf(),
            r is None ==> picks_workable(
                old(self).rooms(),
                room_id@,
                creep_name@,
                creep_pos,
                match sources {
                    Some(v) => Some(v@),
                    None => None,
                },
                None,
            ),
            r matches Some(id) ==> exists|i: usize|
                picks_workable(
                    old(self).rooms(),
                    room_id@,
                    creep_name@,
                    creep_pos,
                    match sources {
                        Some(v) => Some(v@),
                        None => None,
                    },
                    Some(i),
                ) && (sources matches Some(v) && i < v@.len() && v@[i as int].id@ == id@),
            r is None ==> final(self).rooms() == old(self).rooms(),
            r matches Some(id) ==> final(self).rooms() == old(self).rooms().insert(
                room_id@,
                bind_room(old(self).rooms()[room_id@], id@, creep_name@),
            ) && old(self).rooms().contains_key(room_id@) && can_bind(
                old(self).rooms()[room_id@].sources,
                id@,
                creep_name@,
            ),
    {
        let ghost m = self.rooms();
        let pick = self.find_source_can_work(room_id.clone(), creep_name.clone(), creep_pos, sources);
        proof {
            if let Some(v) = sources {
                assert(v@.len() == v.len());
                lemma_workable_members(m, room_id@, creep_name@, v@, v@.len());
            }
        }
        match pick {
            Some(i) => {
                let id = match sources {
                    Some(v) => v[i].id.clone(),
                    None => {
                        return None;
                    },
                };
                match self.bind_source(room_id, id.clone(), creep_name) {
                    Ok(Some(())) => Some(id),
                    _ => None,
                }
            },
            None => None,
        }
    }
}

impl Default for SourceManager {
    fn default() -> (r: Self)
        ensures
            r.wf(),
            r.rooms() == Map::<Seq<char>, RoomSourceView>::empty(),
    {
        SourceManager::new()
    }
}

/// Every creep is bound to at most one source.
pub open spec fn bound_once(m: Map<Seq<char>, SourceInfoView>) -> bool {
    forall|a: Seq<char>, b: Seq<char>, c: Seq<char>|
        m.contains_key(a) && m.contains_key(b) && a != b && #[trigger] m[a].creeps.contains(c)
            ==> !#[trigger] m[b].creeps.contains(c)
}

/// Binding a creep to a known source leaves it bound to that source and to
/// no other, keeps every creep bound to at most one source, and leaves the
/// creep allowed at that source.
pub proof fn lemma_bind_exclusive(m: Map<Seq<char>, SourceInfoView>, sid: Seq<char>, cid: Seq<char>)
    requires
        bound_once(m),
        m.contains_key(sid),
    ensures
        ({
            let n = bind_sources(m, sid, cid);
            &&& n.dom() == m.dom()
            &&& n[sid].creeps.contains(cid)
            &&& forall|k: Seq<char>| n.contains_key(k) && k != sid ==> !#[trigger] n[k].creeps.contains(cid)
            &&& bound_once(n)
            &&& can_bind(n, sid, cid)
        }),
{
    let n = bind_sources(m, sid, cid);
    assert(n.dom() =~= m.dom());
    lemma_push_contains(m[sid].creeps, cid, cid);
    assert forall|k: Seq<char>| n.contains_key(k) && k != sid implies !#[trigger] n[k].creeps.contains(cid) by {
        lemma_without_contains(m[k].creeps, cid, cid);
    }
    assert forall|a: Seq<char>, b: Seq<char>, c: Seq<char>|
        n.contains_key(a) && n.contains_key(b) && a != b && #[trigger] n[a].creeps.contains(c)
            implies !#[trigger] n[b].creeps.contains(c) by {
        if c != cid {
            lemma_push_contains(m[a].creeps, cid, c);
            lemma_push_contains(m[b].creeps, cid, c);
            lemma_without_contains(m[a].creeps, cid, c);
            lemma_without_contains(m[b].creeps, cid, c);
            assert(m[a].creeps.contains(c));
        } else if a == sid {
            lemma_without_contains(m[b].creeps, cid, cid);
        } else {
            lemma_without_contains(m[a].creeps, cid, cid);
        }
    }
}

/// Binding a creep leaves it in no source but the one it is bound to, where
/// it is added at the end unless it is there already; so a creep listed at
/// most once there is listed exactly once. The other creeps stay where they
/// were.
pub proof fn lemma_bind_exactly_once(m: Map<Seq<char>, SourceInfoView>, sid: Seq<char>, cid: Seq<char>)
    ensures
        ({
            let n = bind_sources(m, sid, cid);
            &&& n.dom() == m.dom()
            &&& forall|k: Seq<char>|
                n.contains_key(k) && k != sid ==> occurrences(#[trigger] n[k].creeps, cid) == 0
            &&& m.contains_key(sid) ==> n[sid].creeps == if m[sid].creeps.contains(cid) {
                m[sid].creeps
            } else {
                m[sid].creeps.push(cid)
            }
            &&& m.contains_key(sid) && occurrences(m[sid].creeps, cid) <= 1 ==> occurrences(
                n[sid].creeps,
                cid,
            ) == 1
            &&& forall|k: Seq<char>, c: Seq<char>|
                n.contains_key(k) && c != cid ==> (#[trigger] n[k].creeps.contains(c) == m[k].creeps.contains(c))
        }),
{
    let n = bind_sources(m, sid, cid);
    assert(n.dom() =~= m.dom());
    assert forall|k: Seq<char>| n.contains_key(k) && k != sid implies occurrences(#[trigger] n[k].creeps, cid) == 0 by {
        lemma_without_contains(m[k].creeps, cid, cid);
        lemma_occurrences_contains(n[k].creeps, cid);
    }
    if m.contains_key(sid) {
        lemma_occurrences_contains(m[sid].creeps, cid);
        if !m[sid].creeps.contains(cid) {
            assert(m[sid].creeps.push(cid).drop_last() == m[sid].creeps);
        }
    }
    assert forall|k: Seq<char>, c: Seq<char>| n.contains_key(k) && c != cid implies (#[trigger] n[k].creeps.contains(c)
        == m[k].creeps.contains(c)) by {
        lemma_push_contains(m[k].creeps, cid, c);
        lemma_without_contains(m[k].creeps, cid, c);
    }
}

/// After a check every source holds only living creeps, and no more than
/// it may take.
pub proof fn lemma_check_bounds(v: SourceInfoView, alive: Seq<Seq<char>>, c: Seq<char>)
    ensures
        checked_source(v, alive).creeps.len() <= v.max_count,
        checked_source(v, alive).creeps.contains(c) ==> alive.contains(c) && v.creeps.contains(c),
        checked_source(v, alive).max_count == v.max_count,
{
    let k = keep_alive(v.creeps, alive);
    lemma_keep_alive_contains(v.creeps, alive, c);
    if k.len() > v.max_count && k.take(v.max_count as int).contains(c) {
        let j = choose|j: int| 0 <= j < k.take(v.max_count as int).len() && k.take(v.max_count as int)[j] == c;
        assert(k[j] == c);
    }
}

/// Dropping the dead creeps of a room keeps every creep bound to at most
/// one source.
pub proof fn lemma_check_keeps_bound_once(v: RoomSourceView, alive: Seq<Seq<char>>)
    requires
        bound_once(v.sources),
    ensures
        bound_once(checked_room(v, alive).sources),
{
    let n = checked_room(v, alive).sources;
    assert forall|a: Seq<char>, b: Seq<char>, c: Seq<char>|
        n.contains_key(a) && n.contains_key(b) && a != b && #[trigger] n[a].creeps.contains(c)
            implies !#[trigger] n[b].creeps.contains(c) by {
        lemma_check_bounds(v.sources[a], alive, c);
        lemma_check_bounds(v.sources[b], alive, c);
    }
}

} // verus!
