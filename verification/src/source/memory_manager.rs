use vstd::prelude::*;

use crate::source::creesp_manager::{checked_creeps, counts_match, RoomScreepsItem, RoomScreepsView};
use crate::source::source_manager::{RoomSourceItem, RoomSourceView};
use crate::utils::keyed::{
    keys_unique,
    lemma_same_keys,
    lemma_upsert_unique,
    lemma_view_map_upsert,
    upsert,
    upsert_entry,
    view_map,
    Keyed,
};
use crate::utils::names;

verus! {

/// What a room keeps in its memory: its creeps and its sources.
pub struct RoomMemory {
    pub room_id: String,
    pub creeps_info: RoomScreepsItem,
    pub source_info: RoomSourceItem,
}

pub struct RoomMemoryView {
    pub room_id: Seq<char>,
    pub creeps: RoomScreepsView,
    pub sources: RoomSourceView,
}

impl View for RoomMemory {
    type V = RoomMemoryView;

    open spec fn view(&self) -> RoomMemoryView {
        RoomMemoryView { room_id: self.room_id@, creeps: self.creeps_info@, sources: self.source_info@ }
    }
}

impl Keyed for RoomMemory {
    open spec fn key(&self) -> Seq<char> {
        self.room_id@
    }

    fn key_ref(&self) -> (r: &String) {
        &self.room_id
    }
}

impl RoomMemory {
    pub open spec fn wf(&self) -> bool {
        self.creeps_info.wf() && self.source_info.wf()
    }

    /// The memory of a room before anything is known of it.
    pub fn new(id: String) -> (r: Self)
        ensures
            r.wf(),
            r.room_id@ == id@,
            r.creeps_info@ == (RoomScreepsView {
                room_id: Seq::empty(),
                harvester: 0,
                upgrader: 0,
                builder: 0,
                creeps: Map::empty(),
            }),
            r.source_info@ == (RoomSourceView {
                room_id: Seq::empty(),
                max_count: 0,
                sources: Map::empty(),
            }),
    {
        RoomMemory { room_id: id, creeps_info: RoomScreepsItem::default(), source_info: RoomSourceItem::default() }
    }

    /// Drops the room's dead creeps and counts the others.
    pub fn check(&mut self, alive: &Vec<String>)
        requires
            old(self).wf(),
        ensures
            final(self).wf(),
            final(self).room_id == old(self).room_id,
            final(self).source_info == old(self).source_info,
            final(self).creeps_info.room_id == old(self).creeps_info.room_id,
            checked_creeps(old(self).creeps_info@, final(self).creeps_info@.creeps, names(alive@)),
            counts_match(final(self).creeps_info),
    {
        self.creeps_info.check(alive);
    }
}

/// The memory of every room, by room name.
pub struct RoomMemoryManager {
    pub room_item: Vec<RoomMemory>,
}

impl RoomMemoryManager {
    pub open spec fn wf(&self) -> bool {
        &&& keys_unique(self.room_item@)
        &&& forall|i: int| 0 <= i < self.room_item@.len() ==> #[trigger] self.room_item@[i].wf()
    }

    pub open spec fn rooms(&self) -> Map<Seq<char>, RoomMemoryView> {
        view_map(self.room_item@)
    }

    pub fn new() -> (r: Self)
        ensures
            r.wf(),
            r.rooms() == Map::<Seq<char>, RoomMemoryView>::empty(),
    {
        let r = RoomMemoryManager { room_item: Vec::new() };
        assert(r.rooms() =~= Map::<Seq<char>, RoomMemoryView>::empty());
        r
    }

    /// Records the memory of a room under its name, replacing what was
    /// there.
    pub fn add_room(&mut self, room: RoomMemory)
        requires
            old(self).wf(),
            room.wf(),
        ensures
            final(self).wf(),
            final(self).rooms() == old(self).rooms().insert(room.room_id@, room@),
    {
        let ghost start = self.room_item@;
        let ghost r = room;
        proof {
            lemma_view_map_upsert(start, room);
        }
        upsert_entry(&mut self.room_item, room);
        assert forall|i: int| 0 <= i < self.room_item@.len() implies #[trigger] self.room_item@[i].wf() by {
            if has_room(start, r, i) {
            } else {
                assert(self.room_item@[i] == start[i]);
            }
        }
    }

    /// Drops the dead creeps of every room and counts the others.
    pub fn check(&mut self, alive: &Vec<String>)
        requires
            old(self).wf(),
        ensures
            final(self).wf(),
            final(self).room_item@.len() == old(self).room_item@.len(),
            forall|i: int| 0 <= i < old(self).room_item@.len() ==> {
                let a = #[trigger] old(self).room_item@[i];
                let b = final(self).room_item@[i];
                &&& b.room_id == a.room_id
                &&& b.source_info == a.source_info
                &&& b.creeps_info.room_id == a.creeps_info.room_id
                &&& checked_creeps(a.creeps_info@, b.creeps_info@.creeps, names(alive@))
                &&& counts_match(b.creeps_info)
            },
    {
        let ghost start = self.room_item@;
        let mut j: usize = 0;
        while j < self.room_item.len()
            invariant
                j <= self.room_item.len(),
                self.room_item@.len() == start.len(),
                keys_unique(start),
                forall|k: int| 0 <= k < start.len() ==> #[trigger] start[k].wf(),
                forall|k: int| 0 <= k < start.len() ==> #[trigger] self.room_item@[k].wf(),
                forall|k: int| 0 <= k < start.len() ==> #[trigger] self.room_item@[k].key() == start[k].key(),
                forall|k: int| 0 <= k < j ==> {
                    let a = #[trigger] start[k];
                    let b = self.room_item@[k];
                    &&& b.room_id == a.room_id
                    &&& b.source_info == a.source_info
                    &&& b.creeps_info.room_id == a.creeps_info.room_id
                    &&& checked_creeps(a.creeps_info@, b.creeps_info@.creeps, names(alive@))
                    &&& counts_match(b.creeps_info)
                },
                forall|k: int| j <= k < start.len() ==> #[trigger] self.room_item@[k] == start[k],
            decreases self.room_item.len() - j,
        {
            let mut item = self.room_item.remove(j);
            assert(item == start[j as int]);
            item.check(alive);
            self.room_item.insert(j, item);
            j += 1;
        }
        proof {
            lemma_same_keys(start, self.room_item@);
        }
    }
}

spec fn has_room(s: Seq<RoomMemory>, r: RoomMemory, i: int) -> bool {
    upsert(s, r)[i] == r
}

} // verus!
