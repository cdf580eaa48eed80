//! The steps the colony runs over all rooms every tick.
use vstd::prelude::*;

use crate::manager::creesp_manager::{checked_creeps, counts_match, ScreepManager};
use crate::manager::memory_manager::{RoomMemory, RoomMemoryManager, RoomMemoryView};
use crate::manager::source_manager::{checked_room, SiteReport, StructureManager};
use crate::utils::keyed::{keys_unique, lemma_same_keys, Keyed};
use crate::utils::names;

verus! {

/// Checks the records of every room: drops the dead creeps and counts the
/// others by role, and brings every structure in line with what the game
/// shows of it (`reports`).
pub fn global_check(
    screep: &mut ScreepManager,
    source: &mut StructureManager,
    alive: &Vec<String>,
    reports: &Vec<SiteReport>,
)
    requires
        old(screep).wf(),
        old(source).wf(),
    ensures
        final(screep).wf(),
        final(source).wf(),
        final(screep).rooms().dom() == old(screep).rooms().dom(),
        forall|k: Seq<char>| #[trigger] final(screep).rooms().contains_key(k) ==> checked_creeps(
            old(screep).rooms()[k],
            final(screep).rooms()[k].creeps,
            names(alive@),
        ),
        forall|i: int| 0 <= i < final(screep).room_item@.len() ==> counts_match(#[trigger] final(screep).room_item@[i]),
        final(source).rooms() == Map::new(
            |k: Seq<char>| old(source).rooms().contains_key(k),
            |k: Seq<char>| checked_room(old(source).rooms()[k], reports@),
        ),
{
    screep.check(alive);
    source.check(reports);
}

/// The memory of a room once the current creep and source records have been
/// copied into it; a room missing from either manager keeps what it had.
pub open spec fn saved_room(
    v: RoomMemoryView,
    screep: &ScreepManager,
    source: &StructureManager,
) -> RoomMemoryView {
    if screep.rooms().contains_key(v.room_id) && source.rooms().contains_key(v.room_id) {
        RoomMemoryView {
            creeps: screep.rooms()[v.room_id],
            sources: source.rooms()[v.room_id],
            ..v
        }
    } else {
        v
    }
}

/// Copies the current creep and source records of every room into its
/// memory.
pub fn save_memory(screep: &ScreepManager, source: &StructureManager, memory: &mut RoomMemoryManager)
    requires
        screep.wf(),
        source.wf(),
        old(memory).wf(),
    ensures
        final(memory).wf(),
        final(memory).room_item@.len() == old(memory).room_item@.len(),
        forall|i: int| 0 <= i < old(memory).room_item@.len() ==> #[trigger] final(memory).room_item@[i]@
            == saved_room(old(memory).room_item@[i]@, screep, source),
{
    let ghost start = memory.room_item@;
    let mut j: usize = 0;
    while j < memory.room_item.len()
        invariant
            j <= memory.room_item.len(),
            screep.wf(),
            source.wf(),
            memory.room_item@.len() == start.len(),
            keys_unique(start),
            forall|k: int| 0 <= k < start.len() ==> #[trigger] memory.room_item@[k].wf(),
            forall|k: int| 0 <= k < start.len() ==> #[trigger] memory.room_item@[k].key() == start[k].key(),
            forall|k: int| 0 <= k < j ==> #[trigger] memory.room_item@[k]@ == saved_room(start[k]@, screep, source),
            forall|k: int| j <= k < start.len() ==> #[trigger] memory.room_item@[k] == start[k],
        decreases memory.room_item.len() - j,
    {
        let mut item = memory.room_item.remove(j);
        let screep_m = screep.get_memory(item.room_id.clone());
        let source_m = source.get_memory(item.room_id.clone());
        if let Some(s) = screep_m {
            if let Some(t) = source_m {
                item.creeps_info = s;
                item.source_info = t;
            }
        }
        memory.room_item.insert(j, item);
        j += 1;
    }
    proof {
        lemma_same_keys(start, memory.room_item@);
    }
}

} // verus!
