use screeps_bot::model::ctx::{CreepMemory, StoreStatus};
use screeps_bot::role::{RoleEnum, RoleStatus};
use screeps_bot::source::creesp_manager::{CreepRole, RoomScreepsItem, ScreepManager};
use screeps_bot::source::memory_manager::{RoomMemory, RoomMemoryManager};
use screeps_bot::source::source_manager::{RoomSourceItem, SourceInfoItem, SourceManager};
use screeps_bot::utils::errorx::ScreepError;
use screeps_bot::utils::find::{Pos, Site};

fn s(x: &str) -> String {
    x.to_string()
}

fn strings(v: &[&str]) -> Vec<String> {
    v.iter().map(|x| x.to_string()).collect()
}

fn source(id: &str, creeps: &[&str], max_count: usize) -> SourceInfoItem {
    SourceInfoItem { source_id: s(id), creeps: strings(creeps), max_count }
}

fn room_with(id: &str, sources: Vec<SourceInfoItem>, max_count: usize) -> RoomSourceItem {
    RoomSourceItem { room_id: s(id), max_count, source_map: sources }
}

fn creeps_of<'a>(room: &'a RoomSourceItem, id: &str) -> &'a Vec<String> {
    &room.source_map.iter().find(|x| x.source_id == id).unwrap().creeps
}

fn init() -> RoleStatus {
    RoleStatus::default()
}

#[test]
fn source_capacity_from_walls() {
    let item = SourceInfoItem::new(s("src1"), 3);
    assert_eq!(item.max_count, 6);
    assert!(item.creeps.is_empty());
    assert_eq!(item.source_id, "src1");
    assert_eq!(SourceInfoItem::new(s("src2"), 9).max_count, 0);
}

#[test]
fn room_source_init_sums_limits() {
    let mut room = RoomSourceItem::new(s("W1N1"));
    let r = room.init(Ok::<_, ScreepError>(vec![SourceInfoItem::new(s("a"), 5), SourceInfoItem::new(s("b"), 7)]));
    assert!(r.is_ok());
    assert_eq!(room.max_count, 6);
    assert_eq!(room.source_map.len(), 2);
}

#[test]
fn room_source_init_unknown_room() {
    let mut room = RoomSourceItem::new(s("W9N9"));
    match room.init(Err(ScreepError::RoomNotfound(s("W9N9")))) {
        Err(ScreepError::RoomNotfound(id)) => assert_eq!(id, "W9N9"),
        _ => panic!("expected an unknown room"),
    }
    assert_eq!(room.max_count, 0);
}

#[test]
fn check_bind_needs_room_or_membership() {
    let room = room_with("W1N1", vec![source("a", &["c1", "c2"], 2), source("b", &[], 1)], 3);
    assert!(!room.check_bind(&s("a"), &s("c3")));
    assert!(room.check_bind(&s("a"), &s("c1")));
    assert!(room.check_bind(&s("b"), &s("c3")));
    assert!(!room.check_bind(&s("zzz"), &s("c1")));
}

#[test]
fn bind_moves_creep_between_sources() {
    let mut room = room_with("W1N1", vec![source("a", &["c1"], 2), source("b", &["c2"], 2)], 4);
    room.bind_screep(s("b"), s("c1"));
    assert_eq!(creeps_of(&room, "a"), &strings(&[]));
    assert_eq!(creeps_of(&room, "b"), &strings(&["c2", "c1"]));
    assert!(room.check_bind(&s("b"), &s("c1")));
    // Binding again changes nothing.
    room.bind_screep(s("b"), s("c1"));
    assert_eq!(creeps_of(&room, "b"), &strings(&["c2", "c1"]));
}

#[test]
fn bind_to_unknown_source_releases_creep() {
    let mut room = room_with("W1N1", vec![source("a", &["c1", "c2"], 2)], 2);
    room.bind_screep(s("gone"), s("c1"));
    assert_eq!(creeps_of(&room, "a"), &strings(&["c2"]));
}

#[test]
fn room_check_drops_dead_and_trims() {
    let mut room = room_with("W1N1", vec![source("a", &["c1", "c2", "c3", "c4"], 2), source("b", &["c5"], 1)], 3);
    room.check(&strings(&["c1", "c3", "c4"]));
    assert_eq!(creeps_of(&room, "a"), &strings(&["c1", "c3"]));
    assert_eq!(creeps_of(&room, "b"), &strings(&[]));
    assert_eq!(room.max_count, 3);
}

#[test]
fn source_manager_rooms() {
    let mut m = SourceManager::new();
    m.init(vec![room_with("W1N1", vec![source("a", &[], 1)], 1), room_with("W2N2", vec![], 0)]);
    assert!(m.get_memory(s("W1N1")).is_some());
    assert!(m.get_memory(s("W3N3")).is_none());
    assert!(m.check_can_work(s("W1N1"), s("a"), s("c1")));
    assert!(!m.check_can_work(s("W2N2"), s("a"), s("c1")));
    assert!(matches!(m.bind_source(s("W1N1"), s("a"), s("c1")), Ok(Some(()))));
    assert!(!m.check_can_work(s("W1N1"), s("a"), s("c2")));
    match m.bind_source(s("W3N3"), s("a"), s("c1")) {
        Err(ScreepError::RoomNotfound(id)) => assert_eq!(id, "W3N3"),
        _ => panic!("expected an unknown room"),
    }
    let kept = m.get_memory(s("W1N1")).unwrap();
    assert_eq!(creeps_of(&kept, "a"), &strings(&["c1"]));
}

#[test]
fn later_room_replaces_earlier() {
    let mut m = SourceManager::default();
    m.init(vec![room_with("W1N1", vec![], 1), room_with("W1N1", vec![], 7)]);
    assert_eq!(m.room_item.len(), 1);
    assert_eq!(m.get_memory(s("W1N1")).unwrap().max_count, 7);
}

#[test]
fn find_and_bind_nearest_free_source() {
    let mut m = SourceManager::new();
    m.init(vec![room_with(
        "W1N1",
        vec![source("near", &["x", "y"], 2), source("mid", &[], 2), source("far", &[], 2)],
        6,
    )]);
    let sites = Some(vec![
        Site { id: s("far"), pos: Pos { x: 40, y: 40 } },
        Site { id: s("near"), pos: Pos { x: 11, y: 10 } },
        Site { id: s("mid"), pos: Pos { x: 15, y: 10 } },
    ]);
    let creep = Pos { x: 10, y: 10 };
    assert_eq!(m.find_source_can_work(s("W1N1"), s("c1"), creep, &sites), Some(2));
    assert_eq!(m.find_and_bind_source(s("W1N1"), s("c1"), creep, &sites), Some(s("mid")));
    assert!(m.check_can_work(s("W1N1"), s("mid"), s("c1")));
    assert_eq!(m.find_and_bind_source(s("W1N1"), s("c1"), creep, &None), None);
    assert_eq!(m.find_and_bind_source(s("W2N2"), s("c1"), creep, &sites), None);
}

#[test]
fn source_manager_check() {
    let mut m = SourceManager::new();
    m.init(vec![room_with("W1N1", vec![source("a", &["c1", "c2"], 2)], 2)]);
    m.check(&strings(&["c2"]));
    assert_eq!(creeps_of(&m.get_memory(s("W1N1")).unwrap(), "a"), &strings(&["c2"]));
}

fn memory(name: &str) -> CreepMemory {
    CreepMemory::fresh(s(name), StoreStatus::Empty)
}

#[test]
fn fresh_memory_is_harvester() {
    let m = memory("c1");
    assert_eq!(m.name, "c1");
    assert_eq!(m.role, RoleEnum::Harvester(init()));
    assert_eq!(m.store_status, StoreStatus::Empty);
}

fn sources_for(room: &str, max_count: usize) -> SourceManager {
    let mut m = SourceManager::new();
    m.init(vec![room_with(room, vec![], max_count)]);
    m
}

#[test]
fn next_role_order() {
    let src = sources_for("W1N1", 2);
    let mut room = RoomScreepsItem::new(s("W1N1"));
    assert_eq!(room.next_role(&src).unwrap(), RoleEnum::Harvester(init()));
    room.harvester = 2;
    assert_eq!(room.next_role(&src).unwrap(), RoleEnum::Builder(init()));
    room.builder = 1;
    assert_eq!(room.next_role(&src).unwrap(), RoleEnum::Upgrader(init()));
    room.upgrader = 3;
    assert_eq!(room.next_role(&src).unwrap(), RoleEnum::Upgrader(init()));
    room.upgrader = 4;
    assert_eq!(room.next_role(&src).unwrap(), RoleEnum::Builder(init()));
    room.builder = 4;
    assert_eq!(room.next_role(&src).unwrap(), RoleEnum::Harvester(init()));
    let other = RoomScreepsItem::new(s("W5N5"));
    assert!(matches!(other.next_role(&src), Err(ScreepError::RoomNotfound(_))));
}

#[test]
fn add_screep_records_and_counts() {
    let src = sources_for("W1N1", 1);
    let mut room = RoomScreepsItem::new(s("W1N1"));
    let c = room.add_screep(s("c1"), memory("c1"), &src).unwrap();
    assert_eq!(c.role, RoleEnum::Harvester(init()));
    assert_eq!(room.harvester, 1);
    let c = room.add_screep(s("c2"), memory("c2"), &src).unwrap();
    assert_eq!(c.role, RoleEnum::Builder(init()));
    assert_eq!(room.builder, 1);
    assert_eq!(room.creep_map.len(), 2);
    assert!(room.can_spawing());
}

#[test]
fn room_creeps_check_recounts() {
    let mut room = RoomScreepsItem::new(s("W1N1"));
    room.harvester = 9;
    room.creep_map = vec![
        CreepRole { name: s("h1"), role: RoleEnum::Harvester(init()) },
        CreepRole { name: s("h2"), role: RoleEnum::Harvester(init()) },
        CreepRole { name: s("u1"), role: RoleEnum::Upgrader(init()) },
        CreepRole { name: s("p1"), role: RoleEnum::Porter(init()) },
    ];
    room.check(&strings(&["h2", "u1", "p1"]));
    assert_eq!(room.harvester, 1);
    assert_eq!(room.upgrader, 1);
    assert_eq!(room.builder, 0);
    assert_eq!(room.creep_map.len(), 3);
}

#[test]
fn screep_manager_flow() {
    let src = sources_for("W1N1", 1);
    let mut m = ScreepManager::new();
    m.init(vec![RoomScreepsItem::new(s("W1N1")), RoomScreepsItem::new(s("W2N2"))]);
    assert!(m.can_spawing(s("W1N1")));
    assert!(!m.can_spawing(s("W3N3")));
    let c = m.add_screep(s("W1N1"), s("c1"), memory("c1"), &src).unwrap();
    assert_eq!(c.role, RoleEnum::Harvester(init()));
    assert!(m.add_screep(s("W2N2"), s("c2"), memory("c2"), &src).is_none());
    assert!(m.add_screep(s("W3N3"), s("c3"), memory("c3"), &src).is_none());
    m.check(&strings(&[]));
    assert_eq!(m.get_memory(s("W1N1")).unwrap().harvester, 0);
    assert!(m.get_memory(s("W3N3")).is_none());
}

#[test]
fn room_memory_defaults_and_check() {
    let mut mem = RoomMemory::new(s("W1N1"));
    assert_eq!(mem.room_id, "W1N1");
    assert_eq!(mem.creeps_info.room_id, "");
    assert_eq!(mem.source_info.room_id, "");
    mem.creeps_info.creep_map.push(CreepRole { name: s("u1"), role: RoleEnum::Upgrader(init()) });
    mem.check(&strings(&["u1"]));
    assert_eq!(mem.creeps_info.upgrader, 1);
}

#[test]
fn memory_manager_add_and_check() {
    let mut mm = RoomMemoryManager::new();
    mm.add_room(RoomMemory::new(s("W1N1")));
    mm.add_room(RoomMemory::new(s("W1N1")));
    mm.add_room(RoomMemory::new(s("W2N2")));
    assert_eq!(mm.room_item.len(), 2);
    mm.room_item[0].creeps_info.creep_map.push(CreepRole { name: s("b1"), role: RoleEnum::Builder(init()) });
    mm.check(&strings(&["b1"]));
    assert_eq!(mm.room_item[0].creeps_info.builder, 1);
}

#[test]
fn rebinding_releases_other_sources() {
    // c1 already sits at b, and also, wrongly, at a.
    let mut room = room_with("W1N1", vec![source("a", &["c1", "c3"], 2), source("b", &["c1"], 2)], 4);
    room.bind_screep(s("b"), s("c1"));
    assert_eq!(creeps_of(&room, "a"), &strings(&["c3"]));
    assert_eq!(creeps_of(&room, "b"), &strings(&["c1"]));
}

#[test]
fn room_source_init_recomputes_limit() {
    let mut room = RoomSourceItem::new(s("W1N1"));
    room.max_count = 40;
    let r = room.init(Ok::<_, ScreepError>(vec![SourceInfoItem::new(s("a"), 5), SourceInfoItem::new(s("b"), 7)]));
    assert!(r.is_ok());
    assert_eq!(room.max_count, 6);
    // Running it again gives the same limit.
    let r = room.init(Ok::<_, ScreepError>(vec![SourceInfoItem::new(s("a"), 5)]));
    assert!(r.is_ok());
    assert_eq!(room.max_count, 6);
}

#[test]
fn memory_check_recounts_roles() {
    let mut mem = RoomMemory::new(s("W1N1"));
    mem.creeps_info.harvester = 5;
    mem.creeps_info.builder = 2;
    mem.creeps_info.creep_map.push(CreepRole { name: s("h1"), role: RoleEnum::Harvester(init()) });
    mem.creeps_info.creep_map.push(CreepRole { name: s("h2"), role: RoleEnum::Harvester(init()) });
    mem.check(&strings(&["h2"]));
    assert_eq!(mem.creeps_info.harvester, 1);
    assert_eq!(mem.creeps_info.builder, 0);
}
