use screeps_bot::global::{global_check, save_memory};
use screeps_bot::manager::creesp_manager::{CreepRoleName, RoomScreepsItem, RoomSpawnInfo, ScreepManager};
use screeps_bot::manager::memory_manager::{RoomMemory, RoomMemoryManager};
use screeps_bot::manager::source_manager::{
    RoomSites, RoomSourceItem, SiteReport, SiteState, StructureInfo, StructureInfoEnum, StructureManager,
    WallSite,
};
use screeps_bot::model::ctx::{CreepMemory, StoreStatus};
use screeps_bot::role::{RoleEnum, RoleStatus};
use screeps_bot::utils::errorx::ScreepError;
use screeps_bot::utils::find::{Pos, Site};

fn s(x: &str) -> String {
    x.to_string()
}

fn strings(v: &[&str]) -> Vec<String> {
    v.iter().map(|x| x.to_string()).collect()
}

fn info(id: &str, creeps: &[&str], max_count: usize, work: bool) -> StructureInfo {
    StructureInfo { room_id: s("W1N1"), object_id: s(id), creeps: strings(creeps), max_count, work }
}

fn creeps_of<'a>(room: &'a RoomSourceItem, id: &str) -> &'a Vec<String> {
    &room.source_map.iter().find(|x| x.info().object_id == id).unwrap().info().creeps
}

fn init() -> RoleStatus {
    RoleStatus::default()
}

#[test]
fn structure_init_limits() {
    let src = StructureInfoEnum::Source(StructureInfo::default());
    let a = src.init(s("W1N1"), s("s1"), 3);
    assert!(matches!(a, StructureInfoEnum::Source(_)));
    assert_eq!(a.info().max_count, 2);
    assert!(a.info().work);
    assert_eq!(a.info().room_id, "W1N1");
    assert_eq!(src.init(s("W1N1"), s("s2"), 8).info().max_count, 1);
    assert_eq!(src.init(s("W1N1"), s("s3"), 9).info().max_count, 0);
    let ramp = StructureInfoEnum::Rampart(StructureInfo::default()).init(s("W1N1"), s("r1"), 0);
    assert!(matches!(ramp, StructureInfoEnum::Rampart(_)));
    assert_eq!(ramp.info().max_count, 1);
    let wall = StructureInfoEnum::Wall(StructureInfo::default()).init(s("W1N1"), s("w1"), 0);
    assert_eq!(wall.info().max_count, 1);
}

#[test]
fn structure_check_source() {
    let mut a = StructureInfoEnum::Source(info("s1", &["a", "b", "c"], 2, false));
    a.check(SiteState::Energy(300));
    assert_eq!(a.info().creeps, strings(&["a", "b"]));
    assert!(a.info().work);
    a.check(SiteState::Energy(0));
    assert!(a.info().creeps.is_empty());
    assert!(!a.info().work);
    let mut b = StructureInfoEnum::Source(info("s2", &["a", "b", "c"], 1, true));
    b.check(SiteState::Missing);
    assert_eq!(b.info().creeps, strings(&["a"]));
    assert!(b.info().work);
}

#[test]
fn structure_check_rampart() {
    let mut r = StructureInfoEnum::Rampart(info("r1", &["a"], 1, false));
    r.check(SiteState::Hits(500, 500));
    assert!(r.info().creeps.is_empty());
    // A rampart at full health has nothing left to repair.
    assert!(!r.info().work);
    let mut q = StructureInfoEnum::Rampart(info("r2", &["a"], 1, false));
    q.check(SiteState::Hits(10, 500));
    assert_eq!(q.info().creeps, strings(&["a"]));
    assert!(q.info().work);
    let mut w = StructureInfoEnum::Wall(info("w1", &["a"], 1, false));
    w.check(SiteState::Energy(0));
    assert_eq!(w.info().creeps, strings(&["a"]));
    assert!(!w.info().work);
}

fn sites() -> RoomSites {
    RoomSites {
        name: s("W1N1"),
        sources: vec![WallSite { id: s("s1"), wall_count: 2 }, WallSite { id: s("s2"), wall_count: 8 }],
        ramparts: strings(&["r1", "r2"]),
    }
}

#[test]
fn room_init_counts() {
    let mut room = RoomSourceItem::new(s("W1N1"));
    assert!(room.init(Ok::<_, ScreepError>(sites())).is_ok());
    assert_eq!(room.source_count, 3);
    assert_eq!(room.rampart_count, 3);
    assert_eq!(room.source_map.len(), 4);
    let mut missing = RoomSourceItem::new(s("W9N9"));
    missing.source_count = 5;
    match missing.init(Err(ScreepError::RoomNotfound(s("W9N9")))) {
        Err(ScreepError::RoomNotfound(id)) => assert_eq!(id, "W9N9"),
        _ => panic!("expected an unknown room"),
    }
    assert_eq!(missing.source_count, 0);
}

fn room() -> RoomSourceItem {
    let mut room = RoomSourceItem::new(s("W1N1"));
    room.init(Ok::<_, ScreepError>(sites())).unwrap();
    room
}

#[test]
fn room_bind_check_and_cancel() {
    let mut r = room();
    assert!(r.check_bind(&s("s1"), &s("c1")));
    r.bind_screep(s("s1"), s("c1"));
    r.bind_screep(s("s1"), s("c2"));
    assert!(!r.check_bind(&s("s1"), &s("c3")));
    assert!(r.check_bind(&s("s1"), &s("c2")));
    r.bind_screep(s("r1"), s("c1"));
    assert_eq!(creeps_of(&r, "s1"), &strings(&["c2"]));
    assert_eq!(creeps_of(&r, "r1"), &strings(&["c1"]));
    r.cancel_bind(s("c1"));
    assert!(creeps_of(&r, "r1").is_empty());
    assert_eq!(creeps_of(&r, "s1"), &strings(&["c2"]));
    assert!(!r.check_bind(&s("nothing"), &s("c1")));
}

#[test]
fn no_work_no_bind() {
    let mut r = room();
    r.check(&vec![SiteReport { object_id: s("s1"), state: SiteState::Energy(0) }]);
    assert!(!r.check_bind(&s("s1"), &s("c1")));
    assert!(r.check_bind(&s("s2"), &s("c1")));
}

fn manager() -> StructureManager {
    let mut m = StructureManager::new();
    m.init(vec![room()]);
    m
}

#[test]
fn structure_manager_binds_nearest_workable() {
    let mut m = manager();
    let creep = Pos { x: 10, y: 10 };
    let sources = Some(vec![
        Site { id: s("s2"), pos: Pos { x: 12, y: 10 } },
        Site { id: s("s1"), pos: Pos { x: 30, y: 30 } },
    ]);
    assert_eq!(m.find_source_can_work(s("W1N1"), s("c1"), creep, &sources), Some(0));
    assert_eq!(m.find_and_bind_source(s("W1N1"), s("c1"), creep, &sources), Some(s("s2")));
    // s2 takes one creep: the next one goes to s1.
    assert_eq!(m.find_and_bind_source(s("W1N1"), s("c2"), creep, &sources), Some(s("s1")));
    let ramparts = Some(vec![Site { id: s("r2"), pos: Pos { x: 1, y: 1 } }]);
    assert_eq!(m.find_rampart_can_work(s("W1N1"), s("c3"), creep, &ramparts), Some(0));
    assert_eq!(m.find_and_bind_rampart(s("W1N1"), s("c3"), creep, &ramparts), Some(0));
    assert_eq!(m.find_and_bind_rampart(s("W1N1"), s("c4"), creep, &ramparts), None);
    assert_eq!(m.find_and_bind_source(s("W7N7"), s("c5"), creep, &sources), None);
}

#[test]
fn structure_manager_cancel_and_check() {
    let mut m = manager();
    assert!(matches!(m.bind_source(s("W1N1"), s("s1"), s("c1")), Ok(Some(()))));
    assert!(matches!(m.bind_source(s("W2N2"), s("s1"), s("c1")), Err(ScreepError::RoomNotfound(_))));
    assert!(m.check_can_work(s("W1N1"), s("s1"), s("c1")));
    m.cancel_bind(s("W2N2"), s("c1"));
    m.cancel_bind(s("W1N1"), s("c1"));
    assert!(creeps_of(&m.get_memory(s("W1N1")).unwrap(), "s1").is_empty());
    m.check(&vec![SiteReport { object_id: s("s1"), state: SiteState::Energy(0) }]);
    assert!(!m.check_can_work(s("W1N1"), s("s1"), s("c1")));
    assert!(m.get_memory(s("W2N2")).is_none());
    assert!(StructureManager::default().get_memory(s("W1N1")).is_none());
}

fn memory(name: &str) -> CreepMemory {
    CreepMemory::fresh(s(name), StoreStatus::Full)
}

#[test]
fn manager_next_role_order() {
    let src = manager(); // W1N1 takes 3 harvesters.
    let mut r = RoomScreepsItem::new(s("W1N1"));
    assert_eq!(r.next_role(&src).unwrap(), RoleEnum::Harvester(init()));
    r.harvester = 3;
    assert_eq!(r.next_role(&src).unwrap(), RoleEnum::Porter(init()));
    r.porter = 1;
    assert_eq!(r.next_role(&src).unwrap(), RoleEnum::Upgrader(init()));
    r.upgrader = 1;
    assert_eq!(r.next_role(&src).unwrap(), RoleEnum::Builder(init()));
    r.builder = 1;
    assert_eq!(r.next_role(&src).unwrap(), RoleEnum::Repairer(init()));
    r.repairer = 1;
    assert_eq!(r.next_role(&src).unwrap(), RoleEnum::Porter(init()));
    r.porter = 3;
    assert_eq!(r.next_role(&src).unwrap(), RoleEnum::Builder(init()));
    r.builder = 2;
    assert_eq!(r.next_role(&src).unwrap(), RoleEnum::Upgrader(init()));
    r.upgrader = 2;
    assert_eq!(r.next_role(&src).unwrap(), RoleEnum::Repairer(init()));
    assert!(matches!(
        RoomScreepsItem::new(s("W9N9")).next_role(&src),
        Err(ScreepError::RoomNotfound(_))
    ));
}

#[test]
fn manager_spawning_rule() {
    let src = manager(); // 3 harvesters, so 15 creeps in all.
    let mut r = RoomScreepsItem::new(s("W1N1"));
    let low = Some(RoomSpawnInfo { controller_level: Some(2), container_count: 0 });
    let low_with_container = Some(RoomSpawnInfo { controller_level: Some(1), container_count: 1 });
    let high = Some(RoomSpawnInfo { controller_level: Some(5), container_count: 0 });
    assert!(r.can_spawing(&src, low));
    r.harvester = 3;
    assert!(!r.can_spawing(&src, low));
    assert!(r.can_spawing(&src, low_with_container));
    assert!(r.can_spawing(&src, high));
    assert!(r.can_spawing(&src, None));
    r.upgrader = 12;
    assert!(!r.can_spawing(&src, high));
    assert!(!r.can_spawing(&src, low_with_container));
    let lost = RoomScreepsItem::new(s("W9N9"));
    assert!(!lost.can_spawing(&src, None));
}

#[test]
fn manager_bind_add_and_check() {
    let src = manager();
    let mut r = RoomScreepsItem::new(s("W1N1"));
    let mut m = memory("u1");
    m.role = RoleEnum::Upgrader(init());
    r.bind_screep(m);
    assert_eq!(r.upgrader, 1);
    let c = r.add_screep(s("h1"), memory("h1"), &src).unwrap();
    assert_eq!(c.role, RoleEnum::Harvester(init()));
    assert_eq!(c.store_status, StoreStatus::Full);
    assert_eq!(r.harvester, 1);
    r.creep_map.push(CreepRoleName { name: s("x1"), role: s("miner") });
    r.check(&strings(&["u1", "x1"]));
    assert_eq!(r.upgrader, 1);
    // An unknown role name counts as a harvester.
    assert_eq!(r.harvester, 1);
    assert_eq!(r.creep_map.len(), 2);
}

#[test]
fn screep_manager_by_room() {
    let src = manager();
    let mut m = ScreepManager::new();
    m.init(vec![RoomScreepsItem::new(s("W1N1"))]);
    assert!(m.can_spawing(s("W1N1"), &src, None));
    assert!(!m.can_spawing(s("W2N2"), &src, None));
    let c = m.add_screep(s("W1N1"), s("h1"), memory("h1"), &src).unwrap();
    assert_eq!(c.role, RoleEnum::Harvester(init()));
    assert!(m.add_screep(s("W2N2"), s("h2"), memory("h2"), &src).is_none());
    assert_eq!(m.get_memory(s("W1N1")).unwrap().harvester, 1);
    m.check(&strings(&[]));
    assert_eq!(m.get_memory(s("W1N1")).unwrap().harvester, 0);
}

#[test]
fn room_rebinding_releases_other_structures() {
    let mut r = room();
    r.bind_screep(s("s1"), s("c1"));
    r.bind_screep(s("r1"), s("c1"));
    r.bind_screep(s("s1"), s("c1"));
    assert_eq!(creeps_of(&r, "s1"), &strings(&["c1"]));
    assert!(creeps_of(&r, "r1").is_empty());
}

#[test]
fn save_memory_copies_known_rooms() {
    let src = manager();
    let mut screeps = ScreepManager::new();
    let mut r = RoomScreepsItem::new(s("W1N1"));
    r.harvester = 3;
    screeps.init(vec![r, RoomScreepsItem::new(s("W2N2"))]);
    let mut mm = RoomMemoryManager::new();
    mm.add_room(RoomMemory::new(s("W1N1")));
    mm.add_room(RoomMemory::new(s("W2N2")));
    save_memory(&screeps, &src, &mut mm);
    assert_eq!(mm.room_item[0].creeps_info.harvester, 3);
    assert_eq!(mm.room_item[0].creeps_info.room_id, "W1N1");
    assert_eq!(mm.room_item[0].source_info.source_count, 3);
    // No structure record for W2N2: its memory stays as it was.
    assert_eq!(mm.room_item[1].creeps_info.room_id, "");
}

#[test]
fn global_check_checks_creeps_and_structures() {
    let mut src = manager();
    src.bind_source(s("W1N1"), s("s1"), s("c1")).unwrap();
    let mut screeps = ScreepManager::new();
    let mut r = RoomScreepsItem::new(s("W1N1"));
    r.creep_map = vec![
        CreepRoleName { name: s("c1"), role: s("harvester") },
        CreepRoleName { name: s("c2"), role: s("porter") },
    ];
    screeps.init(vec![r]);
    let reports = vec![SiteReport { object_id: s("s1"), state: SiteState::Energy(0) }];
    global_check(&mut screeps, &mut src, &strings(&["c2"]), &reports);
    let room = screeps.get_memory(s("W1N1")).unwrap();
    assert_eq!(room.harvester, 0);
    assert_eq!(room.porter, 1);
    let structures = src.get_memory(s("W1N1")).unwrap();
    assert!(creeps_of(&structures, "s1").is_empty());
}

#[test]
fn memory_check_recounts_all_roles() {
    let mut mem = RoomMemory::new(s("W1N1"));
    mem.creeps_info.repairer = 4;
    mem.creeps_info.creep_map.push(CreepRoleName { name: s("r1"), role: s("repairer") });
    mem.creeps_info.creep_map.push(CreepRoleName { name: s("r2"), role: s("repairer") });
    mem.check(&strings(&["r1"]));
    assert_eq!(mem.creeps_info.repairer, 1);
}

#[test]
fn room_init_returns_lookup_error() {
    let mut r = room();
    r.bind_screep(s("s1"), s("c1"));
    let e = r.init(Err::<RoomSites, &str>("invalid room name"));
    assert_eq!(e, Err("invalid room name"));
    assert_eq!(r.source_count, 0);
    assert_eq!(r.rampart_count, 0);
    assert_eq!(creeps_of(&r, "s1"), &strings(&["c1"]));
}
