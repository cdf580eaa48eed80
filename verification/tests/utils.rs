use screeps_bot::utils::errorx::ScreepError;
use screeps_bot::utils::find::{
    exist_range, find_store, floor_distance, get_area_range, get_near_site, AreaBounds, FindStoreOption,
    FindStoreStatus, Pos, ResourceKind, StoreCandidate, StructureKind,
};
use screeps_bot::utils::line::LineStatus;
use screeps_bot::utils::{contains_name, remove_expire_screep, remove_name, remove_repeat_screep};

fn strings(v: &[&str]) -> Vec<String> {
    v.iter().map(|s| s.to_string()).collect()
}

fn pos(x: u8, y: u8) -> Pos {
    Pos { x, y }
}

#[test]
fn dedup_keeps_first_occurrences() {
    let mut v = strings(&["a", "b", "a", "c", "b", "a"]);
    remove_repeat_screep(&mut v);
    assert_eq!(v, strings(&["a", "b", "c"]));
}

#[test]
fn dedup_is_idempotent_and_leaves_unique_lists() {
    let mut v = strings(&["x", "y", "z"]);
    remove_repeat_screep(&mut v);
    assert_eq!(v, strings(&["x", "y", "z"]));
    let mut w = strings(&["q", "q", "r"]);
    remove_repeat_screep(&mut w);
    let once = w.clone();
    remove_repeat_screep(&mut w);
    assert_eq!(w, once);
    let mut empty: Vec<String> = Vec::new();
    remove_repeat_screep(&mut empty);
    assert!(empty.is_empty());
}

#[test]
fn expired_creeps_are_dropped() {
    let mut v = strings(&["a", "b", "c", "b"]);
    remove_expire_screep(&mut v, &strings(&["b", "c", "z"]));
    assert_eq!(v, strings(&["b", "c", "b"]));
    remove_expire_screep(&mut v, &Vec::new());
    assert!(v.is_empty());
}

#[test]
fn names_helpers() {
    let v = strings(&["a", "b"]);
    assert!(contains_name(&v, &"b".to_string()));
    assert!(!contains_name(&v, &"c".to_string()));
    let mut w = strings(&["a", "b", "a"]);
    remove_name(&mut w, &"a".to_string());
    assert_eq!(w, strings(&["b"]));
}

#[test]
fn distance_is_rounded_down() {
    assert_eq!(floor_distance(pos(0, 0), pos(3, 4)), 5);
    assert_eq!(floor_distance(pos(10, 10), pos(12, 11)), 2);
    assert_eq!(floor_distance(pos(0, 0), pos(2, 2)), 2);
    assert_eq!(floor_distance(pos(0, 0), pos(3, 3)), 4);
    assert_eq!(floor_distance(pos(7, 7), pos(7, 7)), 0);
    assert_eq!(floor_distance(pos(0, 0), pos(255, 255)), 360);
}

#[test]
fn nearest_site_first_among_equals() {
    let creep = pos(10, 10);
    let targets = vec![pos(20, 20), pos(12, 11), pos(11, 12), pos(9, 10)];
    // 12,11 and 11,12 are both at distance 2; 9,10 is at distance 1.
    assert_eq!(get_near_site(creep, &targets), Some(3));
    let ties = vec![pos(12, 11), pos(11, 12), pos(10, 12)];
    assert_eq!(get_near_site(creep, &ties), Some(0));
    // 2.23 and 2.82 both round down to 2: the first wins.
    let rounded = vec![pos(12, 12), pos(12, 11)];
    assert_eq!(get_near_site(creep, &rounded), Some(0));
    assert_eq!(get_near_site(creep, &Vec::new()), None);
}

#[test]
fn range_checks() {
    assert!(exist_range(pos(0, 0), pos(3, 4), 5));
    assert!(!exist_range(pos(0, 0), pos(3, 4), 4));
    assert!(exist_range(pos(3, 4), pos(0, 0), 5));
    assert!(exist_range(pos(5, 5), pos(5, 5), 0));
    assert!(!exist_range(pos(0, 0), pos(1, 1), 1));
    assert!(exist_range(pos(0, 0), pos(49, 49), 10_000));
}

#[test]
fn area_is_clipped_to_room() {
    assert_eq!(
        get_area_range(pos(0, 1), 1),
        AreaBounds { top: 0, left: 0, bottom: 2, right: 1 }
    );
    assert_eq!(
        get_area_range(pos(25, 25), 1),
        AreaBounds { top: 24, left: 24, bottom: 26, right: 26 }
    );
    assert_eq!(
        get_area_range(pos(40, 30), 25),
        AreaBounds { top: 5, left: 15, bottom: 49, right: 49 }
    );
}

fn store(kind: StructureKind, x: u8, y: u8) -> StoreCandidate {
    StoreCandidate {
        structure_type: kind,
        active: true,
        has_store: true,
        free_capacity: 100,
        used_capacity: 100,
        withdrawable: true,
        pos: pos(x, y),
    }
}

#[test]
fn store_options() {
    let up = FindStoreOption::carry_up();
    assert_eq!(up.resource_type, Some(ResourceKind::Energy));
    assert_eq!(up.status, FindStoreStatus::UseCapacity);
    assert!(up.withdraw);
    assert_eq!(up.ignore_structures, vec![StructureKind::Spawn, StructureKind::Extension]);
    let down = FindStoreOption::carry_down();
    assert_eq!(down.status, FindStoreStatus::FreeCapacity);
    assert_eq!(
        down.priority,
        Some(vec![StructureKind::Extension, StructureKind::Spawn, StructureKind::Storage])
    );
    let near = FindStoreOption::harvester_store();
    assert_eq!(near.range, Some(10));
    assert_eq!(near.ignore_structures, vec![StructureKind::Spawn, StructureKind::Extension]);
    let any = FindStoreOption::default();
    assert_eq!(any.status, FindStoreStatus::Default);
    assert!(any.ignore_structures.is_empty());
}

#[test]
fn carry_down_prefers_extensions() {
    let creep = pos(10, 10);
    let cands = vec![
        store(StructureKind::Spawn, 10, 11),
        store(StructureKind::Storage, 10, 12),
        store(StructureKind::Extension, 30, 30),
        store(StructureKind::Extension, 20, 20),
        store(StructureKind::Container, 10, 10),
    ];
    assert_eq!(find_store(&cands, Some(FindStoreOption::carry_down()), creep), Some(3));
}

#[test]
fn carry_down_falls_back_to_spawn_when_extensions_full() {
    let creep = pos(10, 10);
    let mut full_ext = store(StructureKind::Extension, 11, 10);
    full_ext.free_capacity = 0;
    let cands = vec![full_ext, store(StructureKind::Storage, 10, 12), store(StructureKind::Spawn, 15, 15)];
    assert_eq!(find_store(&cands, Some(FindStoreOption::carry_down()), creep), Some(2));
}

#[test]
fn carry_up_skips_spawns_empty_and_inactive() {
    let creep = pos(10, 10);
    let mut empty = store(StructureKind::Container, 10, 11);
    empty.used_capacity = 0;
    let mut inactive = store(StructureKind::Storage, 11, 11);
    inactive.active = false;
    let mut locked = store(StructureKind::Link, 12, 12);
    locked.withdrawable = false;
    let cands = vec![
        store(StructureKind::Spawn, 10, 10),
        empty,
        inactive,
        locked,
        store(StructureKind::Container, 30, 30),
    ];
    assert_eq!(find_store(&cands, Some(FindStoreOption::carry_up()), creep), Some(4));
    let only_bad = vec![store(StructureKind::Extension, 10, 10)];
    assert_eq!(find_store(&only_bad, Some(FindStoreOption::carry_up()), creep), None);
}

#[test]
fn harvester_store_stays_in_range() {
    let creep = pos(10, 10);
    let cands = vec![store(StructureKind::Container, 30, 30), store(StructureKind::Container, 18, 16)];
    // 18,16 is at distance 10 exactly.
    assert_eq!(find_store(&cands, Some(FindStoreOption::harvester_store()), creep), Some(1));
    let far = vec![store(StructureKind::Container, 19, 16)];
    assert_eq!(find_store(&far, Some(FindStoreOption::harvester_store()), creep), None);
    let spawns = vec![store(StructureKind::Spawn, 10, 11), store(StructureKind::Extension, 11, 10)];
    assert_eq!(find_store(&spawns, Some(FindStoreOption::harvester_store()), creep), None);
}

#[test]
fn no_option_takes_any_active_store() {
    let creep = pos(0, 0);
    let mut no_store = store(StructureKind::Road, 0, 1);
    no_store.has_store = false;
    let cands = vec![no_store, store(StructureKind::Spawn, 5, 5), store(StructureKind::Tower, 2, 2)];
    assert_eq!(find_store(&cands, None, creep), Some(2));
}

#[test]
fn error_messages() {
    assert_eq!(ScreepError::RoomNotfound("W1N1".to_string()).message(), "room notfound: W1N1");
    assert_eq!(ScreepError::RoleCanNotWork("🚧".to_string()).message(), "role can not: 🚧");
    assert_eq!(ScreepError::ScreepInner.message(), "screep 内部错误");
}

#[test]
fn line_colors() {
    assert_eq!(LineStatus::Harvesting.color(), "#34c724");
    assert_eq!(LineStatus::Building.color(), "#fff258");
    assert_eq!(LineStatus::Storing.color(), "#39a1e8");
}
