use vstd::prelude::*;

verus! {

/// A position inside a room.
#[derive(Debug, Clone, Copy, PartialEq, Eq, Structural)]
pub struct Pos {
    pub x: u8,
    pub y: u8,
}

/// A game object that can be targeted, by its id and position.
pub struct Site {
    pub id: String,
    pub pos: Pos,
}

/// The positions of a list of sites.
pub open spec fn site_positions(s: Seq<Site>) -> Seq<Pos> {
    s.map_values(|x: Site| x.pos)
}

/// The square of the straight-line distance between two positions.
pub open spec fn dist2(a: Pos, b: Pos) -> nat {
    let dx = if a.x > b.x { a.x - b.x } else { b.x - a.x };
    let dy = if a.y > b.y { a.y - b.y } else { b.y - a.y };
    (dx * dx + dy * dy) as nat
}

/// `r` is the integer square root of `n`.
pub open spec fn is_isqrt(n: nat, r: nat) -> bool {
    r * r <= n < (r + 1) * (r + 1)
}

/// The integer square root: the largest `r` with `r * r <= n`.
pub open spec fn isqrt(n: nat) -> nat
    decreases n,
{
    if n == 0 {
        0
    } else {
        let r = isqrt((n - 1) as nat);
        if (r + 1) * (r + 1) <= n {
            r + 1
        } else {
            r
        }
    }
}

proof fn lemma_square_monotone(a: nat, b: nat)
    requires
        a <= b,
    ensures
        a * a <= b * b,
{
    assert(a * a <= b * b) by (nonlinear_arith)
        requires
            a <= b,
    ;
}

/// `isqrt(n)` is the integer square root of `n`.
pub proof fn lemma_isqrt(n: nat)
    ensures
        is_isqrt(n, isqrt(n)),
    decreases n,
{
    if n > 0 {
        let m = (n - 1) as nat;
        lemma_isqrt(m);
        let r = isqrt(m);
        assert(r * r <= m && m < (r + 1) * (r + 1));
        assert((r + 1) * (r + 1) < (r + 2) * (r + 2)) by (nonlinear_arith);
        if (r + 1) * (r + 1) <= n {
            assert(isqrt(n) == r + 1);
            assert(n == (r + 1) * (r + 1));
            let q = r + 1;
            assert(q * q <= n < (q + 1) * (q + 1));
        } else {
            assert(isqrt(n) == r);
        }
    } else {
        assert(isqrt(0) == 0);
        assert(0 * 0 <= 0 < (0 + 1) * (0 + 1)) by (nonlinear_arith);
    }
}

/// The integer square root is unique.
pub proof fn lemma_isqrt_unique(n: nat, r: nat)
    requires
        is_isqrt(n, r),
    ensures
        r == isqrt(n),
{
    lemma_isqrt(n);
    let q = isqrt(n);
    if r < q {
        lemma_square_monotone(r + 1, q);
    } else if q < r {
        lemma_square_monotone(q + 1, r);
    }
}

/// The distance by which targets are compared: the straight-line distance
/// rounded down.
pub open spec fn distance(a: Pos, b: Pos) -> nat {
    isqrt(dist2(a, b))
}

fn abs_diff(a: u8, b: u8) -> (r: u32)
    ensures
        r == (if a > b { a - b } else { b - a }),
{
    if a > b {
        (a - b) as u32
    } else {
        (b - a) as u32
    }
}

/// The straight-line distance between two positions, rounded down.
pub fn floor_distance(a: Pos, b: Pos) -> (r: u32)
    ensures
        r == distance(a, b),
{
    let dx = abs_diff(a.x, b.x);
    let dy = abs_diff(a.y, b.y);
    assert(dx * dx <= 255 * 255) by (nonlinear_arith)
        requires
            dx <= 255,
    ;
    assert(dy * dy <= 255 * 255) by (nonlinear_arith)
        requires
            dy <= 255,
    ;
    let n: u32 = dx * dx + dy * dy;
    let mut r: u32 = 0;
    // `next` is the square of `r + 1`.
    let mut next: u32 = 1;
    while next <= n
        invariant
            r * r <= n,
            next == (r + 1) * (r + 1),
            n <= 2 * 255 * 255,
            r <= 361,
        decreases n - r * r,
    {
        assert(r + 1 <= 361) by (nonlinear_arith)
            requires
                (r + 1) * (r + 1) <= n,
                n <= 2 * 255 * 255,
        ;
        assert(r * r < (r + 1) * (r + 1)) by (nonlinear_arith);
        assert((r + 2) * (r + 2) == (r + 1) * (r + 1) + 2 * r + 3) by (nonlinear_arith);
        r = r + 1;
        next = next + 2 * r + 1;
    }
    proof {
        lemma_isqrt_unique(n as nat, r as nat);
    }
    r
}

/// `i` is the first position of `list` nearest to `from`.
pub open spec fn is_first_nearest(from: Pos, list: Seq<Pos>, i: int) -> bool {
    &&& 0 <= i < list.len()
    &&& forall|j: int| 0 <= j < list.len() ==> distance(from, list[i]) <= distance(from, list[j])
    &&& forall|j: int| 0 <= j < i ==> distance(from, list[j]) > distance(from, list[i])
}

/// The index of the target nearest to the creep; among equally near
/// targets the first. `None` for an empty list.
pub fn get_near_site(creep: Pos, targets: &Vec<Pos>) -> (r: Option<usize>)
    ensures
        r is None <==> targets@.len() == 0,
        r matches Some(i) ==> is_first_nearest(creep, targets@, i as int),
{
    if targets.len() == 0 {
        return None;
    }
    let mut best: usize = 0;
    let mut best_d = floor_distance(creep, targets[0]);
    let mut i: usize = 1;
    while i < targets.len()
        invariant
            1 <= i <= targets.len(),
            best < i,
            best_d == distance(creep, targets@[best as int]),
            forall|j: int| 0 <= j < i ==> distance(creep, targets@[best as int]) <= distance(creep, targets@[j]),
            forall|j: int| 0 <= j < best ==> distance(creep, targets@[j]) > distance(creep, targets@[best as int]),
        decreases targets.len() - i,
    {
        let d = floor_distance(creep, targets[i]);
        if d < best_d {
            best = i;
            best_d = d;
        }
        i += 1;
    }
    Some(best)
}

/// Whether two positions lie within `range` of each other, measured in a
/// straight line.
pub open spec fn in_range(a: Pos, b: Pos, range: nat) -> bool {
    dist2(a, b) <= range * range
}

pub fn exist_range(pos1: Pos, pos2: Pos, range: usize) -> (r: bool)
    ensures
        r == in_range(pos1, pos2, range as nat),
{
    let dx = abs_diff(pos1.x, pos2.x);
    let dy = abs_diff(pos1.y, pos2.y);
    assert(dx * dx <= 255 * 255) by (nonlinear_arith)
        requires
            dx <= 255,
    ;
    assert(dy * dy <= 255 * 255) by (nonlinear_arith)
        requires
            dy <= 255,
    ;
    let n: u32 = dx * dx + dy * dy;
    if range >= 400 {
        assert(range * range >= 400 * 400) by (nonlinear_arith)
            requires
                range >= 400,
        ;
        return true;
    }
    let r = range as u32;
    assert(r * r <= 400 * 400) by (nonlinear_arith)
        requires
            r < 400,
    ;
    n <= r * r
}

/// A rectangle of room positions, bounds included.
#[derive(Debug, Clone, Copy, PartialEq, Eq, Structural)]
pub struct AreaBounds {
    pub top: u8,
    pub left: u8,
    pub bottom: u8,
    pub right: u8,
}

/// The highest coordinate inside a room.
pub const ROOM_EDGE: u8 = 49;

/// The square of half-width `range` around `pos`, clipped to the room.
pub open spec fn area_spec(pos: Pos, range: u8) -> AreaBounds {
    AreaBounds {
        top: if pos.y < range { 0 } else { (pos.y - range) as u8 },
        left: if pos.x < range { 0 } else { (pos.x - range) as u8 },
        bottom: if pos.y + range > 49 { 49 } else { (pos.y + range) as u8 },
        right: if pos.x + range > 49 { 49 } else { (pos.x + range) as u8 },
    }
}

/// The area to look at around `pos`.
pub fn get_area_range(pos: Pos, range: u8) -> (r: AreaBounds)
    requires
        pos.x + range <= 255,
        pos.y + range <= 255,
    ensures
        r == area_spec(pos, range),
{
    let top = if pos.y < range { 0 } else { pos.y - range };
    let left = if pos.x < range { 0 } else { pos.x - range };
    let bottom = if pos.y + range > ROOM_EDGE { ROOM_EDGE } else { pos.y + range };
    let right = if pos.x + range > ROOM_EDGE { ROOM_EDGE } else { pos.x + range };
    AreaBounds { top, left, bottom, right }
}

/// The kinds of structure a room can hold.
#[derive(Debug, Clone, Copy, PartialEq, Eq, Structural)]
pub enum StructureKind {
    Spawn,
    Extension,
    Road,
    Wall,
    Rampart,
    KeeperLair,
    Portal,
    Controller,
    Link,
    Storage,
    Tower,
    Observer,
    PowerBank,
    PowerSpawn,
    Extractor,
    Lab,
    Terminal,
    Container,
    Nuker,
    Factory,
    InvaderCore,
}

/// The resource a store search is about.
#[derive(Debug, Clone, Copy, PartialEq, Eq, Structural)]
pub enum ResourceKind {
    Energy,
}

/// Which stores a search accepts.
#[derive(Debug, Clone, Copy, PartialEq, Eq, Structural)]
pub enum FindStoreStatus {
    /// Any store.
    Default,
    /// Stores with free space.
    FreeCapacity,
    /// Stores holding something.
    UseCapacity,
}

impl Default for FindStoreStatus {
    fn default() -> (r: Self)
        ensures
            r == FindStoreStatus::Default,
    {
        FindStoreStatus::Default
    }
}

/// What a search for a store looks for.
pub struct FindStoreOption {
    /// The resource whose capacity counts.
    pub resource_type: Option<ResourceKind>,
    pub status: FindStoreStatus,
    /// Only stores that can be withdrawn from.
    pub withdraw: bool,
    /// Kinds never taken.
    pub ignore_structures: Vec<StructureKind>,
    /// If given, the only kinds taken.
    pub select_structures: Option<Vec<StructureKind>>,
    /// If given, the first kind of this list that is found wins.
    pub priority: Option<Vec<StructureKind>>,
    /// If given, how far a store may lie from the creep.
    pub range: Option<usize>,
}

impl Default for FindStoreOption {
    fn default() -> (r: Self)
        ensures
            r.resource_type is None,
            r.status == FindStoreStatus::Default,
            !r.withdraw,
            r.ignore_structures@ == Seq::<StructureKind>::empty(),
            r.select_structures is None,
            r.priority is None,
            r.range is None,
    {
        FindStoreOption {
            resource_type: None,
            status: FindStoreStatus::default(),
            withdraw: false,
            ignore_structures: Vec::new(),
            select_structures: None,
            priority: None,
            range: None,
        }
    }
}

impl FindStoreOption {
    pub open spec fn carry_up_query() -> StoreQuery {
        StoreQuery {
            resource_type: Some(ResourceKind::Energy),
            status: FindStoreStatus::UseCapacity,
            withdraw: true,
            ignore_structures: seq![StructureKind::Spawn, StructureKind::Extension],
            select_structures: None,
            priority: None,
            range: None,
        }
    }

    pub open spec fn carry_down_query() -> StoreQuery {
        StoreQuery {
            resource_type: Some(ResourceKind::Energy),
            status: FindStoreStatus::FreeCapacity,
            withdraw: false,
            ignore_structures: Seq::empty(),
            select_structures: Some(seq![StructureKind::Spawn, StructureKind::Extension, StructureKind::Storage]),
            priority: Some(seq![StructureKind::Extension, StructureKind::Spawn, StructureKind::Storage]),
            range: None,
        }
    }

    pub open spec fn harvester_store_query() -> StoreQuery {
        StoreQuery {
            resource_type: Some(ResourceKind::Energy),
            status: FindStoreStatus::FreeCapacity,
            withdraw: false,
            ignore_structures: seq![StructureKind::Spawn, StructureKind::Extension],
            select_structures: None,
            priority: None,
            range: Some(10),
        }
    }

    /// Energy to take out of any store but spawns and extensions.
    pub fn carry_up() -> (r: Self)
        ensures
            r.resource_type == Some(ResourceKind::Energy),
            r.status == FindStoreStatus::UseCapacity,
            r.withdraw,
            r.ignore_structures@ == seq![StructureKind::Spawn, StructureKind::Extension],
            r.select_structures is None,
            r.priority is None,
            r.range is None,
            r@ == FindStoreOption::carry_up_query(),
    {
        let ignore = vec![StructureKind::Spawn, StructureKind::Extension];
        assert(ignore@ == seq![StructureKind::Spawn, StructureKind::Extension]);
        FindStoreOption {
            resource_type: Some(ResourceKind::Energy),
            status: FindStoreStatus::UseCapacity,
            withdraw: true,
            ignore_structures: ignore,
            select_structures: None,
            priority: None,
            range: None,
        }
    }

    /// Room for energy in an extension, else a spawn, else storage.
    pub fn carry_down() -> (r: Self)
        ensures
            r.resource_type == Some(ResourceKind::Energy),
            r.status == FindStoreStatus::FreeCapacity,
            !r.withdraw,
            r.ignore_structures@ == Seq::<StructureKind>::empty(),
            r.select_structures matches Some(v) && v@ == seq![
                StructureKind::Spawn,
                StructureKind::Extension,
                StructureKind::Storage,
            ],
            r.priority matches Some(v) && v@ == seq![
                StructureKind::Extension,
                StructureKind::Spawn,
                StructureKind::Storage,
            ],
            r.range is None,
            r@ == FindStoreOption::carry_down_query(),
    {
        let select = vec![StructureKind::Spawn, StructureKind::Extension, StructureKind::Storage];
        let priority = vec![StructureKind::Extension, StructureKind::Spawn, StructureKind::Storage];
        FindStoreOption {
            resource_type: Some(ResourceKind::Energy),
            status: FindStoreStatus::FreeCapacity,
            withdraw: false,
            ignore_structures: Vec::new(),
            select_structures: Some(select),
            priority: Some(priority),
            range: None,
        }
    }

    /// Room for energy in any store within ten tiles of a harvester but
    /// spawns and extensions.
    pub fn harvester_store() -> (r: Self)
        ensures
            r.resource_type == Some(ResourceKind::Energy),
            r.status == FindStoreStatus::FreeCapacity,
            !r.withdraw,
            r.ignore_structures@ == seq![StructureKind::Spawn, StructureKind::Extension],
            r.select_structures is None,
            r.priority is None,
            r.range == Some(10usize),
            r@ == FindStoreOption::harvester_store_query(),
    {
        let ignore = vec![StructureKind::Spawn, StructureKind::Extension];
        assert(ignore@ == seq![StructureKind::Spawn, StructureKind::Extension]);
        FindStoreOption {
            resource_type: Some(ResourceKind::Energy),
            status: FindStoreStatus::FreeCapacity,
            withdraw: false,
            ignore_structures: ignore,
            select_structures: None,
            priority: None,
            range: Some(10),
        }
    }
}

/// The search that a `FindStoreOption` describes.
pub struct StoreQuery {
    pub resource_type: Option<ResourceKind>,
    pub status: FindStoreStatus,
    pub withdraw: bool,
    pub ignore_structures: Seq<StructureKind>,
    pub select_structures: Option<Seq<StructureKind>>,
    pub priority: Option<Seq<StructureKind>>,
    pub range: Option<usize>,
}

impl StoreQuery {
    /// The search of the default option: any active store.
    pub open spec fn any() -> StoreQuery {
        StoreQuery {
            resource_type: None,
            status: FindStoreStatus::Default,
            withdraw: false,
            ignore_structures: Seq::empty(),
            select_structures: None,
            priority: None,
            range: None,
        }
    }
}

impl View for FindStoreOption {
    type V = StoreQuery;

    open spec fn view(&self) -> StoreQuery {
        StoreQuery {
            resource_type: self.resource_type,
            status: self.status,
            withdraw: self.withdraw,
            ignore_structures: self.ignore_structures@,
            select_structures: match self.select_structures {
                Some(v) => Some(v@),
                None => None,
            },
            priority: match self.priority {
                Some(v) => Some(v@),
                None => None,
            },
            range: self.range,
        }
    }
}

/// A structure of the room as a store search sees it.
#[derive(Debug, Clone, Copy, PartialEq, Eq, Structural)]
pub struct StoreCandidate {
    pub structure_type: StructureKind,
    pub active: bool,
    pub has_store: bool,
    /// Free capacity for the searched resource.
    pub free_capacity: i32,
    /// Used capacity for the searched resource.
    pub used_capacity: u32,
    pub withdrawable: bool,
    pub pos: Pos,
}

/// Whether a structure is acceptable to the search before priorities.
pub open spec fn store_fits(c: StoreCandidate, q: StoreQuery, creep: Pos) -> bool {
    &&& c.active
    &&& !q.ignore_structures.contains(c.structure_type)
    &&& match q.select_structures {
        Some(v) => v.contains(c.structure_type),
        None => true,
    }
    &&& c.has_store
    &&& match q.status {
        FindStoreStatus::Default => true,
        FindStoreStatus::FreeCapacity => c.free_capacity != 0,
        FindStoreStatus::UseCapacity => c.used_capacity != 0,
    }
    &&& match q.range {
        Some(r) => in_range(creep, c.pos, r as nat),
        None => true,
    }
    &&& (!q.withdraw || c.withdrawable)
}

/// The indices, in order, of the first `n` candidates that fit.
pub open spec fn fitting(cands: Seq<StoreCandidate>, q: StoreQuery, creep: Pos, n: nat) -> Seq<usize>
    decreases n,
{
    if n == 0 {
        Seq::empty()
    } else {
        let e = fitting(cands, q, creep, (n - 1) as nat);
        if store_fits(cands[n - 1], q, creep) {
            e.push((n - 1) as usize)
        } else {
            e
        }
    }
}

/// The indices of `idx` whose candidate is of kind `k`, in order.
pub open spec fn of_kind(cands: Seq<StoreCandidate>, idx: Seq<usize>, k: StructureKind) -> Seq<usize>
    decreases idx.len(),
{
    if idx.len() == 0 {
        idx
    } else {
        let e = of_kind(cands, idx.drop_last(), k);
        if cands[idx.last() as int].structure_type == k {
            e.push(idx.last())
        } else {
            e
        }
    }
}

/// The candidates of the first kind in `pri` that has any; all of `idx`
/// when none has.
pub open spec fn prioritized(cands: Seq<StoreCandidate>, idx: Seq<usize>, pri: Seq<StructureKind>) -> Seq<
    usize,
>
    decreases pri.len(),
{
    if pri.len() == 0 {
        idx
    } else if of_kind(cands, idx, pri[0]).len() > 0 {
        of_kind(cands, idx, pri[0])
    } else {
        prioritized(cands, idx, pri.drop_first())
    }
}

/// The candidates among which the nearest is taken.
pub open spec fn store_choices(cands: Seq<StoreCandidate>, q: StoreQuery, creep: Pos) -> Seq<usize> {
    let e = fitting(cands, q, creep, cands.len());
    match q.priority {
        Some(p) => prioritized(cands, e, p),
        None => e,
    }
}

/// The positions of the candidates at `idx`.
pub open spec fn positions(cands: Seq<StoreCandidate>, idx: Seq<usize>) -> Seq<Pos> {
    idx.map_values(|i: usize| cands[i as int].pos)
}

/// The store the search picks: the first nearest of its choices.
pub open spec fn picks_store(cands: Seq<StoreCandidate>, q: StoreQuery, creep: Pos, r: Option<usize>) -> bool {
    let choices = store_choices(cands, q, creep);
    &&& (r is None <==> choices.len() == 0)
    &&& (r matches Some(i) ==> exists|k: int|
        is_first_nearest(creep, positions(cands, choices), k) && choices[k] == i)
}

fn contains_kind(v: &Vec<StructureKind>, k: StructureKind) -> (r: bool)
    ensures
        r == v@.contains(k),
{
    let mut i: usize = 0;
    while i < v.len()
        invariant
            i <= v.len(),
            forall|j: int| 0 <= j < i ==> v@[j] != k,
        decreases v.len() - i,
    {
        if v[i] == k {
            assert(v@[i as int] == k);
            return true;
        }
        i += 1;
    }
    false
}

fn fits(c: &StoreCandidate, opt: &FindStoreOption, creep: Pos) -> (r: bool)
    ensures
        r == store_fits(*c, opt@, creep),
{
    if !c.active {
        return false;
    }
    if contains_kind(&opt.ignore_structures, c.structure_type) {
        return false;
    }
    if let Some(select) = &opt.select_structures {
        if !contains_kind(select, c.structure_type) {
            return false;
        }
    }
    if !c.has_store {
        return false;
    }
    match opt.status {
        FindStoreStatus::Default => {},
        FindStoreStatus::FreeCapacity => {
            if c.free_capacity == 0 {
                return false;
            }
        },
        FindStoreStatus::UseCapacity => {
            if c.used_capacity == 0 {
                return false;
            }
        },
    }
    if let Some(range) = opt.range {
        if !exist_range(creep, c.pos, range) {
            return false;
        }
    }
    !opt.withdraw || c.withdrawable
}

fn select_kind(cands: &Vec<StoreCandidate>, idx: &Vec<usize>, k: StructureKind) -> (r: Vec<usize>)
    requires
        forall|j: int| 0 <= j < idx@.len() ==> idx@[j] < cands@.len(),
    ensures
        r@ == of_kind(cands@, idx@, k),
        forall|j: int| 0 <= j < r@.len() ==> r@[j] < cands@.len(),
{
    let mut r: Vec<usize> = Vec::new();
    let mut i: usize = 0;
    while i < idx.len()
        invariant
            i <= idx.len(),
            forall|j: int| 0 <= j < idx@.len() ==> idx@[j] < cands@.len(),
            r@ == of_kind(cands@, idx@.take(i as int), k),
            forall|j: int| 0 <= j < r@.len() ==> r@[j] < cands@.len(),
        decreases idx.len() - i,
    {
        assert(idx@.take(i as int + 1).drop_last() == idx@.take(i as int));
        assert(idx@.take(i as int + 1).last() == idx@[i as int]);
        if cands[idx[i]].structure_type == k {
            r.push(idx[i]);
        }
        i += 1;
    }
    assert(idx@.take(idx@.len() as int) == idx@);
    r
}

/// The store a creep at `creep` should use: among the candidates that fit
/// the search, those of the first kind in its priority list that has any,
/// and of these the first nearest. The result is an index into
/// `candidates`; `None` when nothing fits. Without an option any active
/// store will do.
pub fn find_store(candidates: &Vec<StoreCandidate>, option: Option<FindStoreOption>, creep: Pos) -> (r:
    Option<usize>)
    ensures
        picks_store(
            candidates@,
            match option {
                Some(o) => o@,
                None => StoreQuery::any(),
            },
            creep,
            r,
        ),
{
    let opt = match option {
        Some(o) => o,
        None => FindStoreOption::default(),
    };
    let ghost q = opt@;
    let ghost cands = candidates@;
    let mut list: Vec<usize> = Vec::new();
    let mut i: usize = 0;
    while i < candidates.len()
        invariant
            i <= candidates.len(),
            cands == candidates@,
            q == opt@,
            list@ == fitting(cands, q, creep, i as nat),
            forall|j: int| 0 <= j < list@.len() ==> list@[j] < cands.len(),
        decreases candidates.len() - i,
    {
        if fits(&candidates[i], &opt, creep) {
            list.push(i);
        }
        i += 1;
    }
    let ghost e = list@;
    if let Some(priority) = &opt.priority {
        let mut j: usize = 0;
        let mut found = false;
        assert(priority@.skip(0) == priority@);
        while j < priority.len() && !found
            invariant
                j <= priority.len(),
                q.priority == Some(priority@),
                forall|t: int| 0 <= t < list@.len() ==> list@[t] < cands.len(),
                !found ==> list@ == e,
                !found ==> prioritized(cands, e, priority@) == prioritized(
                    cands,
                    e,
                    priority@.skip(j as int),
                ),
                found ==> list@ == prioritized(cands, e, priority@),
                cands == candidates@,
            decreases priority.len() - j + (if found { 0int } else { 1int }),
        {
            let group = select_kind(candidates, &list, priority[j]);
            assert(priority@.skip(j as int)[0] == priority@[j as int]);
            assert(priority@.skip(j as int).drop_first() == priority@.skip(j as int + 1));
            if group.len() > 0 {
                list = group;
                found = true;
            } else {
                j += 1;
            }
        }
        proof {
            if !found {
                assert(priority@.skip(priority@.len() as int).len() == 0);
            }
        }
    }
    assert(list@ == store_choices(cands, q, creep));
    let ghost choices = list@;
    let mut spots: Vec<Pos> = Vec::new();
    let mut k: usize = 0;
    while k < list.len()
        invariant
            k <= list.len(),
            list@ == choices,
            forall|t: int| 0 <= t < list@.len() ==> list@[t] < cands.len(),
            cands == candidates@,
            spots@ == positions(cands, choices.take(k as int)),
        decreases list.len() - k,
    {
        spots.push(candidates[list[k]].pos);
        assert(positions(cands, choices.take(k as int + 1)) =~= positions(cands, choices.take(k as int)).push(cands[choices[k as int] as int].pos));
        k += 1;
    }
    assert(choices.take(choices.len() as int) == choices);
    match get_near_site(creep, &spots) {
        Some(n) => Some(list[n]),
        None => None,
    }
}

/// Being within range of each other does not depend on the order.
pub proof fn lemma_in_range_symmetric(a: Pos, b: Pos, range: nat)
    ensures
        in_range(a, b, range) == in_range(b, a, range),
{
}

proof fn lemma_fitting_members(cands: Seq<StoreCandidate>, q: StoreQuery, creep: Pos, n: nat, j: int)
    requires
        n <= cands.len() <= usize::MAX,
        0 <= j < n,
        store_fits(cands[j], q, creep),
    ensures
        fitting(cands, q, creep, n).contains(j as usize),
    decreases n,
{
    let f = fitting(cands, q, creep, n);
    if j == n - 1 {
        assert(f[f.len() - 1] == j as usize);
    } else {
        lemma_fitting_members(cands, q, creep, (n - 1) as nat, j);
        let g = fitting(cands, q, creep, (n - 1) as nat);
        let t = choose|t: int| 0 <= t < g.len() && g[t] == j as usize;
        assert(f[t] == g[t]);
    }
}

proof fn lemma_of_kind_members(cands: Seq<StoreCandidate>, idx: Seq<usize>, k: StructureKind, x: usize)
    ensures
        of_kind(cands, idx, k).contains(x) == (idx.contains(x) && cands[x as int].structure_type == k),
    decreases idx.len(),
{
    if idx.len() > 0 {
        let p = idx.drop_last();
        lemma_of_kind_members(cands, p, k, x);
        let o = of_kind(cands, p, k);
        assert(idx == p.push(idx.last()));
        if idx.contains(x) && !p.contains(x) {
            let t = choose|t: int| 0 <= t < idx.len() && idx[t] == x;
            if t < p.len() {
                assert(p[t] == x);
            }
        }
        if p.contains(x) {
            let t = choose|t: int| 0 <= t < p.len() && p[t] == x;
            assert(idx[t] == x);
        }
        if cands[idx.last() as int].structure_type == k {
            if o.push(idx.last()).contains(x) && !o.contains(x) {
                let t = choose|t: int| 0 <= t < o.push(idx.last()).len() && o.push(idx.last())[t] == x;
                if t < o.len() {
                    assert(o[t] == x);
                }
            }
            if o.contains(x) {
                let t = choose|t: int| 0 <= t < o.len() && o[t] == x;
                assert(o.push(idx.last())[t] == x);
            }
            if x == idx.last() {
                assert(o.push(idx.last())[o.len() as int] == x);
            }
        }
    }
}

/// A search with a priority list takes a structure of the first listed
/// kind whenever one of that kind fits the search.
pub proof fn lemma_priority_wins(
    cands: Seq<StoreCandidate>,
    q: StoreQuery,
    creep: Pos,
    r: Option<usize>,
    j: int,
)
    requires
        cands.len() <= usize::MAX,
        picks_store(cands, q, creep, r),
        q.priority matches Some(p) && p.len() > 0 && cands[j].structure_type == p[0],
        0 <= j < cands.len(),
        store_fits(cands[j], q, creep),
    ensures
        r matches Some(i) && cands[i as int].structure_type == q.priority.unwrap()[0],
{
    let p = q.priority.unwrap();
    let e = fitting(cands, q, creep, cands.len());
    lemma_fitting_members(cands, q, creep, cands.len(), j);
    lemma_of_kind_members(cands, e, p[0], j as usize);
    assert(of_kind(cands, e, p[0]).len() > 0);
    let choices = store_choices(cands, q, creep);
    assert(choices == of_kind(cands, e, p[0]));
    let i = r.unwrap();
    let k = choose|k: int| is_first_nearest(creep, positions(cands, choices), k) && choices[k] == i;
    assert(choices.contains(i));
    lemma_of_kind_members(cands, e, p[0], i);
}

} // verus!
