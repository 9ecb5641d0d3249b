//! The streamed world: a window of ground tiles kept around a moving
//! reference point, and chests placed on each tile coordinate once.
use crate::chest::{generated, Chest, Item};
use crate::geometry::Point;
use crate::random::random_below;
use vstd::prelude::*;

verus! {

/// Side of one ground tile, in world units.
pub const TILE_SIZE: i32 = 512;

/// The window reaches this many tiles from its center in each direction.
pub const WINDOW_RADIUS: i32 = 2;

/// Number of tiles in the window.
pub const WINDOW_TILES: usize = 25;

/// Least number of chests placed on a new tile coordinate.
pub const MIN_CHESTS: u32 = 2;

/// Number of different chest counts a tile coordinate can get.
pub const CHEST_COUNT_CHOICES: u32 = 6;

/// Chests lie within this distance of the tile's center along each axis.
pub const CHEST_SPREAD: i64 = 128;

/// A tile coordinate.
pub type Coord = (i32, i32);

/// Tile `q` lies in the window centered on tile `c`.
pub open spec fn in_window(c: Coord, q: Coord) -> bool {
    &&& c.0 - WINDOW_RADIUS <= q.0 <= c.0 + WINDOW_RADIUS
    &&& c.1 - WINDOW_RADIUS <= q.1 <= c.1 + WINDOW_RADIUS
}

/// The window of tiles centered on tile `c`.
pub open spec fn window(c: Coord) -> Set<Coord> {
    Set::new(|q: Coord| in_window(c, q))
}

/// The tile that holds point `p`.
pub open spec fn cell_of(p: Point) -> Coord {
    ((p.x as int / TILE_SIZE as int) as i32, (p.y as int / TILE_SIZE as int) as i32)
}

/// The world as a set of live tiles, the center of the window, and the
/// coordinates that already got their chests.
pub ghost struct MapView {
    pub tiles: Set<Coord>,
    pub last: Coord,
    pub spawned: Set<Coord>,
}

/// The world after the reference point moves into tile `c`: nothing changes
/// while the tile stays the same; otherwise the window moves to `c` and
/// every coordinate in it counts as having got its chests.
pub open spec fn moved(v: MapView, c: Coord) -> MapView {
    if c == v.last {
        v
    } else {
        MapView { tiles: window(c), last: c, spawned: v.spawned.union(window(c)) }
    }
}

/// The coordinates that get chests when the reference point moves into tile `c`.
pub open spec fn populated(v: MapView, c: Coord) -> Set<Coord> {
    if c == v.last {
        Set::empty()
    } else {
        window(c).difference(v.spawned)
    }
}

/// The world after the reference point visits the tiles of `cells` in turn.
pub open spec fn stream(v: MapView, cells: Seq<Coord>) -> MapView
    decreases cells.len(),
{
    if cells.len() == 0 {
        v
    } else {
        moved(stream(v, cells.drop_last()), cells.last())
    }
}

/// The coordinates that get chests at the `k`-th visit of `cells`.
pub open spec fn populated_at(v: MapView, cells: Seq<Coord>, k: int) -> Set<Coord> {
    populated(stream(v, cells.take(k)), cells[k])
}

/// The live tiles, the center of the window, and every coordinate that
/// already got its chests, each list without repeats.
#[derive(Debug)]
pub struct TileMap {
    pub tiles: Vec<Coord>,
    pub last_position: Coord,
    pub chestes_spawned: Vec<Coord>,
}

/// What a move of the window asks of the world.
#[derive(Debug)]
pub struct StreamChange {
    /// Tiles to take down, in the order they were held.
    pub removed: Vec<Coord>,
    /// Tiles to put up.
    pub created: Vec<Coord>,
    /// Coordinates to place chests on.
    pub populate: Vec<Coord>,
}

impl View for TileMap {
    type V = MapView;

    open spec fn view(&self) -> MapView {
        MapView {
            tiles: self.tiles@.to_set(),
            last: self.last_position,
            spawned: self.chestes_spawned@.to_set(),
        }
    }
}

/// Position of `q` in the order in which the window centered on `c` is filled.
pub open spec fn window_index(c: Coord, q: Coord) -> int {
    (q.0 - c.0 + WINDOW_RADIUS) * 5 + (q.1 - c.1 + WINDOW_RADIUS)
}

/// The tile that holds `p`: its coordinates rounded down.
pub fn tile_of(p: Point) -> (r: Coord)
    ensures
        r == cell_of(p),
        -4_194_304 <= r.0 < 4_194_304,
        -4_194_304 <= r.1 < 4_194_304,
{
    (floor_div_tile(p.x), floor_div_tile(p.y))
}

fn floor_div_tile(x: i32) -> (r: i32)
    ensures
        r as int == x as int / TILE_SIZE as int,
        -4_194_304 <= r < 4_194_304,
{
    let w: i64 = x as i64;
    if w >= 0 {
        (w / 512) as i32
    } else {
        let q: i64 = (-w + 511) / 512;
        assert(-q == w / 512) by (nonlinear_arith)
            requires
                w < 0,
                q == (-w + 511) / 512,
        ;
        (-q) as i32
    }
}

fn seq_contains(v: &Vec<Coord>, q: Coord) -> (r: bool)
    ensures
        r == v@.contains(q),
{
    let mut i: usize = 0;
    while i < v.len()
        invariant
            i <= v@.len(),
            forall|j: int| 0 <= j < i ==> #[trigger] v@[j] != q,
        decreases v@.len() - i,
    {
        if v[i].0 == q.0 && v[i].1 == q.1 {
            assert(v@[i as int] == q);
            return true;
        }
        i = i + 1;
    }
    false
}

impl TileMap {
    /// Both lists are without repeats, and every live tile already got its chests.
    pub open spec fn wf(&self) -> bool {
        &&& self.tiles@.no_duplicates()
        &&& self.chestes_spawned@.no_duplicates()
        &&& forall|q: Coord| self.tiles@.contains(q) ==> self.chestes_spawned@.contains(q)
    }

    /// An empty world centered on the origin tile.
    pub fn new() -> (r: TileMap)
        ensures
            r.wf(),
            r@.tiles == Set::<Coord>::empty(),
            r@.spawned == Set::<Coord>::empty(),
            r@.last == (0i32, 0i32),
    {
        let r = TileMap { tiles: Vec::new(), last_position: (0, 0), chestes_spawned: Vec::new() };
        assert(r@.tiles =~= Set::<Coord>::empty());
        assert(r@.spawned =~= Set::<Coord>::empty());
        r
    }

    /// Puts up every missing tile of the window centered on `c`, and records
    /// the chests due on each coordinate that has none yet.
    fn fill_window(&mut self, c: Coord) -> (r: (Vec<Coord>, Vec<Coord>))
        requires
            old(self).wf(),
            -4_194_304 <= c.0 < 4_194_304,
            -4_194_304 <= c.1 < 4_194_304,
        ensures
            final(self).wf(),
            final(self).last_position == old(self).last_position,
            forall|q: Coord|
                #![trigger final(self).tiles@.contains(q)]
                final(self).tiles@.contains(q) == (old(self).tiles@.contains(q) || in_window(c, q)),
            forall|q: Coord|
                #![trigger final(self).chestes_spawned@.contains(q)]
                final(self).chestes_spawned@.contains(q) == (old(self).chestes_spawned@.contains(q)
                    || in_window(c, q)),
            r.0@.no_duplicates(),
            r.1@.no_duplicates(),
            forall|q: Coord|
                #![trigger r.0@.contains(q)]
                r.0@.contains(q) == (in_window(c, q) && !old(self).tiles@.contains(q)),
            forall|q: Coord|
                #![trigger r.1@.contains(q)]
                r.1@.contains(q) == (in_window(c, q) && !old(self).chestes_spawned@.contains(q)),
    {
        let ghost old_tiles = self.tiles@;
        let ghost old_spawned = self.chestes_spawned@;
        let mut created: Vec<Coord> = Vec::new();
        let mut populate: Vec<Coord> = Vec::new();
        let mut k: usize = 0;
        while k < WINDOW_TILES
            invariant
                -4_194_304 <= c.0 < 4_194_304,
                -4_194_304 <= c.1 < 4_194_304,
                k <= WINDOW_TILES,
                self.last_position == old(self).last_position,
                self.wf(),
                forall|p: Coord| old_tiles.contains(p) ==> old_spawned.contains(p),
                created@.no_duplicates(),
                populate@.no_duplicates(),
                forall|q: Coord|
                    #![trigger self.tiles@.contains(q)]
                    self.tiles@.contains(q) == (old_tiles.contains(q) || (in_window(c, q)
                        && window_index(c, q) < k)),
                forall|q: Coord|
                    #![trigger self.chestes_spawned@.contains(q)]
                    self.chestes_spawned@.contains(q) == (old_spawned.contains(q) || (in_window(
                        c,
                        q,
                    ) && window_index(c, q) < k)),
                forall|q: Coord|
                    #![trigger created@.contains(q)]
                    created@.contains(q) == (in_window(c, q) && window_index(c, q) < k
                        && !old_tiles.contains(q)),
                forall|q: Coord|
                    #![trigger populate@.contains(q)]
                    populate@.contains(q) == (in_window(c, q) && window_index(c, q) < k
                        && !old_spawned.contains(q)),
            decreases WINDOW_TILES - k,
        {
            let q: Coord = (c.0 + (k / 5) as i32 - WINDOW_RADIUS, c.1 + (k % 5) as i32 - WINDOW_RADIUS);
            assert(in_window(c, q) && window_index(c, q) == k);
            assert forall|p: Coord| in_window(c, p) && window_index(c, p) == k implies p == q by {
                assert(p.0 - c.0 + 2 == k / 5 && p.1 - c.1 + 2 == k % 5) by (nonlinear_arith)
                    requires
                        (p.0 - c.0 + 2) * 5 + (p.1 - c.1 + 2) == k,
                        0 <= p.1 - c.1 + 2 < 5,
                        0 <= p.0 - c.0 + 2,
                ;
            }
            if !seq_contains(&self.tiles, q) {
                proof {
                    lemma_push_fresh(self.tiles@, q);
                    lemma_push_fresh(created@, q);
                }
                self.tiles.push(q);
                created.push(q);
                if !seq_contains(&self.chestes_spawned, q) {
                    proof {
                        lemma_push_fresh(self.chestes_spawned@, q);
                        lemma_push_fresh(populate@, q);
                    }
                    self.chestes_spawned.push(q);
                    populate.push(q);
                }
            }
            k = k + 1;
        }
        (created, populate)
    }
}

impl TileMap {
    /// Puts up the first window, around the origin tile, as at the start
    /// of a session; each coordinate in it gets its chests unless it
    /// already did.
    pub fn spawn_map(&mut self) -> (r: StreamChange)
        requires
            old(self).wf(),
        ensures
            final(self).wf(),
            final(self)@ == (MapView {
                tiles: old(self)@.tiles.union(window((0i32, 0i32))),
                spawned: old(self)@.spawned.union(window((0i32, 0i32))),
                ..old(self)@
            }),
            r.removed@.len() == 0,
            r.created@.no_duplicates(),
            r.populate@.no_duplicates(),
            r.created@.to_set() == window((0i32, 0i32)).difference(old(self)@.tiles),
            r.populate@.to_set() == window((0i32, 0i32)).difference(old(self)@.spawned),
    {
        let (created, populate) = self.fill_window((0, 0));
        assert(self@.tiles =~= old(self)@.tiles.union(window((0i32, 0i32))));
        assert(self@.spawned =~= old(self)@.spawned.union(window((0i32, 0i32))));
        assert(created@.to_set() =~= window((0i32, 0i32)).difference(old(self)@.tiles));
        assert(populate@.to_set() =~= window((0i32, 0i32)).difference(old(self)@.spawned));
        StreamChange { removed: Vec::new(), created, populate }
    }

    /// Follows the reference point to `reference`.
    ///
    /// While it stays on the tile of the last call nothing changes and
    /// `None` comes back. Otherwise the window moves to its new tile: tiles
    /// outside it are taken down, missing ones are put up, and every
    /// coordinate of the window that never got chests gets them now, and
    /// only then: a coordinate that got chests never gets them again.
    pub fn check_map(&mut self, reference: Point) -> (r: Option<StreamChange>)
        requires
            old(self).wf(),
        ensures
            final(self).wf(),
            final(self)@ == moved(old(self)@, cell_of(reference)),
            cell_of(reference) == old(self)@.last ==> r is None && *final(self) == *old(self),
            cell_of(reference) != old(self)@.last ==> (r matches Some(ch) && {
                &&& ch.removed@.no_duplicates()
                &&& ch.created@.no_duplicates()
                &&& ch.populate@.no_duplicates()
                &&& ch.removed@.to_set() == old(self)@.tiles.difference(window(cell_of(reference)))
                &&& ch.created@.to_set() == window(cell_of(reference)).difference(old(self)@.tiles)
                &&& ch.populate@.to_set() == populated(old(self)@, cell_of(reference))
            }),
    {
        let c = tile_of(reference);
        if c.0 == self.last_position.0 && c.1 == self.last_position.1 {
            assert(c == self.last_position);
            return None;
        }
        let ghost old_tiles = self.tiles@;
        let mut kept: Vec<Coord> = Vec::new();
        let mut removed: Vec<Coord> = Vec::new();
        let mut i: usize = 0;
        while i < self.tiles.len()
            invariant
                -4_194_304 <= c.0 < 4_194_304,
                -4_194_304 <= c.1 < 4_194_304,
                self.tiles@ == old_tiles,
                old_tiles.no_duplicates(),
                i <= old_tiles.len(),
                kept@.no_duplicates(),
                removed@.no_duplicates(),
                forall|p: Coord|
                    #![trigger kept@.contains(p)]
                    kept@.contains(p) == (in_window(c, p) && old_tiles.take(i as int).contains(p)),
                forall|p: Coord|
                    #![trigger removed@.contains(p)]
                    removed@.contains(p) == (!in_window(c, p) && old_tiles.take(i as int).contains(p)),
            decreases old_tiles.len() - i,
        {
            let t = self.tiles[i];
            proof {
                if old_tiles.take(i as int).contains(t) {
                    let j = choose|j: int| 0 <= j < i && old_tiles.take(i as int)[j] == t;
                    assert(old_tiles[j] == old_tiles[i as int]);
                }
                assert(old_tiles.take(i + 1) =~= old_tiles.take(i as int).push(t));
                lemma_push_contains(old_tiles.take(i as int), t);
            }
            let inside = c.0 - WINDOW_RADIUS <= t.0 && t.0 <= c.0 + WINDOW_RADIUS && c.1
                - WINDOW_RADIUS <= t.1 && t.1 <= c.1 + WINDOW_RADIUS;
            if inside {
                proof {
                    lemma_push_fresh(kept@, t);
                }
                kept.push(t);
            } else {
                proof {
                    lemma_push_fresh(removed@, t);
                }
                removed.push(t);
            }
            i = i + 1;
        }
        assert(old_tiles.take(old_tiles.len() as int) =~= old_tiles);
        self.tiles = kept;
        self.last_position = c;
        let (created, populate) = self.fill_window(c);
        assert(self@.tiles =~= window(c));
        assert(self@.spawned =~= old(self)@.spawned.union(window(c)));
        assert(removed@.to_set() =~= old(self)@.tiles.difference(window(c)));
        assert(created@.to_set() =~= window(c).difference(old(self)@.tiles));
        assert(populate@.to_set() =~= populated(old(self)@, c));
        Some(StreamChange { removed, created, populate })
    }
}

/// A chest set down in the world.
#[derive(Debug)]
pub struct ChestPlacement {
    pub x: i64,
    pub y: i64,
    /// Turn of the chest, in hundredths of a degree.
    pub rotation: u32,
    pub chest: Chest,
}

/// The center of tile `c` along one axis, in world units.
pub open spec fn tile_center(c: int) -> int {
    c * TILE_SIZE as int
}

/// `p` is a freshly stocked chest lying on tile `c`.
pub open spec fn placed_on(c: Coord, p: ChestPlacement) -> bool {
    &&& tile_center(c.0 as int) - CHEST_SPREAD <= p.x < tile_center(c.0 as int) + CHEST_SPREAD
    &&& tile_center(c.1 as int) - CHEST_SPREAD <= p.y < tile_center(c.1 as int) + CHEST_SPREAD
    &&& p.rotation < 36_000
    &&& !p.chest.opened
    &&& exists|e: u32, d: u32|
        e < crate::chest::ENERGY_COUNT_BOUND && d < crate::chest::BONUS_DRAW_BOUND
            && p.chest.contents() == #[trigger] generated(e, d)
}

/// A chest on tile `c`, offset from its center by `dx` and `dy` less
/// `CHEST_SPREAD`, turned by `rotation` and stocked from the draws
/// `energy` and `bonus_draw`.
pub fn place_chest(c: Coord, dx: u32, dy: u32, rotation: u32, energy: u32, bonus_draw: u32) -> (r:
    ChestPlacement)
    requires
        dx < 2 * CHEST_SPREAD,
        dy < 2 * CHEST_SPREAD,
    ensures
        r.x == tile_center(c.0 as int) + dx - CHEST_SPREAD,
        r.y == tile_center(c.1 as int) + dy - CHEST_SPREAD,
        r.rotation == rotation,
        !r.chest.opened,
        r.chest.contents() == generated(energy, bonus_draw),
{
    let mut chest = Chest::new();
    chest.generate_from(energy, bonus_draw);
    assert(Seq::<Item>::empty() + generated(energy, bonus_draw) =~= generated(energy, bonus_draw));
    ChestPlacement {
        x: c.0 as i64 * 512 + dx as i64 - CHEST_SPREAD,
        y: c.1 as i64 * 512 + dy as i64 - CHEST_SPREAD,
        rotation,
        chest,
    }
}

/// Chests for a tile coordinate that never had any: between `MIN_CHESTS`
/// and `MIN_CHESTS + CHEST_COUNT_CHOICES - 1` of them, each at a random
/// spot near the tile's center, at a random turn, randomly stocked.
pub fn spawn_chests(c: Coord) -> (r: Vec<ChestPlacement>)
    ensures
        MIN_CHESTS <= r@.len() < MIN_CHESTS + CHEST_COUNT_CHOICES,
        forall|i: int| 0 <= i < r@.len() ==> placed_on(c, #[trigger] r@[i]),
{
    let n = MIN_CHESTS + random_below(CHEST_COUNT_CHOICES);
    let mut r: Vec<ChestPlacement> = Vec::new();
    let mut i: u32 = 0;
    while i < n
        invariant
            i <= n,
            MIN_CHESTS <= n < MIN_CHESTS + CHEST_COUNT_CHOICES,
            r@.len() == i,
            forall|j: int| 0 <= j < i ==> placed_on(c, #[trigger] r@[j]),
        decreases n - i,
    {
        let spread: u32 = 2 * CHEST_SPREAD as u32;
        let dx = random_below(spread);
        let dy = random_below(spread);
        let rotation = random_below(36_000);
        let energy = random_below(crate::chest::ENERGY_COUNT_BOUND);
        let bonus = random_below(crate::chest::BONUS_DRAW_BOUND);
        let p = place_chest(c, dx, dy, rotation, energy, bonus);
        assert(placed_on(c, p));
        r.push(p);
        i = i + 1;
    }
    r
}

/// Along any path of the reference point, no coordinate gets chests twice:
/// the coordinates populated at two different visits are disjoint, and none
/// of them had got chests before the path began.
pub proof fn lemma_chests_once_per_coordinate(v: MapView, cells: Seq<Coord>, j: int, k: int)
    requires
        0 <= j < k < cells.len(),
    ensures
        populated_at(v, cells, j).disjoint(populated_at(v, cells, k)),
        populated_at(v, cells, k).disjoint(v.spawned),
{
    lemma_stream_grows(v, cells, j + 1, k);
    lemma_stream_grows(v, cells, 0, k);
    let before_j = cells.take(j);
    assert(cells.take(j + 1).drop_last() =~= before_j);
    assert(cells.take(j + 1).last() == cells[j]);
    assert(cells.take(0) =~= Seq::<Coord>::empty());
    assert(populated_at(v, cells, j).subset_of(stream(v, cells.take(j + 1)).spawned));
}

/// The set of coordinates that got chests only grows along a path.
proof fn lemma_stream_grows(v: MapView, cells: Seq<Coord>, a: int, b: int)
    requires
        0 <= a <= b <= cells.len(),
    ensures
        stream(v, cells.take(a)).spawned.subset_of(stream(v, cells.take(b)).spawned),
    decreases b - a,
{
    if a < b {
        lemma_stream_grows(v, cells, a, b - 1);
        assert(cells.take(b).drop_last() =~= cells.take(b - 1));
    }
}

/// Appending an element adds exactly that element.
proof fn lemma_push_contains(s: Seq<Coord>, q: Coord)
    ensures
        forall|p: Coord| #[trigger] s.push(q).contains(p) == (s.contains(p) || p == q),
{
    let t = s.push(q);
    assert forall|p: Coord| #[trigger] t.contains(p) == (s.contains(p) || p == q) by {
        if s.contains(p) {
            let i = choose|i: int| 0 <= i < s.len() && s[i] == p;
            assert(t[i] == p);
        }
        if p == q {
            assert(t[s.len() as int] == q);
        }
        if t.contains(p) {
            let i = choose|i: int| 0 <= i < t.len() && t[i] == p;
            if i < s.len() {
                assert(s[i] == p);
            }
        }
    }
}

/// Appending an element not yet present keeps a sequence free of repeats
/// and adds exactly that element.
proof fn lemma_push_fresh(s: Seq<Coord>, q: Coord)
    requires
        s.no_duplicates(),
        !s.contains(q),
    ensures
        s.push(q).no_duplicates(),
        forall|p: Coord| #[trigger] s.push(q).contains(p) == (s.contains(p) || p == q),
{
    lemma_push_contains(s, q);
    let t = s.push(q);
    assert forall|i: int, j: int| 0 <= i < t.len() && 0 <= j < t.len() && i != j implies t[i]
        != t[j] by {
        if i < s.len() && j < s.len() {
        } else if i < s.len() {
            assert(s[i] == t[i]);
        } else if j < s.len() {
            assert(s[j] == t[j]);
        }
    }
}

} // verus!
