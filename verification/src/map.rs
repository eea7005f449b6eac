//! The spatial model: a stack of floors, each a grid of tiles with its
//! derived bitmaps, and the portals that link stairways across floors.

use vstd::prelude::*;
use vstd::string::*;
use crate::components::Opaque;
use crate::position::Position;

verus! {

/// The kinds of terrain.
#[derive(Clone, Copy, Debug, PartialEq, Eq, Structural)]
pub enum TileType {
    Floor,
    Wall,
    Stairway,
}

impl TileType {
    /// Whether terrain of this kind blocks movement by itself.
    pub open spec fn spec_blocks(self) -> bool {
        self == TileType::Wall
    }

    /// Whether terrain of this kind blocks the line of sight by itself.
    pub open spec fn spec_is_opaque(self) -> bool {
        self == TileType::Wall
    }

    /// Whether terrain of this kind blocks movement by itself.
    pub fn blocks(self) -> (b: bool)
        ensures
            b == self.spec_blocks(),
    {
        match self {
            TileType::Wall => true,
            _ => false,
        }
    }

    /// Whether terrain of this kind blocks the line of sight by itself.
    pub fn is_opaque(self) -> (b: bool)
        ensures
            b == self.spec_is_opaque(),
    {
        match self {
            TileType::Wall => true,
            _ => false,
        }
    }

    /// The name of the terrain as narration uses it.
    pub open spec fn spec_name(self) -> Seq<char> {
        match self {
            TileType::Floor => "floor"@,
            TileType::Wall => "wall"@,
            TileType::Stairway => "stairway"@,
        }
    }

    /// The name of the terrain as narration uses it.
    pub fn name(self) -> (s: &'static str)
        ensures
            s@ == self.spec_name(),
    {
        match self {
            TileType::Floor => "floor",
            TileType::Wall => "wall",
            TileType::Stairway => "stairway",
        }
    }
}

/// One tile of terrain: its kind and how it is drawn.
#[derive(Debug)]
pub struct Tile {
    pub ttype: TileType,
    pub glyph: String,
    pub fg: u8,
    pub bg: u8,
    pub mods: u16,
}

/// How a tile is drawn, as mathematical values.
pub struct TileView {
    pub ttype: TileType,
    pub glyph: Seq<char>,
    pub fg: u8,
    pub bg: u8,
    pub mods: u16,
}

impl View for Tile {
    type V = TileView;

    open spec fn view(&self) -> TileView {
        TileView {
            ttype: self.ttype,
            glyph: self.glyph@,
            fg: self.fg,
            bg: self.bg,
            mods: self.mods,
        }
    }
}

/// A fresh tile of the given kind: the glyph that stands for the kind, in
/// dark grey on black.
pub open spec fn spec_new_tile(ttype: TileType) -> TileView {
    TileView {
        ttype,
        glyph: match ttype {
            TileType::Floor => "."@,
            TileType::Wall => "#"@,
            TileType::Stairway => ">"@,
        },
        fg: 8,
        bg: 0,
        mods: 0,
    }
}

impl Tile {
    /// A tile of the given kind with the glyph that stands for that kind.
    pub fn new(ttype: TileType) -> (t: Tile)
        ensures
            t@ == spec_new_tile(ttype),
    {
        let glyph = match ttype {
            TileType::Floor => ".",
            TileType::Wall => "#",
            TileType::Stairway => ">",
        };
        Tile { ttype, glyph: String::from_str(glyph), fg: 8, bg: 0, mods: 0 }
    }
}

/// One floor: a grid of `width` by `height` tiles, stored row by row, and
/// three bitmaps of the same size that say for each tile whether movement is
/// blocked there, whether sight is blocked there, and whether the player has
/// ever seen it.
#[derive(Debug)]
pub struct Floor {
    pub tiles: Vec<Tile>,
    pub width: i32,
    pub height: i32,
    pub revealed_tiles: Vec<bool>,
    pub blocked_tiles: Vec<bool>,
    pub opaque_tiles: Vec<bool>,
}

/// A link from a stairway tile to the tile where its user arrives.
#[derive(Clone, Copy, Debug, PartialEq, Eq, Structural)]
pub struct Portal {
    pub from: Position,
    pub to: Position,
}

/// The whole map: the floors, bottom first, and the portals between them.
#[derive(Debug)]
pub struct Model {
    pub levels: Vec<Floor>,
    pub portals: Vec<Portal>,
}

/// Whether the first `n` of `blockers` leave tile `i` of floor number `f`
/// blocked, given whether its terrain blocks: an obstructing entity on the
/// tile adds to what the terrain does and never takes it away.
spec fn blocked_after(
    terrain: bool,
    floor: &Floor,
    f: int,
    blockers: Seq<Position>,
    n: int,
    i: int,
) -> bool
    decreases n,
{
    if n <= 0 {
        terrain
    } else {
        blocked_after(terrain, floor, f, blockers, n - 1, i) || floor.covers(f, blockers[n - 1], i)
    }
}

/// Whether the first `n` of `opaques` leave tile `i` of floor number `f`
/// opaque, given whether its terrain is: the last entity on the tile that
/// has an opacity flag decides, and the terrain where there is none.
pub open spec fn opaque_after(
    terrain: bool,
    floor: &Floor,
    f: int,
    opaques: Seq<(Position, Opaque)>,
    n: int,
    i: int,
) -> bool
    decreases n,
{
    if n <= 0 {
        terrain
    } else if floor.covers(f, opaques[n - 1].0, i) {
        opaques[n - 1].1.opaque
    } else {
        opaque_after(terrain, floor, f, opaques, n - 1, i)
    }
}

/// A tile ends up blocked exactly if its terrain blocks or one of the
/// obstructing entities stands on it.
proof fn lemma_blocked_after(
    terrain: bool,
    floor: &Floor,
    f: int,
    blockers: Seq<Position>,
    n: int,
    i: int,
)
    requires
        0 <= n <= blockers.len(),
    ensures
        blocked_after(terrain, floor, f, blockers, n, i) == (terrain || exists|j: int|
            0 <= j < n && floor.covers(f, #[trigger] blockers[j], i)),
    decreases n,
{
    if n > 0 {
        lemma_blocked_after(terrain, floor, f, blockers, n - 1, i);
    }
}

impl Floor {
    /// Whether `(x, y)` is a tile of the grid.
    pub open spec fn spec_in_bounds(&self, x: int, y: int) -> bool {
        0 <= x < self.width && 0 <= y < self.height
    }

    /// The index of tile `(x, y)` in the row-by-row storage.
    pub open spec fn spec_index(&self, x: int, y: int) -> int {
        y * self.width + x
    }

    /// Whether the floor is a proper grid: it has at least one tile, and the
    /// tiles and each bitmap have exactly `width * height` entries.
    pub open spec fn wf(&self) -> bool {
        &&& self.width > 0
        &&& self.height > 0
        &&& self.tiles@.len() == self.width * self.height
        &&& self.revealed_tiles@.len() == self.width * self.height
        &&& self.blocked_tiles@.len() == self.width * self.height
        &&& self.opaque_tiles@.len() == self.width * self.height
    }

    /// Whether an entity at `p` stands on tile `i` of this floor, which is
    /// floor number `f`.
    pub open spec fn covers(&self, f: int, p: Position, i: int) -> bool {
        p.z == f && self.spec_in_bounds(p.x as int, p.y as int) && self.spec_index(
            p.x as int,
            p.y as int,
        ) == i
    }

    /// The index of a tile of the grid lies within the storage.
    pub proof fn lemma_index_in_range(&self, x: int, y: int)
        requires
            self.width > 0,
            self.height > 0,
            self.spec_in_bounds(x, y),
        ensures
            0 <= self.spec_index(x, y) < self.width * self.height,
    {
        assert(0 <= y * self.width && y * self.width + self.width <= self.height * self.width)
            by (nonlinear_arith)
            requires
                0 <= y < self.height,
                self.width > 0,
        ;
    }

    /// A floor of the given size, all of it bare floor that nobody has seen.
    pub fn new(width: i32, height: i32) -> (floor: Floor)
        requires
            width > 0,
            height > 0,
            width * height <= usize::MAX,
        ensures
            floor.wf(),
            floor.width == width,
            floor.height == height,
            forall|i: int|
                0 <= i < width * height ==> {
                    &&& (#[trigger] floor.tiles@[i])@ == spec_new_tile(TileType::Floor)
                    &&& !floor.revealed_tiles@[i]
                    &&& !floor.blocked_tiles@[i]
                    &&& !floor.opaque_tiles@[i]
                },
    {
        assert(0 < width * height <= 0x8000_0000 * 0x8000_0000) by (nonlinear_arith)
            requires
                0 < width <= 0x8000_0000,
                0 < height <= 0x8000_0000,
        ;
        let size: usize = (width as u64 * height as u64) as usize;
        let mut tiles: Vec<Tile> = Vec::new();
        let mut revealed_tiles: Vec<bool> = Vec::new();
        let mut blocked_tiles: Vec<bool> = Vec::new();
        let mut opaque_tiles: Vec<bool> = Vec::new();
        let mut i: usize = 0;
        while i < size
            invariant
                i <= size,
                tiles@.len() == i,
                revealed_tiles@.len() == i,
                blocked_tiles@.len() == i,
                opaque_tiles@.len() == i,
                forall|j: int|
                    0 <= j < i ==> {
                        &&& (#[trigger] tiles@[j])@ == spec_new_tile(TileType::Floor)
                        &&& !revealed_tiles@[j]
                        &&& !blocked_tiles@[j]
                        &&& !opaque_tiles@[j]
                    },
            decreases size - i,
        {
            tiles.push(Tile::new(TileType::Floor));
            revealed_tiles.push(false);
            blocked_tiles.push(false);
            opaque_tiles.push(false);
            i += 1;
        }
        Floor { tiles, width, height, revealed_tiles, blocked_tiles, opaque_tiles }
    }

    /// Checks whether the floor is a proper grid.
    pub fn is_wf(&self) -> (ok: bool)
        ensures
            ok == self.wf(),
    {
        if self.width <= 0 || self.height <= 0 {
            return false;
        }
        assert(0 < self.width * self.height <= 0x8000_0000 * 0x8000_0000) by (nonlinear_arith)
            requires
                0 < self.width <= 0x8000_0000,
                0 < self.height <= 0x8000_0000,
        ;
        let size: u64 = self.width as u64 * self.height as u64;
        self.tiles.len() as u64 == size && self.revealed_tiles.len() as u64 == size
            && self.blocked_tiles.len() as u64 == size && self.opaque_tiles.len() as u64 == size
    }

    /// Whether `(x, y)` is a tile of the grid.
    pub fn in_bounds(&self, x: i32, y: i32) -> (inside: bool)
        ensures
            inside == self.spec_in_bounds(x as int, y as int),
    {
        0 <= x && x < self.width && 0 <= y && y < self.height
    }

    /// The index of tile `(x, y)` in the row-by-row storage.
    pub fn to_index(&self, x: i32, y: i32) -> (index: usize)
        requires
            self.wf(),
            self.spec_in_bounds(x as int, y as int),
        ensures
            index == self.spec_index(x as int, y as int),
            index < self.width * self.height,
    {
        let len = self.tiles.len();
        proof {
            self.lemma_index_in_range(x as int, y as int);
        }
        assert(0 <= y * self.width <= 0x8000_0000 * 0x8000_0000) by (nonlinear_arith)
            requires
                0 <= y <= 0x8000_0000,
                0 < self.width <= 0x8000_0000,
        ;
        (y as u64 * self.width as u64 + x as u64) as usize
    }

    /// Sets the kind of the tile at `(x, y)`. The bitmaps keep their values
    /// until the next rebuild.
    pub fn set_tile(&mut self, x: i32, y: i32, ttype: TileType)
        requires
            old(self).wf(),
            old(self).spec_in_bounds(x as int, y as int),
        ensures
            final(self).wf(),
            final(self).width == old(self).width,
            final(self).height == old(self).height,
            final(self).revealed_tiles == old(self).revealed_tiles,
            final(self).blocked_tiles == old(self).blocked_tiles,
            final(self).opaque_tiles == old(self).opaque_tiles,
            final(self).tiles@.len() == old(self).tiles@.len(),
            final(self).tiles@[old(self).spec_index(x as int, y as int)]@ == spec_new_tile(ttype),
            forall|i: int|
                0 <= i < old(self).tiles@.len() && i != old(self).spec_index(x as int, y as int)
                    ==> final(self).tiles@[i] == old(self).tiles@[i],
    {
        let index = self.to_index(x, y);
        self.tiles.set(index, Tile::new(ttype));
    }

    /// Rebuilds the blocked and the opaque bitmap from the terrain alone.
    pub fn update_tilemaps(&mut self)
        requires
            old(self).wf(),
        ensures
            final(self).wf(),
            final(self).width == old(self).width,
            final(self).height == old(self).height,
            final(self).tiles == old(self).tiles,
            final(self).revealed_tiles == old(self).revealed_tiles,
            forall|i: int|
                0 <= i < final(self).tiles@.len() ==> #[trigger] final(self).blocked_tiles@[i]
                    == final(self).tiles@[i].ttype.spec_blocks(),
            forall|i: int|
                0 <= i < final(self).tiles@.len() ==> #[trigger] final(self).opaque_tiles@[i]
                    == final(self).tiles@[i].ttype.spec_is_opaque(),
    {
        let mut i: usize = 0;
        while i < self.tiles.len()
            invariant
                i <= self.tiles.len(),
                self.wf(),
                self.width == old(self).width,
                self.height == old(self).height,
                self.tiles == old(self).tiles,
                self.revealed_tiles == old(self).revealed_tiles,
                forall|j: int|
                    0 <= j < i ==> #[trigger] self.blocked_tiles@[j]
                        == self.tiles@[j].ttype.spec_blocks(),
                forall|j: int|
                    0 <= j < i ==> #[trigger] self.opaque_tiles@[j]
                        == self.tiles@[j].ttype.spec_is_opaque(),
            decreases self.tiles.len() - i,
        {
            let ttype = self.tiles[i].ttype;
            self.blocked_tiles.set(i, ttype.blocks());
            self.opaque_tiles.set(i, ttype.is_opaque());
            i += 1;
        }
    }

    /// Whether movement onto `(x, y)` is blocked according to the bitmap.
    pub fn is_blocked(&self, x: i32, y: i32) -> (blocked: bool)
        requires
            self.wf(),
            self.spec_in_bounds(x as int, y as int),
        ensures
            blocked == self.blocked_tiles@[self.spec_index(x as int, y as int)],
    {
        let index = self.to_index(x, y);
        self.blocked_tiles[index]
    }

    /// Marks as blocked the tiles of this floor, floor number `f`, on which
    /// one of `blockers` stands.
    fn overlay_blockers(&mut self, f: usize, blockers: &Vec<Position>)
        requires
            old(self).wf(),
        ensures
            final(self).wf(),
            final(self).width == old(self).width,
            final(self).height == old(self).height,
            final(self).tiles == old(self).tiles,
            final(self).revealed_tiles == old(self).revealed_tiles,
            final(self).opaque_tiles == old(self).opaque_tiles,
            forall|i: int|
                0 <= i < final(self).blocked_tiles@.len() ==> #[trigger] final(self).blocked_tiles@[i] == blocked_after(
                    old(self).blocked_tiles@[i],
                    old(self),
                    f as int,
                    blockers@,
                    blockers@.len() as int,
                    i,
                ),
    {
        let mut n: usize = 0;
        while n < blockers.len()
            invariant
                n <= blockers.len(),
                self.wf(),
                old(self).wf(),
                self.width == old(self).width,
                self.height == old(self).height,
                self.tiles == old(self).tiles,
                self.revealed_tiles == old(self).revealed_tiles,
                self.opaque_tiles == old(self).opaque_tiles,
                forall|i: int|
                    0 <= i < self.blocked_tiles@.len() ==> #[trigger] self.blocked_tiles@[i]
                        == blocked_after(
                        old(self).blocked_tiles@[i],
                        old(self),
                        f as int,
                        blockers@,
                        n as int,
                        i,
                    ),
            decreases blockers.len() - n,
        {
            let guy = blockers[n];
            if guy.z >= 0 && guy.z as usize == f && self.in_bounds(guy.x, guy.y) {
                let index = self.to_index(guy.x, guy.y);
                self.blocked_tiles.set(index, true);
            }
            n += 1;
        }
    }

    /// Sets the opacity of the tiles of this floor, floor number `f`, on
    /// which one of `opaques` stands to the flag of that entity.
    fn overlay_opaques(&mut self, f: usize, opaques: &Vec<(Position, Opaque)>)
        requires
            old(self).wf(),
        ensures
            final(self).wf(),
            final(self).width == old(self).width,
            final(self).height == old(self).height,
            final(self).tiles == old(self).tiles,
            final(self).revealed_tiles == old(self).revealed_tiles,
            final(self).blocked_tiles == old(self).blocked_tiles,
            forall|i: int|
                0 <= i < final(self).opaque_tiles@.len() ==> #[trigger] final(self).opaque_tiles@[i] == opaque_after(
                    old(self).opaque_tiles@[i],
                    old(self),
                    f as int,
                    opaques@,
                    opaques@.len() as int,
                    i,
                ),
    {
        let mut n: usize = 0;
        while n < opaques.len()
            invariant
                n <= opaques.len(),
                self.wf(),
                old(self).wf(),
                self.width == old(self).width,
                self.height == old(self).height,
                self.tiles == old(self).tiles,
                self.revealed_tiles == old(self).revealed_tiles,
                self.blocked_tiles == old(self).blocked_tiles,
                forall|i: int|
                    0 <= i < self.opaque_tiles@.len() ==> #[trigger] self.opaque_tiles@[i]
                        == opaque_after(
                        old(self).opaque_tiles@[i],
                        old(self),
                        f as int,
                        opaques@,
                        n as int,
                        i,
                    ),
            decreases opaques.len() - n,
        {
            let guy = opaques[n];
            if guy.0.z >= 0 && guy.0.z as usize == f && self.in_bounds(guy.0.x, guy.0.y) {
                let index = self.to_index(guy.0.x, guy.0.y);
                self.opaque_tiles.set(index, guy.1.opaque);
            }
            n += 1;
        }
    }
}

/// What a rebuild makes of one floor, floor number `f`: the terrain and the
/// memory of what was seen stay; a tile is blocked exactly if its terrain
/// blocks or an obstructing entity stands on it; a tile is opaque as the last
/// entity with an opacity flag on it says, or as its terrain is where none
/// stands.
pub open spec fn floor_rebuilt(
    before: &Floor,
    after: &Floor,
    f: int,
    blockers: Seq<Position>,
    opaques: Seq<(Position, Opaque)>,
) -> bool {
    &&& after.wf()
    &&& after.width == before.width
    &&& after.height == before.height
    &&& after.tiles == before.tiles
    &&& after.revealed_tiles == before.revealed_tiles
    &&& forall|i: int|
        0 <= i < after.tiles@.len() ==> {
            &&& #[trigger] after.blocked_tiles@[i] == (before.tiles@[i].ttype.spec_blocks()
                || exists|j: int|
                0 <= j < blockers.len() && before.covers(f, #[trigger] blockers[j], i))
            &&& after.opaque_tiles@[i] == opaque_after(
                before.tiles@[i].ttype.spec_is_opaque(),
                before,
                f,
                opaques,
                opaques.len() as int,
                i,
            )
        }
}

/// The destination of the first of the first `n` portals that leads away
/// from `from`, if there is one.
pub open spec fn spec_portal(portals: Seq<Portal>, n: int, from: Position) -> Option<Position>
    decreases n,
{
    if n <= 0 {
        None
    } else {
        match spec_portal(portals, n - 1, from) {
            Some(to) => Some(to),
            None => if portals[n - 1].from == from {
                Some(portals[n - 1].to)
            } else {
                None
            },
        }
    }
}

impl Model {
    /// Whether every floor of the map is a proper grid.
    pub open spec fn wf(&self) -> bool {
        forall|f: int| 0 <= f < self.levels@.len() ==> (#[trigger] self.levels@[f]).wf()
    }

    /// Where the portal at `from` leads, if there is one.
    pub open spec fn spec_destination(&self, from: Position) -> Option<Position> {
        spec_portal(self.portals@, self.portals@.len() as int, from)
    }

    /// Checks whether every floor of the map is a proper grid.
    pub fn is_wf(&self) -> (ok: bool)
        ensures
            ok == self.wf(),
    {
        let mut f: usize = 0;
        while f < self.levels.len()
            invariant
                f <= self.levels.len(),
                forall|g: int| 0 <= g < f ==> (#[trigger] self.levels@[g]).wf(),
            decreases self.levels.len() - f,
        {
            if !self.levels[f].is_wf() {
                return false;
            }
            f += 1;
        }
        true
    }

    /// A map without floors or portals.
    pub fn new() -> (model: Model)
        ensures
            model.wf(),
            model.levels@.len() == 0,
            model.portals@.len() == 0,
    {
        Model { levels: Vec::new(), portals: Vec::new() }
    }

    /// Adds a floor on top of the stack.
    pub fn add_level(&mut self, floor: Floor)
        requires
            old(self).wf(),
            floor.wf(),
        ensures
            final(self).wf(),
            final(self).levels@ == old(self).levels@.push(floor),
            final(self).portals == old(self).portals,
    {
        self.levels.push(floor);
    }

    /// Adds a portal. A portal that was added earlier from the same tile
    /// keeps precedence.
    pub fn add_portal(&mut self, from: Position, to: Position)
        ensures
            final(self).levels == old(self).levels,
            final(self).portals@ == old(self).portals@.push(Portal { from, to }),
    {
        self.portals.push(Portal { from, to });
    }

    /// Where the portal at `from` leads, if there is one.
    pub fn destination(&self, from: Position) -> (to: Option<Position>)
        ensures
            to == self.spec_destination(from),
    {
        let mut n: usize = 0;
        while n < self.portals.len()
            invariant
                n <= self.portals.len(),
                spec_portal(self.portals@, n as int, from).is_none(),
            decreases self.portals.len() - n,
        {
            if self.portals[n].from == from {
                proof {
                    lemma_portal_found(self.portals@, n as int, self.portals@.len() as int, from);
                }
                return Some(self.portals[n].to);
            }
            n += 1;
        }
        None
    }
}

/// Once a portal from `from` is found at index `at` and none before it, it
/// stays the answer however many more portals are looked at.
proof fn lemma_portal_found(portals: Seq<Portal>, at: int, n: int, from: Position)
    requires
        0 <= at < n <= portals.len(),
        spec_portal(portals, at, from).is_none(),
        portals[at].from == from,
    ensures
        spec_portal(portals, n, from) == Some(portals[at].to),
    decreases n,
{
    if n > at + 1 {
        lemma_portal_found(portals, at, n - 1, from);
    }
}

/// Rebuilds the blocked and the opaque bitmap of every floor from the
/// terrain and from the entities that obstruct or have an opacity flag.
pub fn map_indexing_system(
    model: &mut Model,
    blockers: &Vec<Position>,
    opaques: &Vec<(Position, Opaque)>,
)
    requires
        old(model).wf(),
    ensures
        final(model).wf(),
        final(model).portals == old(model).portals,
        final(model).levels@.len() == old(model).levels@.len(),
        forall|f: int|
            0 <= f < final(model).levels@.len() ==> floor_rebuilt(
                &old(model).levels@[f],
                #[trigger] &final(model).levels@[f],
                f,
                blockers@,
                opaques@,
            ),
{
    let mut f: usize = 0;
    while f < model.levels.len()
        invariant
            f <= model.levels.len(),
            old(model).wf(),
            model.portals == old(model).portals,
            model.levels@.len() == old(model).levels@.len(),
            forall|g: int|
                0 <= g < f ==> floor_rebuilt(
                    &old(model).levels@[g],
                    #[trigger] &model.levels@[g],
                    g,
                    blockers@,
                    opaques@,
                ),
            forall|g: int|
                f <= g < model.levels@.len() ==> #[trigger] model.levels@[g] == old(model).levels@[g],
        decreases model.levels.len() - f,
    {
        let ghost before = model.levels@[f as int];
        model.levels[f].update_tilemaps();
        let ghost bare = model.levels@[f as int];
        model.levels[f].overlay_blockers(f, blockers);
        let ghost half = model.levels@[f as int];
        model.levels[f].overlay_opaques(f, opaques);
        let ghost done = model.levels@[f as int];
        assert(floor_rebuilt(&before, &done, f as int, blockers@, opaques@)) by {
            assert forall|i: int| 0 <= i < done.tiles@.len() implies {
                &&& #[trigger] done.blocked_tiles@[i] == (before.tiles@[i].ttype.spec_blocks()
                    || exists|j: int|
                    0 <= j < blockers@.len() && before.covers(f as int, #[trigger] blockers@[j], i))
                &&& done.opaque_tiles@[i] == opaque_after(
                    before.tiles@[i].ttype.spec_is_opaque(),
                    &before,
                    f as int,
                    opaques@,
                    opaques@.len() as int,
                    i,
                )
            } by {
                lemma_overlay_same_grid(&bare, &before, f as int, blockers@, opaques@, i);
                lemma_overlay_same_grid(&half, &before, f as int, blockers@, opaques@, i);
                lemma_blocked_after(
                    before.tiles@[i].ttype.spec_blocks(),
                    &before,
                    f as int,
                    blockers@,
                    blockers@.len() as int,
                    i,
                );
            }
        }
        f += 1;
    }
}

/// Which tile an entity stands on depends only on the size of the grid, so
/// the two overlays give the same on two floors of one size.
proof fn lemma_overlay_same_grid(
    a: &Floor,
    b: &Floor,
    f: int,
    blockers: Seq<Position>,
    opaques: Seq<(Position, Opaque)>,
    i: int,
)
    requires
        a.width == b.width,
        a.height == b.height,
    ensures
        forall|t: bool, n: int|
            blocked_after(t, a, f, blockers, n, i) == blocked_after(t, b, f, blockers, n, i),
        forall|t: bool, n: int|
            opaque_after(t, a, f, opaques, n, i) == opaque_after(t, b, f, opaques, n, i),
{
    assert forall|t: bool, n: int|
        blocked_after(t, a, f, blockers, n, i) == blocked_after(t, b, f, blockers, n, i) by {
        lemma_blocked_same_grid(t, a, b, f, blockers, n, i);
    }
    assert forall|t: bool, n: int|
        opaque_after(t, a, f, opaques, n, i) == opaque_after(t, b, f, opaques, n, i) by {
        lemma_opaque_same_grid(t, a, b, f, opaques, n, i);
    }
}

proof fn lemma_blocked_same_grid(
    t: bool,
    a: &Floor,
    b: &Floor,
    f: int,
    blockers: Seq<Position>,
    n: int,
    i: int,
)
    requires
        a.width == b.width,
        a.height == b.height,
    ensures
        blocked_after(t, a, f, blockers, n, i) == blocked_after(t, b, f, blockers, n, i),
    decreases n,
{
    if n > 0 {
        lemma_blocked_same_grid(t, a, b, f, blockers, n - 1, i);
    }
}

proof fn lemma_opaque_same_grid(
    t: bool,
    a: &Floor,
    b: &Floor,
    f: int,
    opaques: Seq<(Position, Opaque)>,
    n: int,
    i: int,
)
    requires
        a.width == b.width,
        a.height == b.height,
    ensures
        opaque_after(t, a, f, opaques, n, i) == opaque_after(t, b, f, opaques, n, i),
    decreases n,
{
    if n > 0 {
        lemma_opaque_same_grid(t, a, b, f, opaques, n - 1, i);
    }
}

} // verus!
