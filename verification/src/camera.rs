//! The camera: the part of a floor around the player, as a grid of tiles
//! ready to be drawn.

use vstd::prelude::*;
use vstd::string::*;
use crate::components::Renderable;
use crate::components::Viewshed;
use crate::map::Floor;
use crate::map::Tile;
use crate::map::TileView;
use crate::map::TileType;
use crate::position::Point;
use crate::position::Position;

verus! {

/// The colour index in which things out of sight are drawn.
pub const DARK_GRAY: u8 = 8;

/// The colour index of the background.
pub const BLACK: u8 = 0;

/// The tile that fills a new camera.
pub open spec fn spec_default_tile() -> TileView {
    TileView { ttype: TileType::Floor, glyph: "#"@, fg: DARK_GRAY, bg: BLACK, mods: 0 }
}

/// The tile that stands for what the player has never seen.
pub open spec fn spec_unseen_tile() -> TileView {
    TileView { glyph: "\u{2591}"@, ..spec_default_tile() }
}

fn default_tile() -> (tile: Tile)
    ensures
        tile@ == spec_default_tile(),
{
    Tile { ttype: TileType::Floor, glyph: String::from_str("#"), fg: DARK_GRAY, bg: BLACK, mods: 0 }
}

/// The screen of the camera: `width` by `height` tiles, stored row by row.
#[derive(Debug)]
pub struct CameraView {
    pub map: Vec<Tile>,
    pub width: i32,
    pub height: i32,
}

/// The tile after the first `n` renderables have been drawn over it: each
/// one that stands at `(x, y)` replaces the glyph and the colours and
/// clears the modifiers, so that the last of them shows.
pub open spec fn drawn_over(
    tile: TileView,
    renderables: Seq<(Position, Renderable)>,
    n: int,
    x: int,
    y: int,
) -> TileView
    decreases n,
{
    if n <= 0 {
        tile
    } else {
        let below = drawn_over(tile, renderables, n - 1, x, y);
        let (posn, rendee) = renderables[n - 1];
        if posn.x == x && posn.y == y {
            TileView { glyph: rendee.glyph@, fg: rendee.fg, bg: rendee.bg, mods: 0, ..below }
        } else {
            below
        }
    }
}

/// What the camera shows of the place `(x, y)` of the floor.
///
/// A place that is off the floor or that the player has never seen shows
/// the tile for the unseen. A place in view shows its terrain with what
/// stands on it drawn over. A place that was seen but is out of view shows
/// its terrain in the colours of things out of sight.
pub open spec fn spec_cell(
    floor: &Floor,
    renderables: Seq<(Position, Renderable)>,
    visible: Seq<Point>,
    x: int,
    y: int,
) -> TileView {
    if !floor.spec_in_bounds(x, y) || !floor.revealed_tiles@[floor.spec_index(x, y)] {
        spec_unseen_tile()
    } else {
        let terrain = floor.tiles@[floor.spec_index(x, y)]@;
        if exists|j: int| 0 <= j < visible.len() && (#[trigger] visible[j]).x == x && visible[j].y == y {
            drawn_over(terrain, renderables, renderables.len() as int, x, y)
        } else {
            TileView { fg: DARK_GRAY, bg: BLACK, mods: 0, ..terrain }
        }
    }
}

fn in_view(visible: &Vec<Point>, x: i32, y: i32) -> (found: bool)
    ensures
        found == (exists|j: int|
            0 <= j < visible@.len() && (#[trigger] visible@[j]).x == x && visible@[j].y == y),
{
    let mut j: usize = 0;
    while j < visible.len()
        invariant
            j <= visible.len(),
            forall|k: int| 0 <= k < j ==> !((#[trigger] visible@[k]).x == x && visible@[k].y == y),
        decreases visible.len() - j,
    {
        if visible[j].x == x && visible[j].y == y {
            return true;
        }
        j += 1;
    }
    false
}

fn cell(
    floor: &Floor,
    renderables: &Vec<(Position, Renderable)>,
    visible: &Vec<Point>,
    x: i64,
    y: i64,
) -> (tile: Tile)
    requires
        floor.wf(),
    ensures
        tile@ == spec_cell(floor, renderables@, visible@, x as int, y as int),
{
    let mut tile = default_tile();
    if x < 0 || x >= floor.width as i64 || y < 0 || y >= floor.height as i64 {
        tile.glyph = String::from_str("\u{2591}");
        return tile;
    }
    let index = floor.to_index(x as i32, y as i32);
    if !floor.revealed_tiles[index] {
        tile.glyph = String::from_str("\u{2591}");
        return tile;
    }
    let terrain = &floor.tiles[index];
    tile.ttype = terrain.ttype;
    tile.glyph = terrain.glyph.clone();
    tile.fg = terrain.fg;
    tile.bg = terrain.bg;
    tile.mods = terrain.mods;
    if in_view(visible, x as i32, y as i32) {
        let mut n: usize = 0;
        while n < renderables.len()
            invariant
                n <= renderables.len(),
                tile@ == drawn_over(terrain@, renderables@, n as int, x as int, y as int),
            decreases renderables.len() - n,
        {
            if renderables[n].0.x as i64 == x && renderables[n].0.y as i64 == y {
                tile.glyph = renderables[n].1.glyph.clone();
                tile.fg = renderables[n].1.fg;
                tile.bg = renderables[n].1.bg;
                tile.mods = 0;
            }
            n += 1;
        }
    } else {
        tile.fg = DARK_GRAY;
        tile.bg = BLACK;
        tile.mods = 0;
    }
    tile
}

impl CameraView {
    /// Whether the screen is a proper grid: it has at least one tile, and
    /// exactly `width * height` of them.
    pub open spec fn wf(&self) -> bool {
        &&& self.width > 0
        &&& self.height > 0
        &&& self.map@.len() == self.width * self.height
    }

    /// How many columns of the screen an update fills: twice the half of the
    /// width, so that a screen of odd width keeps its last column.
    pub open spec fn spec_columns(&self) -> int {
        2 * (self.width / 2)
    }

    /// How many rows of the screen an update fills.
    pub open spec fn spec_rows(&self) -> int {
        2 * (self.height / 2)
    }

    /// Checks whether the screen is a proper grid.
    pub fn is_wf(&self) -> (ok: bool)
        ensures
            ok == self.wf(),
    {
        if self.width <= 0 || self.height <= 0 {
            return false;
        }
        assert(0 < self.width * self.height <= 0x8000_0000 * 0x8000_0000) by (nonlinear_arith)
            requires
                0 < self.width <= 0x8000_0000,
                0 < self.height <= 0x8000_0000,
        ;
        self.map.len() as u64 == self.width as u64 * self.height as u64
    }

    /// A screen of the given size, filled with the default tile.
    pub fn new(new_width: i32, new_height: i32) -> (camera: CameraView)
        requires
            new_width >= 0,
            new_height >= 0,
            new_width * new_height <= usize::MAX,
        ensures
            camera.width == new_width,
            camera.height == new_height,
            camera.map@.len() == new_width * new_height,
            forall|i: int| 0 <= i < camera.map@.len() ==> (#[trigger] camera.map@[i])@
                == spec_default_tile(),
    {
        assert(0 <= new_width * new_height <= 0x8000_0000 * 0x8000_0000) by (nonlinear_arith)
            requires
                0 <= new_width <= 0x8000_0000,
                0 <= new_height <= 0x8000_0000,
        ;
        let size: usize = (new_width as u64 * new_height as u64) as usize;
        let mut map: Vec<Tile> = Vec::new();
        let mut i: usize = 0;
        while i < size
            invariant
                i <= size,
                map@.len() == i,
                forall|j: int| 0 <= j < i ==> (#[trigger] map@[j])@ == spec_default_tile(),
            decreases size - i,
        {
            map.push(default_tile());
            i += 1;
        }
        CameraView { map, width: new_width, height: new_height }
    }

    /// Reserved for a change of the size of the screen; the screen keeps the
    /// size that it has.
    pub fn resize(&mut self, _new_width: i32, _new_height: i32)
        ensures
            *final(self) == *old(self),
    {
    }
}

/// Fills the screen of the camera from the floor, with the player in the
/// middle: the tile at column `sx` and row `sy` of the screen shows the
/// place `(ppos.x - width / 2 + sx, ppos.y - height / 2 + sy)`.
pub fn camera_update_sys(
    camera: &mut CameraView,
    renderables: &Vec<(Position, Renderable)>,
    map: &Floor,
    ppos: Position,
    pview: &Viewshed,
)
    requires
        old(camera).wf(),
        map.wf(),
    ensures
        final(camera).wf(),
        final(camera).width == old(camera).width,
        final(camera).height == old(camera).height,
        forall|sx: int, sy: int|
            0 <= sx < old(camera).width && 0 <= sy < old(camera).height ==> (#[trigger] final(
                camera).map@[sy * old(camera).width + sx])@ == (if sx < old(camera).spec_columns()
                && sy < old(camera).spec_rows() {
                spec_cell(
                    map,
                    renderables@,
                    pview.visible_tiles@,
                    ppos.x - old(camera).width / 2 + sx,
                    ppos.y - old(camera).height / 2 + sy,
                )
            } else {
                old(camera).map@[sy * old(camera).width + sx]@
            }),
{
    let width: i64 = camera.width as i64;
    let height: i64 = camera.height as i64;
    let columns: i64 = 2 * (width / 2);
    let rows: i64 = 2 * (height / 2);
    let left: i64 = ppos.x as i64 - width / 2;
    let top: i64 = ppos.y as i64 - height / 2;
    let mut sy: i64 = 0;
    while sy < rows
        invariant
            0 <= sy <= rows <= height,
            camera.wf(),
            map.wf(),
            camera.width == old(camera).width,
            camera.height == old(camera).height,
            width == camera.width,
            height == camera.height,
            columns == old(camera).spec_columns(),
            rows == old(camera).spec_rows(),
            left == ppos.x - width / 2,
            top == ppos.y - height / 2,
            forall|cx: int, cy: int|
                0 <= cx < width && 0 <= cy < height ==> (#[trigger] camera.map@[cy * width + cx])@
                    == (if cx < columns && cy < sy {
                    spec_cell(map, renderables@, pview.visible_tiles@, left + cx, top + cy)
                } else {
                    old(camera).map@[cy * width + cx]@
                }),
        decreases rows - sy,
    {
        let mut sx: i64 = 0;
        while sx < columns
            invariant
                0 <= sx <= columns <= width,
                0 <= sy < rows <= height,
                camera.wf(),
                map.wf(),
                camera.width == old(camera).width,
                camera.height == old(camera).height,
                width == camera.width,
                height == camera.height,
                left == ppos.x - width / 2,
                top == ppos.y - height / 2,
                forall|cx: int, cy: int|
                    0 <= cx < width && 0 <= cy < height ==> (#[trigger] camera.map@[cy * width
                        + cx])@ == (if cx < columns && (cy < sy || (cy == sy && cx < sx)) {
                        spec_cell(map, renderables@, pview.visible_tiles@, left + cx, top + cy)
                    } else {
                        old(camera).map@[cy * width + cx]@
                    }),
            decreases columns - sx,
        {
            let tile = cell(map, renderables, &pview.visible_tiles, left + sx, top + sy);
            proof {
                lemma_cell_index(width as int, height as int, sx as int, sy as int);
            }
            let index: usize = (sy * width + sx) as usize;
            camera.map.set(index, tile);
            proof {
                assert forall|cx: int, cy: int| 0 <= cx < width && 0 <= cy < height implies (
                #[trigger] camera.map@[cy * width + cx])@ == (if cx < columns && (cy < sy || (cy
                    == sy && cx < sx + 1)) {
                    spec_cell(map, renderables@, pview.visible_tiles@, left + cx, top + cy)
                } else {
                    old(camera).map@[cy * width + cx]@
                }) by {
                    lemma_cell_index(width as int, height as int, cx, cy);
                    lemma_cell_distinct(width as int, cx, cy, sx as int, sy as int);
                }
            }
            sx += 1;
        }
        sy += 1;
    }
}

/// The index of a cell of the screen lies within the storage.
proof fn lemma_cell_index(width: int, height: int, x: int, y: int)
    requires
        0 <= x < width,
        0 <= y < height,
    ensures
        0 <= y * width + x < width * height,
        y * width + x <= 0x7fff_ffff * 0x7fff_ffff || width > 0x7fff_ffff || height > 0x7fff_ffff,
{
    assert(0 <= y * width && y * width + width <= height * width) by (nonlinear_arith)
        requires
            0 <= y < height,
            width > 0,
    ;
    if width <= 0x7fff_ffff && height <= 0x7fff_ffff {
        assert(width * height <= 0x7fff_ffff * 0x7fff_ffff) by (nonlinear_arith)
            requires
                0 < width <= 0x7fff_ffff,
                0 < height <= 0x7fff_ffff,
        ;
    }
}

/// Different cells of the screen have different indices.
proof fn lemma_cell_distinct(width: int, x1: int, y1: int, x2: int, y2: int)
    requires
        0 <= x1 < width,
        0 <= x2 < width,
        0 <= y1,
        0 <= y2,
    ensures
        (y1 * width + x1 == y2 * width + x2) == (x1 == x2 && y1 == y2),
{
    if y1 < y2 {
        assert(y1 * width + width <= y2 * width) by (nonlinear_arith)
            requires
                y1 + 1 <= y2,
                width > 0,
        ;
    } else if y2 < y1 {
        assert(y2 * width + width <= y1 * width) by (nonlinear_arith)
            requires
                y2 + 1 <= y1,
                width > 0,
        ;
    }
}

} // verus!
