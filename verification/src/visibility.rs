//! Visibility: what each viewer sees, and what the player has ever seen.

use vstd::prelude::*;
use crate::components::Viewshed;
use crate::map::Floor;
use crate::map::Model;
use crate::position::Point;
use crate::position::Position;

verus! {

/// An entity that sees: its viewshed, where it stands, whether it is the
/// player, and the tiles that the latest field-of-view sweep from its
/// position gave. The sweep is read only while the viewshed is dirty.
#[derive(Debug)]
pub struct Seer {
    pub viewshed: Viewshed,
    pub position: Position,
    pub is_player: bool,
    pub sighted: Vec<Point>,
}

/// Whether `p` is tile `i` of a grid of the given size.
pub open spec fn shows(width: int, height: int, p: Point, i: int) -> bool {
    0 <= p.x < width && 0 <= p.y < height && p.y * width + p.x == i
}

/// Those of the first `n` points that lie on a grid of the given size, in
/// order.
pub open spec fn clipped(sweep: Seq<Point>, n: int, width: int, height: int) -> Seq<Point>
    decreases n,
{
    if n <= 0 {
        Seq::empty()
    } else if 0 <= sweep[n - 1].x < width && 0 <= sweep[n - 1].y < height {
        clipped(sweep, n - 1, width, height).push(sweep[n - 1])
    } else {
        clipped(sweep, n - 1, width, height)
    }
}

/// Whether the sweep contains tile `i` of a grid of the given size.
pub open spec fn sweep_shows(sweep: Seq<Point>, width: int, height: int, i: int) -> bool {
    exists|j: int| 0 <= j < sweep.len() && shows(width, height, #[trigger] sweep[j], i)
}

impl Seer {
    /// Whether the viewer is due for a recompute on the floor `f` of a map
    /// with `floors` floors.
    pub open spec fn due_on(&self, f: int, floors: int) -> bool {
        self.viewshed.dirty && self.position.z == f && 0 <= f < floors
    }

    /// Whether a recompute of this viewer reveals tile `i` of floor `f`,
    /// which has the given size: only the player's does, where the sweep
    /// contains the tile.
    pub open spec fn reveals(&self, f: int, floors: int, width: int, height: int, i: int) -> bool {
        self.due_on(f, floors) && self.is_player && sweep_shows(self.sighted@, width, height, i)
    }

    /// The viewer after the visibility pass over a map whose floors are
    /// `levels`: a viewer that is dirty and stands on a floor of the map sees
    /// the tiles of its sweep that lie on that floor and is clean; any other
    /// viewer is as it was.
    pub open spec fn spec_refreshed(&self, after: &Seer, levels: Seq<Floor>) -> bool {
        &&& after.position == self.position
        &&& after.is_player == self.is_player
        &&& after.sighted == self.sighted
        &&& after.viewshed.range == self.viewshed.range
        &&& if self.due_on(self.position.z as int, levels.len() as int) {
            &&& !after.viewshed.dirty
            &&& after.viewshed.visible_tiles@ == clipped(
                self.sighted@,
                self.sighted@.len() as int,
                levels[self.position.z as int].width as int,
                levels[self.position.z as int].height as int,
            )
        } else {
            after.viewshed == self.viewshed
        }
    }
}

/// Recomputes one viewer on the floor that it stands on: the viewshed takes
/// the tiles of the sweep that lie on the floor and becomes clean; for the
/// player, each of those tiles is marked as revealed.
pub fn refresh_viewshed(floor: &mut Floor, seer: &mut Seer)
    requires
        old(floor).wf(),
    ensures
        final(floor).wf(),
        final(floor).width == old(floor).width,
        final(floor).height == old(floor).height,
        final(floor).tiles == old(floor).tiles,
        final(floor).blocked_tiles == old(floor).blocked_tiles,
        final(floor).opaque_tiles == old(floor).opaque_tiles,
        final(seer).position == old(seer).position,
        final(seer).is_player == old(seer).is_player,
        final(seer).sighted == old(seer).sighted,
        final(seer).viewshed.range == old(seer).viewshed.range,
        !final(seer).viewshed.dirty,
        final(seer).viewshed.visible_tiles@ == clipped(
            old(seer).sighted@,
            old(seer).sighted@.len() as int,
            old(floor).width as int,
            old(floor).height as int,
        ),
        forall|i: int|
            0 <= i < final(floor).revealed_tiles@.len() ==> #[trigger] final(
                floor).revealed_tiles@[i] == (old(floor).revealed_tiles@[i] || (old(seer).is_player
                && sweep_shows(
                old(seer).sighted@,
                old(floor).width as int,
                old(floor).height as int,
                i,
            ))),
{
    let mut visible: Vec<Point> = Vec::new();
    let mut n: usize = 0;
    while n < seer.sighted.len()
        invariant
            n <= seer.sighted.len(),
            *seer == *old(seer),
            floor.wf(),
            floor.width == old(floor).width,
            floor.height == old(floor).height,
            floor.tiles == old(floor).tiles,
            floor.blocked_tiles == old(floor).blocked_tiles,
            floor.opaque_tiles == old(floor).opaque_tiles,
            visible@ == clipped(seer.sighted@, n as int, floor.width as int, floor.height as int),
            forall|i: int|
                0 <= i < floor.revealed_tiles@.len() ==> #[trigger] floor.revealed_tiles@[i] == (
                old(floor).revealed_tiles@[i] || (seer.is_player && exists|j: int|
                    0 <= j < n && shows(
                        floor.width as int,
                        floor.height as int,
                        #[trigger] seer.sighted@[j],
                        i,
                    ))),
        decreases seer.sighted.len() - n,
    {
        let p = seer.sighted[n];
        if floor.in_bounds(p.x, p.y) {
            visible.push(p);
            if seer.is_player {
                let index = floor.to_index(p.x, p.y);
                floor.revealed_tiles.set(index, true);
            }
        }
        n += 1;
    }
    seer.viewshed.visible_tiles = visible;
    seer.viewshed.dirty = false;
}

/// What the visibility pass makes of the floor `before`, floor number `f` of
/// `floors`: only the memory of what was seen changes, and a tile is revealed
/// afterwards exactly if it was before or the recompute of some viewer
/// reveals it.
pub open spec fn floor_seen(
    before: &Floor,
    after: &Floor,
    f: int,
    floors: int,
    seers: Seq<Seer>,
    n: int,
) -> bool {
    &&& after.wf()
    &&& after.width == before.width
    &&& after.height == before.height
    &&& after.tiles == before.tiles
    &&& after.blocked_tiles == before.blocked_tiles
    &&& after.opaque_tiles == before.opaque_tiles
    &&& forall|i: int|
        0 <= i < after.revealed_tiles@.len() ==> #[trigger] after.revealed_tiles@[i] == (
        before.revealed_tiles@[i] || exists|k: int|
            0 <= k < n && (#[trigger] seers[k]).reveals(
                f,
                floors,
                before.width as int,
                before.height as int,
                i,
            ))
}

/// Recomputes every viewer whose viewshed is dirty, and marks what the player
/// sees as revealed. A viewer that stands on no floor of the map is passed
/// over and stays dirty.
pub fn visibility_system(model: &mut Model, seers: &mut Vec<Seer>)
    requires
        old(model).wf(),
    ensures
        final(model).wf(),
        final(model).portals == old(model).portals,
        final(model).levels@.len() == old(model).levels@.len(),
        final(seers)@.len() == old(seers)@.len(),
        forall|k: int|
            0 <= k < old(seers)@.len() ==> (#[trigger] old(seers)@[k]).spec_refreshed(
                &final(seers)@[k],
                old(model).levels@,
            ),
        forall|f: int|
            0 <= f < old(model).levels@.len() ==> floor_seen(
                &old(model).levels@[f],
                #[trigger] &final(model).levels@[f],
                f,
                old(model).levels@.len() as int,
                old(seers)@,
                old(seers)@.len() as int,
            ),
        forall|f: int, i: int|
            0 <= f < old(model).levels@.len() && 0 <= i < old(
                model).levels@[f].revealed_tiles@.len() && old(model).levels@[f].revealed_tiles@[i]
                ==> #[trigger] final(model).levels@[f].revealed_tiles@[i],
{
    let ghost floors = model.levels@.len() as int;
    let mut k: usize = 0;
    while k < seers.len()
        invariant
            k <= seers.len(),
            old(model).wf(),
            model.wf(),
            floors == old(model).levels@.len(),
            model.portals == old(model).portals,
            model.levels@.len() == old(model).levels@.len(),
            seers@.len() == old(seers)@.len(),
            forall|m: int|
                0 <= m < k ==> (#[trigger] old(seers)@[m]).spec_refreshed(
                    &seers@[m],
                    old(model).levels@,
                ),
            forall|m: int| k <= m < seers@.len() ==> #[trigger] seers@[m] == old(seers)@[m],
            forall|f: int|
                0 <= f < floors ==> floor_seen(
                    &old(model).levels@[f],
                    #[trigger] &model.levels@[f],
                    f,
                    floors,
                    old(seers)@,
                    k as int,
                ),
        decreases seers.len() - k,
    {
        let z = seers[k].position.z;
        if seers[k].viewshed.dirty && z >= 0 && (z as usize) < model.levels.len() {
            refresh_viewshed(&mut model.levels[z as usize], &mut seers[k]);
        }
        k += 1;
    }
}

} // verus!
