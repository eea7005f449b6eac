//! Grid coordinates, offsets between them, and the compass rose.

use vstd::prelude::*;
use vstd::string::*;

verus! {

/// A tile coordinate: `x` and `y` on a floor's grid, `z` selecting the floor.
#[derive(Clone, Copy, Debug, PartialEq, Eq, Structural, Hash)]
pub struct Position {
    pub x: i32,
    pub y: i32,
    pub z: i32,
}

/// A tile coordinate on one floor.
#[derive(Clone, Copy, Debug, PartialEq, Eq, Structural, Hash)]
pub struct Point {
    pub x: i32,
    pub y: i32,
}

impl Point {
    /// Creates a point from its two coordinates.
    pub fn new(x: i32, y: i32) -> (p: Point)
        ensures
            p == (Point { x, y }),
    {
        Point { x, y }
    }
}

/// The point on its floor that a position names.
pub fn posn_to_point(input: &Position) -> (p: Point)
    ensures
        p == (Point { x: input.x, y: input.y }),
{
    Point { x: input.x, y: input.y }
}

/// The difference between two positions, axis by axis.
#[derive(Clone, Copy, Debug, PartialEq, Eq, Structural)]
pub struct PosnOffset {
    pub x_diff: i32,
    pub y_diff: i32,
    pub z_diff: i32,
}

/// The compass rose, the two vertical directions, and `X` for "no direction".
#[derive(Clone, Copy, Debug, PartialEq, Eq, Structural, Hash)]
pub enum Direction {
    X,
    N,
    NW,
    W,
    SW,
    S,
    SE,
    E,
    NE,
    UP,
    DOWN,
}

/// Whether the Euclidean distance of the offset `(dx, dy)`, rounded to the
/// nearest integer, is at most `range`, for a positive `range`.
///
/// The rounded distance is at most `range` exactly when the distance is below
/// `range + 1/2`, that is when `dx² + dy² < range² + range + 1/4`; with
/// integers on both sides the quarter can be dropped.
pub open spec fn rounded_distance_within(dx: int, dy: int, range: int) -> bool {
    dx * dx + dy * dy <= range * range + range
}

/// Whether `d` is the Euclidean distance of the offset `(dx, dy)` rounded to
/// the nearest integer: the distance lies between `d - 1/2` and `d + 1/2`.
/// In integers: four times the squared distance is below `(2d + 1)²` and,
/// unless `d` is 0, at least `(2d - 1)²`. The distance of an integer offset
/// is never halfway between two integers.
pub open spec fn is_rounded_distance(dx: int, dy: int, d: int) -> bool {
    &&& d >= 0
    &&& 4 * (dx * dx + dy * dy) < (2 * d + 1) * (2 * d + 1)
    &&& d == 0 || (2 * d - 1) * (2 * d - 1) <= 4 * (dx * dx + dy * dy)
}

/// An offset is within a range exactly when its rounded distance is at most
/// the range.
pub proof fn lemma_rounded_distance(dx: int, dy: int, d: int, range: int)
    requires
        is_rounded_distance(dx, dy, d),
        range >= 0,
    ensures
        rounded_distance_within(dx, dy, range) == (d <= range),
{
    if d <= range {
        assert((2 * d + 1) * (2 * d + 1) <= (2 * range + 1) * (2 * range + 1)) by (nonlinear_arith)
            requires
                0 <= d <= range,
        ;
        assert((2 * range + 1) * (2 * range + 1) == 4 * (range * range + range) + 1)
            by (nonlinear_arith);
    } else {
        assert((2 * range + 1) * (2 * range + 1) <= (2 * d - 1) * (2 * d - 1)) by (nonlinear_arith)
            requires
                0 <= range,
                range + 1 <= d,
        ;
        assert((2 * range + 1) * (2 * range + 1) == 4 * (range * range + range) + 1)
            by (nonlinear_arith);
    }
}

impl PosnOffset {
    /// Creates an offset from its three components.
    pub fn new(echs: i32, whye: i32, zhee: i32) -> (o: PosnOffset)
        ensures
            o == (PosnOffset { x_diff: echs, y_diff: whye, z_diff: zhee }),
    {
        PosnOffset { x_diff: echs, y_diff: whye, z_diff: zhee }
    }
}

impl Position {
    /// Creates a position from its three coordinates.
    pub fn new(new_x: i32, new_y: i32, new_z: i32) -> (p: Position)
        ensures
            p == (Position { x: new_x, y: new_y, z: new_z }),
    {
        Position { x: new_x, y: new_y, z: new_z }
    }

    /// The coordinate that stands for "nowhere on any map".
    pub fn invalid() -> (p: Position)
        ensures
            p == (Position { x: -1i32, y: -1i32, z: -1i32 }),
    {
        Position { x: -1, y: -1, z: -1 }
    }

    /// The position as a coordinate triple.
    pub fn to_tuple(&self) -> (t: (i32, i32, i32))
        ensures
            t == (self.x, self.y, self.z),
    {
        (self.x, self.y, self.z)
    }

    /// Whether the position has exactly the coordinates of the triple.
    pub fn eq_tuple(&self, rhs: &(i32, i32, i32)) -> (same: bool)
        ensures
            same == (self.x == rhs.0 && self.y == rhs.1 && self.z == rhs.2),
    {
        self.x == rhs.0 && self.y == rhs.1 && self.z == rhs.2
    }

    /// When `target` counts as within `range` of `self`: never across floors;
    /// at range 0 only the position itself; at a positive range every
    /// position whose rounded Euclidean distance on the grid is at most the
    /// range; at a negative range nothing.
    pub open spec fn spec_in_range_of(self, target: Position, range: int) -> bool {
        &&& self.z == target.z
        &&& if range == 0 {
            self == target
        } else {
            range > 0 && rounded_distance_within(target.x - self.x, target.y - self.y, range)
        }
    }

    /// Range test between two positions, inclusive of the range itself.
    pub fn in_range_of(&self, target: &Position, range: i32) -> (within: bool)
        ensures
            within == self.spec_in_range_of(*target, range as int),
    {
        if self.z != target.z {
            return false;
        }
        if range == 0 {
            return self.x == target.x && self.y == target.y;
        }
        if range < 0 {
            return false;
        }
        let dx: i128 = target.x as i128 - self.x as i128;
        let dy: i128 = target.y as i128 - self.y as i128;
        let r: i128 = range as i128;
        assert(dx * dx <= 0x1_0000_0000 * 0x1_0000_0000 && dx * dx >= 0) by (nonlinear_arith)
            requires
                -0x1_0000_0000 <= dx <= 0x1_0000_0000,
        ;
        assert(dy * dy <= 0x1_0000_0000 * 0x1_0000_0000 && dy * dy >= 0) by (nonlinear_arith)
            requires
                -0x1_0000_0000 <= dy <= 0x1_0000_0000,
        ;
        assert(r * r <= 0x1_0000_0000 * 0x1_0000_0000 && r * r >= 0) by (nonlinear_arith)
            requires
                0 <= r <= 0x1_0000_0000,
        ;
        dx * dx + dy * dy <= r * r + r
    }

    /// Whether two positions are next to each other: in range 1.
    pub fn is_adjacent_to(&self, target: &Position) -> (adjacent: bool)
        ensures
            adjacent == self.spec_in_range_of(*target, 1),
    {
        self.in_range_of(target, 1)
    }

    /// The position moved by an offset, as a mathematical triple.
    pub open spec fn spec_plus(self, offset: PosnOffset) -> (int, int, int) {
        (self.x + offset.x_diff, self.y + offset.y_diff, self.z + offset.z_diff)
    }

    /// Whether a mathematical triple fits the coordinate type.
    pub open spec fn fits(t: (int, int, int)) -> bool {
        &&& i32::MIN <= t.0 <= i32::MAX
        &&& i32::MIN <= t.1 <= i32::MAX
        &&& i32::MIN <= t.2 <= i32::MAX
    }

    /// The position moved by an offset; `None` where a coordinate would leave
    /// the range of the coordinate type.
    pub fn checked_plus(&self, offset: PosnOffset) -> (moved: Option<Position>)
        ensures
            moved.is_some() == Position::fits(self.spec_plus(offset)),
            moved matches Some(p) ==> (p.x as int, p.y as int, p.z as int) == self.spec_plus(
                offset,
            ),
    {
        let x = self.x.checked_add(offset.x_diff);
        let y = self.y.checked_add(offset.y_diff);
        let z = self.z.checked_add(offset.z_diff);
        match (x, y, z) {
            (Some(x), Some(y), Some(z)) => Some(Position { x, y, z }),
            _ => None,
        }
    }

    /// The position moved by an offset.
    pub fn plus(self, offset: PosnOffset) -> (moved: Position)
        requires
            Position::fits(self.spec_plus(offset)),
        ensures
            (moved.x as int, moved.y as int, moved.z as int) == self.spec_plus(offset),
    {
        Position {
            x: self.x + offset.x_diff,
            y: self.y + offset.y_diff,
            z: self.z + offset.z_diff,
        }
    }

    /// The offset that leads from `rhs` to `self`, as a mathematical triple.
    pub open spec fn spec_minus(self, rhs: Position) -> (int, int, int) {
        (self.x - rhs.x, self.y - rhs.y, self.z - rhs.z)
    }

    /// The offset that leads from `rhs` to `self`.
    pub fn minus(self, rhs: Position) -> (offset: PosnOffset)
        requires
            Position::fits(self.spec_minus(rhs)),
        ensures
            (offset.x_diff as int, offset.y_diff as int, offset.z_diff as int) == self.spec_minus(
                rhs,
            ),
    {
        PosnOffset { x_diff: self.x - rhs.x, y_diff: self.y - rhs.y, z_diff: self.z - rhs.z }
    }

    /// Where a map position lands on a screen of the given size when the
    /// screen is centred on the map position `p_map`, as a mathematical triple.
    pub open spec fn spec_to_camera_coords(self, width: u16, height: u16, p_map: Position) -> (
        int,
        int,
        int,
    ) {
        (width / 2 - (p_map.x - self.x), height / 2 - (p_map.y - self.y), 0)
    }

    /// Converts map coordinates to screen coordinates for a screen of the
    /// given size centred on `p_map`. The result is not clipped to the screen.
    pub fn to_camera_coords(&self, width: u16, height: u16, p_map: Position) -> (p: Position)
        requires
            Position::fits(self.spec_to_camera_coords(width, height, p_map)),
        ensures
            (p.x as int, p.y as int, p.z as int) == self.spec_to_camera_coords(
                width,
                height,
                p_map,
            ),
    {
        let c_x: i64 = (width / 2) as i64;
        let c_y: i64 = (height / 2) as i64;
        let d_x: i64 = p_map.x as i64 - self.x as i64;
        let d_y: i64 = p_map.y as i64 - self.y as i64;
        Position { x: (c_x - d_x) as i32, y: (c_y - d_y) as i32, z: 0 }
    }

    /// The position as text: the three coordinates separated by ", ".
    pub open spec fn spec_text(self) -> Seq<char> {
        crate::text::spec_decimal(self.x as int) + ", "@ + crate::text::spec_decimal(self.y as int)
            + ", "@ + crate::text::spec_decimal(self.z as int)
    }

    /// Renders the position as text.
    pub fn to_text(&self) -> (s: String)
        ensures
            s@ == self.spec_text(),
    {
        let mut s = crate::text::decimal(self.x as i64);
        s.append(", ");
        let y = crate::text::decimal(self.y as i64);
        s.append(y.as_str());
        s.append(", ");
        let z = crate::text::decimal(self.z as i64);
        s.append(z.as_str());
        s
    }
}

impl Direction {
    /// The unit step of a direction, as `(dx, dy, dz)`: north is up the
    /// screen (`y - 1`), east is `x + 1`, and the vertical directions change
    /// only the floor.
    pub open spec fn spec_delta(self) -> (int, int, int) {
        match self {
            Direction::X => (0, 0, 0),
            Direction::N => (0, -1, 0),
            Direction::NW => (-1, -1, 0),
            Direction::W => (-1, 0, 0),
            Direction::SW => (-1, 1, 0),
            Direction::S => (0, 1, 0),
            Direction::SE => (1, 1, 0),
            Direction::E => (1, 0, 0),
            Direction::NE => (1, -1, 0),
            Direction::UP => (0, 0, 1),
            Direction::DOWN => (0, 0, -1),
        }
    }

    /// The direction whose unit step is the given triple, if there is one.
    pub open spec fn spec_from_delta(d: (int, int, int)) -> Option<Direction> {
        if d == (0int, 0int, 0int) {
            Some(Direction::X)
        } else if d == (0int, -1int, 0int) {
            Some(Direction::N)
        } else if d == (-1int, -1int, 0int) {
            Some(Direction::NW)
        } else if d == (-1int, 0int, 0int) {
            Some(Direction::W)
        } else if d == (-1int, 1int, 0int) {
            Some(Direction::SW)
        } else if d == (0int, 1int, 0int) {
            Some(Direction::S)
        } else if d == (1int, 1int, 0int) {
            Some(Direction::SE)
        } else if d == (1int, 0int, 0int) {
            Some(Direction::E)
        } else if d == (1int, -1int, 0int) {
            Some(Direction::NE)
        } else if d == (0int, 0int, 1int) {
            Some(Direction::UP)
        } else if d == (0int, 0int, -1int) {
            Some(Direction::DOWN)
        } else {
            None
        }
    }

    /// The unit step of the direction.
    pub fn delta(self) -> (o: PosnOffset)
        ensures
            (o.x_diff as int, o.y_diff as int, o.z_diff as int) == self.spec_delta(),
    {
        match self {
            Direction::X => PosnOffset { x_diff: 0, y_diff: 0, z_diff: 0 },
            Direction::N => PosnOffset { x_diff: 0, y_diff: -1, z_diff: 0 },
            Direction::NW => PosnOffset { x_diff: -1, y_diff: -1, z_diff: 0 },
            Direction::W => PosnOffset { x_diff: -1, y_diff: 0, z_diff: 0 },
            Direction::SW => PosnOffset { x_diff: -1, y_diff: 1, z_diff: 0 },
            Direction::S => PosnOffset { x_diff: 0, y_diff: 1, z_diff: 0 },
            Direction::SE => PosnOffset { x_diff: 1, y_diff: 1, z_diff: 0 },
            Direction::E => PosnOffset { x_diff: 1, y_diff: 0, z_diff: 0 },
            Direction::NE => PosnOffset { x_diff: 1, y_diff: -1, z_diff: 0 },
            Direction::UP => PosnOffset { x_diff: 0, y_diff: 0, z_diff: 1 },
            Direction::DOWN => PosnOffset { x_diff: 0, y_diff: 0, z_diff: -1 },
        }
    }

    /// The direction that an offset of one step points in; `None` for any
    /// other offset.
    pub fn from_offset(offset: PosnOffset) -> (d: Option<Direction>)
        ensures
            d == Direction::spec_from_delta(
                (offset.x_diff as int, offset.y_diff as int, offset.z_diff as int),
            ),
    {
        let PosnOffset { x_diff, y_diff, z_diff } = offset;
        if z_diff == 0 {
            if x_diff == 0 && y_diff == 0 {
                Some(Direction::X)
            } else if x_diff == 0 && y_diff == -1 {
                Some(Direction::N)
            } else if x_diff == -1 && y_diff == -1 {
                Some(Direction::NW)
            } else if x_diff == -1 && y_diff == 0 {
                Some(Direction::W)
            } else if x_diff == -1 && y_diff == 1 {
                Some(Direction::SW)
            } else if x_diff == 0 && y_diff == 1 {
                Some(Direction::S)
            } else if x_diff == 1 && y_diff == 1 {
                Some(Direction::SE)
            } else if x_diff == 1 && y_diff == 0 {
                Some(Direction::E)
            } else if x_diff == 1 && y_diff == -1 {
                Some(Direction::NE)
            } else {
                None
            }
        } else if x_diff == 0 && y_diff == 0 && z_diff == 1 {
            Some(Direction::UP)
        } else if x_diff == 0 && y_diff == 0 && z_diff == -1 {
            Some(Direction::DOWN)
        } else {
            None
        }
    }

    /// Whether the direction changes the floor.
    pub open spec fn is_vertical(self) -> bool {
        self == Direction::UP || self == Direction::DOWN
    }

    /// The name of the direction as narration uses it.
    pub open spec fn spec_name(self) -> Seq<char> {
        match self {
            Direction::X => "null_dir"@,
            Direction::N => "North"@,
            Direction::NW => "Northwest"@,
            Direction::W => "West"@,
            Direction::SW => "Southwest"@,
            Direction::S => "South"@,
            Direction::SE => "Southeast"@,
            Direction::E => "East"@,
            Direction::NE => "Northeast"@,
            Direction::UP => "Up"@,
            Direction::DOWN => "Down"@,
        }
    }

    /// The name of the direction as narration uses it.
    pub fn name(&self) -> (s: &'static str)
        ensures
            s@ == self.spec_name(),
    {
        match self {
            Direction::X => "null_dir",
            Direction::N => "North",
            Direction::NW => "Northwest",
            Direction::W => "West",
            Direction::SW => "Southwest",
            Direction::S => "South",
            Direction::SE => "Southeast",
            Direction::E => "East",
            Direction::NE => "Northeast",
            Direction::UP => "Up",
            Direction::DOWN => "Down",
        }
    }

    /// The identifier of the variant itself.
    pub open spec fn spec_as_ref(self) -> Seq<char> {
        match self {
            Direction::X => "X"@,
            Direction::N => "N"@,
            Direction::NW => "NW"@,
            Direction::W => "W"@,
            Direction::SW => "SW"@,
            Direction::S => "S"@,
            Direction::SE => "SE"@,
            Direction::E => "E"@,
            Direction::NE => "NE"@,
            Direction::UP => "UP"@,
            Direction::DOWN => "DOWN"@,
        }
    }

    /// The identifier of the variant itself.
    pub fn as_ref(&self) -> (s: &'static str)
        ensures
            s@ == self.spec_as_ref(),
    {
        match self {
            Direction::X => "X",
            Direction::N => "N",
            Direction::NW => "NW",
            Direction::W => "W",
            Direction::SW => "SW",
            Direction::S => "S",
            Direction::SE => "SE",
            Direction::E => "E",
            Direction::NE => "NE",
            Direction::UP => "UP",
            Direction::DOWN => "DOWN",
        }
    }
}

impl From<(i32, i32, i32)> for Position {
    fn from(value: (i32, i32, i32)) -> (p: Position) {
        Position { x: value.0, y: value.1, z: value.2 }
    }
}

impl vstd::std_specs::convert::FromSpecImpl<(i32, i32, i32)> for Position {
    open spec fn obeys_from_spec() -> bool {
        true
    }

    open spec fn from_spec(value: (i32, i32, i32)) -> Position {
        Position { x: value.0, y: value.1, z: value.2 }
    }
}

impl core::ops::Add<PosnOffset> for Position {
    type Output = Position;

    fn add(self, rhs: PosnOffset) -> (moved: Position) {
        self.plus(rhs)
    }
}

impl vstd::std_specs::ops::AddSpecImpl<PosnOffset> for Position {
    open spec fn obeys_add_spec() -> bool {
        true
    }

    open spec fn add_req(self, rhs: PosnOffset) -> bool {
        Position::fits(self.spec_plus(rhs))
    }

    open spec fn add_spec(self, rhs: PosnOffset) -> Position {
        Position {
            x: (self.x + rhs.x_diff) as i32,
            y: (self.y + rhs.y_diff) as i32,
            z: (self.z + rhs.z_diff) as i32,
        }
    }
}

impl core::ops::Add<(i32, i32, i32)> for Position {
    type Output = Position;

    fn add(self, rhs: (i32, i32, i32)) -> (moved: Position) {
        self.plus(PosnOffset { x_diff: rhs.0, y_diff: rhs.1, z_diff: rhs.2 })
    }
}

impl vstd::std_specs::ops::AddSpecImpl<(i32, i32, i32)> for Position {
    open spec fn obeys_add_spec() -> bool {
        true
    }

    open spec fn add_req(self, rhs: (i32, i32, i32)) -> bool {
        Position::fits((self.x + rhs.0, self.y + rhs.1, self.z + rhs.2))
    }

    open spec fn add_spec(self, rhs: (i32, i32, i32)) -> Position {
        Position { x: (self.x + rhs.0) as i32, y: (self.y + rhs.1) as i32, z: (self.z + rhs.2) as i32 }
    }
}

impl core::ops::Sub<Position> for Position {
    type Output = PosnOffset;

    fn sub(self, rhs: Position) -> (offset: PosnOffset) {
        self.minus(rhs)
    }
}

impl vstd::std_specs::ops::SubSpecImpl<Position> for Position {
    open spec fn obeys_sub_spec() -> bool {
        true
    }

    open spec fn sub_req(self, rhs: Position) -> bool {
        Position::fits(self.spec_minus(rhs))
    }

    open spec fn sub_spec(self, rhs: Position) -> PosnOffset {
        PosnOffset {
            x_diff: (self.x - rhs.x) as i32,
            y_diff: (self.y - rhs.y) as i32,
            z_diff: (self.z - rhs.z) as i32,
        }
    }
}

/// Taking one step from any position in any direction and reading the
/// direction back from the difference of the two positions gives the
/// direction that was taken.
pub proof fn lemma_direction_round_trip(d: Direction, p: Position)
    ensures
        ({
            let step = d.spec_delta();
            let target = (p.x + step.0, p.y + step.1, p.z + step.2);
            Direction::spec_from_delta((target.0 - p.x, target.1 - p.y, target.2 - p.z))
        }) == Some(d),
{
}

impl Default for Position {
    /// The origin of the lowest floor.
    fn default() -> (p: Position)
        ensures
            p == (Position { x: 0, y: 0, z: 0 }),
    {
        Position { x: 0, y: 0, z: 0 }
    }
}

impl Default for PosnOffset {
    /// No offset at all.
    fn default() -> (o: PosnOffset)
        ensures
            o == (PosnOffset { x_diff: 0, y_diff: 0, z_diff: 0 }),
    {
        PosnOffset { x_diff: 0, y_diff: 0, z_diff: 0 }
    }
}

impl Default for Direction {
    /// No direction.
    fn default() -> (d: Direction)
        ensures
            d == Direction::X,
    {
        Direction::X
    }
}

} // verus!
