//! Map tiles: the height of a point inside a sloped tile, the crowd density guests see on a
//! tile's megatile, and the rules for placing an entity inside a tank exhibit.
use vstd::prelude::*;

verus! {

/// A position in tile-local or map coordinates.
#[derive(Clone, Copy, Debug, PartialEq, Eq, Structural)]
pub struct IVec3 {
    pub x: i32,
    pub y: i32,
    pub z: i32,
}

/// The fields of a map tile that the library reads.
#[derive(Clone, Copy, Debug)]
pub struct BFTile {
    /// The entity standing on the tile, 0 if none.
    pub entity_ptr: u32,
    pub north_fence: u32,
    pub east_fence: u32,
    pub south_fence: u32,
    pub west_fence: u32,
    /// The tile's map position.
    pub pos: IVec3,
    /// The tile's slope shape: which corners are raised.
    pub unknown_byte_2: u8,
}

impl PartialEq for BFTile {
    fn eq(&self, other: &Self) -> (r: bool) {
        self.pos.x == other.pos.x && self.pos.y == other.pos.y
    }
}

impl vstd::std_specs::cmp::PartialEqSpecImpl for BFTile {
    open spec fn obeys_eq_spec() -> bool {
        true
    }

    open spec fn eq_spec(&self, other: &Self) -> bool {
        self.pos.x == other.pos.x && self.pos.y == other.pos.y
    }
}

/// `16 * val / 64` with truncating division: `val / 4` rounded toward zero.
pub open spec fn spec_scale(val: int) -> int {
    if val >= 0 {
        val / 4
    } else {
        -((-val) / 4)
    }
}

/// `-16 * val / 64` with truncating division, written by the game as
/// `((((-16 * val) >> 31) & 0x3F) - 16 * val) >> 6`: `-val / 4` rounded toward zero.
pub open spec fn spec_negative_scale(val: int) -> int {
    if -16 * val >= 0 {
        (-16 * val) / 64
    } else {
        -((16 * val) / 64)
    }
}

/// `scale_and_divide(val)` stays within 32-bit arithmetic.
pub open spec fn scale_ok(val: int) -> bool {
    -134217728 <= val <= 134217727
}

/// `negative_scale_and_divide(val)` stays within 32-bit arithmetic.
pub open spec fn negative_scale_ok(val: int) -> bool {
    -134217727 <= val <= 134217728
}

/// Negating `val` and scaling it stays within 32-bit arithmetic.
pub open spec fn negated_scale_ok(val: int) -> bool {
    -134217727 <= val <= 134217728
}

/// The height, in quarter units, of local point `(x, y)` (0 to 64 across a tile) on a tile of
/// slope shape `shape`.
pub open spec fn spec_local_elevation(shape: u8, x: int, y: int) -> int {
    if shape == 0x1 {
        if 64 - x > y { spec_scale(-x) - spec_scale(y) } else { -16 }
    } else if shape == 0x4 {
        if x >= y { 0 } else { spec_scale(y) - spec_scale(x) }
    } else if shape == 0x5 {
        spec_negative_scale(x)
    } else if shape == 0x10 {
        if 64 - x >= y { 0 } else { spec_scale(y) + spec_scale(x) - 16 }
    } else if shape == 0x11 {
        if 64 - x <= y { spec_scale(y) + spec_scale(x) - 32 } else { spec_scale(-x) - spec_scale(y) }
    } else if shape == 0x14 {
        spec_scale(y)
    } else if shape == 0x15 {
        if x <= y { 0 } else { spec_scale(y) - spec_scale(x) }
    } else if shape == 0x19 {
        spec_scale(y) - spec_scale(x)
    } else if shape == 0x40 {
        if x <= y { 0 } else { spec_scale(x) - spec_scale(y) }
    } else if shape == 0x41 {
        spec_negative_scale(y)
    } else if shape == 0x44 {
        if x >= y { spec_scale(x) - spec_scale(y) } else { spec_scale(y) - spec_scale(x) }
    } else if shape == 0x45 {
        if 64 - x >= y { 0 } else { spec_negative_scale(x) - spec_scale(y) + 16 }
    } else if shape == 0x46 {
        spec_scale(-x) - spec_scale(y)
    } else if shape == 0x50 {
        spec_scale(x)
    } else if shape == 0x51 {
        if x >= y { 0 } else { spec_scale(x) - spec_scale(y) }
    } else if shape == 0x54 {
        if 64 - x > y { spec_scale(x) + spec_scale(y) } else { 16 }
    } else if shape == 0x64 {
        spec_scale(x) + spec_scale(y)
    } else if shape == 0x91 {
        spec_scale(x) - spec_scale(y)
    } else {
        0
    }
}

/// Whether computing the elevation of `(x, y)` on shape `shape` stays within 32-bit arithmetic
/// along the branch the shape and the point select.
pub open spec fn elevation_in_range(shape: u8, x: int, y: int) -> bool {
    let both = scale_ok(x) && scale_ok(y);
    let sub_ok = 64 - x <= i32::MAX;
    if shape == 0x1 {
        sub_ok && (64 - x > y ==> negated_scale_ok(x) && scale_ok(y))
    } else if shape == 0x4 || shape == 0x51 {
        x >= y || both
    } else if shape == 0x15 || shape == 0x40 {
        x <= y || both
    } else if shape == 0x5 {
        negative_scale_ok(x)
    } else if shape == 0x10 || shape == 0x54 {
        sub_ok && both
    } else if shape == 0x11 {
        sub_ok && (if 64 - x <= y { both } else { negated_scale_ok(x) && scale_ok(y) })
    } else if shape == 0x14 {
        scale_ok(y)
    } else if shape == 0x19 || shape == 0x44 || shape == 0x64 || shape == 0x91 {
        both
    } else if shape == 0x41 {
        negative_scale_ok(y)
    } else if shape == 0x45 {
        sub_ok && (64 - x >= y || (negative_scale_ok(x) && scale_ok(y)))
    } else if shape == 0x46 {
        negated_scale_ok(x) && scale_ok(y)
    } else if shape == 0x50 {
        scale_ok(x)
    } else {
        true
    }
}

fn scale_and_divide(val: i32) -> (r: i32)
    requires
        scale_ok(val as int),
    ensures
        r == spec_scale(val as int),
{
    16 * val / 64
}

fn negative_scale_and_divide(val: i32) -> (r: i32)
    requires
        negative_scale_ok(val as int),
    ensures
        r == spec_negative_scale(val as int),
{
    let neg_scaled = -16 * val;
    let bias = (neg_scaled >> 31i32) & 0x3f;
    assert(if neg_scaled < 0 { bias == 0x3f } else { bias == 0 }) by (bit_vector)
        requires
            bias == (neg_scaled >> 31i32) & 0x3f,
    ;
    let sum = bias + neg_scaled;
    let r = sum >> 6i32;
    assert(r == if val > 0 { -(val / 4) } else { (-val) / 4 }) by (bit_vector)
        requires
            neg_scaled == -16 * val,
            bias == (neg_scaled >> 31i32) & 0x3f,
            sum == bias + neg_scaled,
            r == sum >> 6i32,
            -134217727 <= val <= 134217728,
    ;
    r
}

impl BFTile {
    /// A tile at `pos` with slope shape `unknown_byte_2`, no entity and no fences.
    pub fn new(pos: IVec3, unknown_byte_2: u8) -> (t: BFTile)
        ensures
            t.pos == pos,
            t.unknown_byte_2 == unknown_byte_2,
            t.entity_ptr == 0,
            t.north_fence == 0 && t.east_fence == 0 && t.south_fence == 0 && t.west_fence == 0,
    {
        BFTile { entity_ptr: 0, north_fence: 0, east_fence: 0, south_fence: 0, west_fence: 0, pos, unknown_byte_2 }
    }

    /// The height of the tile's surface at local point `pos` (its `x` and `y`, 0 to 64 across
    /// the tile), from the tile's slope shape.
    pub fn get_local_elevation(&self, pos: IVec3) -> (r: i32)
        requires
            elevation_in_range(self.unknown_byte_2, pos.x as int, pos.y as int),
        ensures
            r == spec_local_elevation(self.unknown_byte_2, pos.x as int, pos.y as int),
    {
        let x = pos.x;
        let y = pos.y;
        match self.unknown_byte_2 {
            0x1 => {
                if 64 - x > y {
                    scale_and_divide(-x) - scale_and_divide(y)
                } else {
                    -16
                }
            },
            0x4 => {
                if x >= y {
                    0
                } else {
                    scale_and_divide(y) - scale_and_divide(x)
                }
            },
            0x5 => negative_scale_and_divide(x),
            0x10 => {
                if 64 - x >= y {
                    0
                } else {
                    scale_and_divide(y) + scale_and_divide(x) - 16
                }
            },
            0x11 => {
                if 64 - x <= y {
                    scale_and_divide(y) + scale_and_divide(x) - 32
                } else {
                    scale_and_divide(-x) - scale_and_divide(y)
                }
            },
            0x14 => scale_and_divide(y),
            0x15 => {
                if x <= y {
                    0
                } else {
                    scale_and_divide(y) - scale_and_divide(x)
                }
            },
            0x19 => scale_and_divide(y) - scale_and_divide(x),
            0x40 => {
                if x <= y {
                    0
                } else {
                    scale_and_divide(x) - scale_and_divide(y)
                }
            },
            0x41 => negative_scale_and_divide(y),
            0x44 => {
                if x >= y {
                    scale_and_divide(x) - scale_and_divide(y)
                } else {
                    scale_and_divide(y) - scale_and_divide(x)
                }
            },
            0x45 => {
                if 64 - x >= y {
                    0
                } else {
                    negative_scale_and_divide(x) - scale_and_divide(y) + 16
                }
            },
            0x46 => scale_and_divide(-x) - scale_and_divide(y),
            0x50 => scale_and_divide(x),
            0x51 => {
                if x >= y {
                    0
                } else {
                    scale_and_divide(x) - scale_and_divide(y)
                }
            },
            0x54 => {
                if 64 - x > y {
                    scale_and_divide(x) + scale_and_divide(y)
                } else {
                    16
                }
            },
            0x64 => scale_and_divide(x) + scale_and_divide(y),
            0x91 => scale_and_divide(x) - scale_and_divide(y),
            _ => 0,
        }
    }
}

/// Indices `(x / 5, y / 5)` of the megatile (5 by 5 tiles) holding `tile`; `None` for a tile
/// with a negative coordinate.
pub fn tile_megatile(tile: &BFTile) -> (r: Option<(usize, usize)>)
    ensures
        tile.pos.x < 0 || tile.pos.y < 0 ==> r is None,
        tile.pos.x >= 0 && tile.pos.y >= 0 ==> r == Some(((tile.pos.x / 5) as usize, (tile.pos.y / 5) as usize)),
{
    if tile.pos.x < 0 || tile.pos.y < 0 {
        return None;
    }
    Some(((tile.pos.x / 5) as usize, (tile.pos.y / 5) as usize))
}

/// The crowd density a guest feels on a tile: its megatile's guest count times 10 over 25, or 0
/// when the tile has no megatile.
pub fn crowd_density_megatile(megatile_guest_count: Option<i32>) -> (r: i32)
    requires
        megatile_guest_count matches Some(g) ==> i32::MIN <= g * 10 <= i32::MAX,
    ensures
        megatile_guest_count is None ==> r == 0,
        megatile_guest_count matches Some(g) ==> r == if g * 10 >= 0 { (g * 10) / 25 } else { -((-(g * 10)) / 25) },
{
    match megatile_guest_count {
        Some(g) => g * 10 / 25,
        None => 0,
    }
}

/// Why an entity may not be placed where the player tried to put it; each is a message in the
/// game's string table.
#[derive(Clone, Copy, Debug, PartialEq, Eq, Structural)]
pub enum ErrorStringId {
    UnknownError,
    ObjectTooCloseToLadderOrPlatform,
    ObjectCannotBePlacedInTank,
    ObjectMustBePlacedInADeeperTank,
    EggsMustBePlacedOnLand,
    AnimalMustBePlacedInATankWithWater,
    AnimalMustBePlacedOnLand,
    StaffCannotBePlacedInTank,
    ShowObjectMustBePlacedInShowTank,
    ObjectCannotBePlacedAgainstTankWall,
    ObjectCannotBePlacedInShowTank,
}

/// The string-table id of each message.
pub open spec fn spec_string_id(e: ErrorStringId) -> u32 {
    match e {
        ErrorStringId::UnknownError => 0x0000,
        ErrorStringId::ObjectTooCloseToLadderOrPlatform => 0x2942,
        ErrorStringId::ObjectCannotBePlacedInTank => 0x293f,
        ErrorStringId::ObjectMustBePlacedInADeeperTank => 0x2940,
        ErrorStringId::EggsMustBePlacedOnLand => 0x294a,
        ErrorStringId::AnimalMustBePlacedInATankWithWater => 0x293a,
        ErrorStringId::AnimalMustBePlacedOnLand => 0x2939,
        ErrorStringId::StaffCannotBePlacedInTank => 0x2943,
        ErrorStringId::ShowObjectMustBePlacedInShowTank => 0x293e,
        ErrorStringId::ObjectCannotBePlacedAgainstTankWall => 0x2967,
        ErrorStringId::ObjectCannotBePlacedInShowTank => 0x2941,
    }
}

impl ErrorStringId {
    /// The message's string-table id.
    pub fn string_id(&self) -> (r: u32)
        ensures
            r == spec_string_id(*self),
    {
        match self {
            ErrorStringId::UnknownError => 0x0000,
            ErrorStringId::ObjectTooCloseToLadderOrPlatform => 0x2942,
            ErrorStringId::ObjectCannotBePlacedInTank => 0x293f,
            ErrorStringId::ObjectMustBePlacedInADeeperTank => 0x2940,
            ErrorStringId::EggsMustBePlacedOnLand => 0x294a,
            ErrorStringId::AnimalMustBePlacedInATankWithWater => 0x293a,
            ErrorStringId::AnimalMustBePlacedOnLand => 0x2939,
            ErrorStringId::StaffCannotBePlacedInTank => 0x2943,
            ErrorStringId::ShowObjectMustBePlacedInShowTank => 0x293e,
            ErrorStringId::ObjectCannotBePlacedAgainstTankWall => 0x2967,
            ErrorStringId::ObjectCannotBePlacedInShowTank => 0x2941,
        }
    }

    /// The message with string-table id `value`; `UnknownError` for any other id.
    pub fn from_primitive(value: u32) -> (r: ErrorStringId)
        ensures
            r == spec_from_primitive(value),
    {
        if value == 0x2942 {
            ErrorStringId::ObjectTooCloseToLadderOrPlatform
        } else if value == 0x293f {
            ErrorStringId::ObjectCannotBePlacedInTank
        } else if value == 0x2940 {
            ErrorStringId::ObjectMustBePlacedInADeeperTank
        } else if value == 0x294a {
            ErrorStringId::EggsMustBePlacedOnLand
        } else if value == 0x293a {
            ErrorStringId::AnimalMustBePlacedInATankWithWater
        } else if value == 0x2939 {
            ErrorStringId::AnimalMustBePlacedOnLand
        } else if value == 0x2943 {
            ErrorStringId::StaffCannotBePlacedInTank
        } else if value == 0x293e {
            ErrorStringId::ShowObjectMustBePlacedInShowTank
        } else if value == 0x2967 {
            ErrorStringId::ObjectCannotBePlacedAgainstTankWall
        } else if value == 0x2941 {
            ErrorStringId::ObjectCannotBePlacedInShowTank
        } else {
            ErrorStringId::UnknownError
        }
    }
}

/// The message a string-table id names, `UnknownError` for ids that name none.
pub open spec fn spec_from_primitive(value: u32) -> ErrorStringId {
    if value == 0x2942 {
        ErrorStringId::ObjectTooCloseToLadderOrPlatform
    } else if value == 0x293f {
        ErrorStringId::ObjectCannotBePlacedInTank
    } else if value == 0x2940 {
        ErrorStringId::ObjectMustBePlacedInADeeperTank
    } else if value == 0x294a {
        ErrorStringId::EggsMustBePlacedOnLand
    } else if value == 0x293a {
        ErrorStringId::AnimalMustBePlacedInATankWithWater
    } else if value == 0x2939 {
        ErrorStringId::AnimalMustBePlacedOnLand
    } else if value == 0x2943 {
        ErrorStringId::StaffCannotBePlacedInTank
    } else if value == 0x293e {
        ErrorStringId::ShowObjectMustBePlacedInShowTank
    } else if value == 0x2967 {
        ErrorStringId::ObjectCannotBePlacedAgainstTankWall
    } else if value == 0x2941 {
        ErrorStringId::ObjectCannotBePlacedInShowTank
    } else {
        ErrorStringId::UnknownError
    }
}

/// The heights of a tile's four corners, in quarter units: at local points (0, 0), (64, 0),
/// (0, 64) and (64, 64).
pub open spec fn corner_heights(shape: u8) -> Seq<int> {
    seq![
        spec_local_elevation(shape, 0, 0),
        spec_local_elevation(shape, 64, 0),
        spec_local_elevation(shape, 0, 64),
        spec_local_elevation(shape, 64, 64),
    ]
}

/// Each slope shape raises or lowers its corners by one step of 16 (two steps at the far corner
/// of the double slopes 0x46 and 0x64): the near corner is always at 0, and a shape not among
/// the slopes is flat.
pub proof fn law_corner_heights(shape: u8)
    ensures
        ({
            let corners = corner_heights(shape);
            &&& (shape == 0x1 ==> corners == seq![0int, -16, -16, -16])
            &&& (shape == 0x4 ==> corners == seq![0int, 0, 16, 0])
            &&& (shape == 0x5 ==> corners == seq![0int, -16, 0, -16])
            &&& (shape == 0x10 ==> corners == seq![0int, 0, 0, 16])
            &&& (shape == 0x11 ==> corners == seq![0int, -16, -16, 0])
            &&& (shape == 0x14 ==> corners == seq![0int, 0, 16, 16])
            &&& (shape == 0x15 ==> corners == seq![0int, -16, 0, 0])
            &&& (shape == 0x19 ==> corners == seq![0int, -16, 16, 0])
            &&& (shape == 0x40 ==> corners == seq![0int, 16, 0, 0])
            &&& (shape == 0x41 ==> corners == seq![0int, 0, -16, -16])
            &&& (shape == 0x44 ==> corners == seq![0int, 16, 16, 0])
            &&& (shape == 0x45 ==> corners == seq![0int, 0, 0, -16])
            &&& (shape == 0x46 ==> corners == seq![0int, -16, -16, -32])
            &&& (shape == 0x50 ==> corners == seq![0int, 16, 0, 16])
            &&& (shape == 0x51 ==> corners == seq![0int, 0, -16, 0])
            &&& (shape == 0x54 ==> corners == seq![0int, 16, 16, 16])
            &&& (shape == 0x64 ==> corners == seq![0int, 16, 16, 32])
            &&& (shape == 0x91 ==> corners == seq![0int, 16, -16, 0])
            &&& (shape != 0x1 && shape != 0x4 && shape != 0x5 && shape != 0x10 && shape != 0x11 && shape != 0x14
                && shape != 0x15 && shape != 0x19 && shape != 0x40 && shape != 0x41 && shape != 0x44 && shape != 0x45
                && shape != 0x46 && shape != 0x50 && shape != 0x51 && shape != 0x54 && shape != 0x64 && shape != 0x91
                ==> corners == seq![0int, 0, 0, 0])
        }),
{
}

/// Inside a tile, the surface stays between its lowest and highest corner, give or take the one
/// unit that the game's rounding can add.
pub proof fn law_within_corners(shape: u8, x: int, y: int)
    requires
        0 <= x <= 64,
        0 <= y <= 64,
    ensures
        ({
            let c = corner_heights(shape);
            let lo = if c[0] <= c[1] && c[0] <= c[2] && c[0] <= c[3] {
                c[0]
            } else if c[1] <= c[2] && c[1] <= c[3] {
                c[1]
            } else if c[2] <= c[3] {
                c[2]
            } else {
                c[3]
            };
            let hi = if c[0] >= c[1] && c[0] >= c[2] && c[0] >= c[3] {
                c[0]
            } else if c[1] >= c[2] && c[1] >= c[3] {
                c[1]
            } else if c[2] >= c[3] {
                c[2]
            } else {
                c[3]
            };
            lo - 1 <= spec_local_elevation(shape, x, y) <= hi + 1
        }),
{
}

/// The planar slope shapes tilt the tile's surface as their shape says, across local points
/// 0..64: shape 0x64 rises with both coordinates, from 0 at the near corner to 32 at the far one,
/// the same along either axis; 0x14 rises with `y` alone and 0x50 with `x` alone, from 0 to 16;
/// 0x46 falls with both, from 0 to -32; 0x5 falls with `x` alone and 0x41 with `y` alone, from 0
/// to -16; 0x19 rises with `y` and falls with `x`, and 0x91 the other way round.
pub proof fn law_planar_slopes(x1: int, y1: int, x2: int, y2: int)
    requires
        0 <= x1 <= x2 <= 64,
        0 <= y1 <= y2 <= 64,
    ensures
        spec_local_elevation(0x64, x1, y1) <= spec_local_elevation(0x64, x2, y2),
        spec_local_elevation(0x64, x1, y1) == spec_local_elevation(0x64, y1, x1),
        spec_local_elevation(0x64, 0, 0) == 0,
        spec_local_elevation(0x64, 32, 32) == 16,
        spec_local_elevation(0x64, 64, 64) == 32,
        spec_local_elevation(0x14, x1, y1) <= spec_local_elevation(0x14, x2, y2),
        spec_local_elevation(0x14, x1, y1) == spec_local_elevation(0x14, x2, y1),
        spec_local_elevation(0x14, 0, 64) == 16,
        spec_local_elevation(0x50, x1, y1) <= spec_local_elevation(0x50, x2, y2),
        spec_local_elevation(0x50, x1, y1) == spec_local_elevation(0x50, x1, y2),
        spec_local_elevation(0x50, 64, 0) == 16,
        spec_local_elevation(0x46, x1, y1) >= spec_local_elevation(0x46, x2, y2),
        spec_local_elevation(0x46, 0, 0) == 0,
        spec_local_elevation(0x46, 64, 64) == -32,
        spec_local_elevation(0x5, x1, y1) >= spec_local_elevation(0x5, x2, y2),
        spec_local_elevation(0x5, x1, y1) == spec_local_elevation(0x5, x1, y2),
        spec_local_elevation(0x5, 64, 0) == -16,
        spec_local_elevation(0x41, x1, y1) >= spec_local_elevation(0x41, x2, y2),
        spec_local_elevation(0x41, x1, y1) == spec_local_elevation(0x41, x2, y1),
        spec_local_elevation(0x41, 0, 64) == -16,
        spec_local_elevation(0x19, x2, y1) <= spec_local_elevation(0x19, x1, y2),
        spec_local_elevation(0x19, 0, 64) == 16,
        spec_local_elevation(0x19, 64, 0) == -16,
        spec_local_elevation(0x91, x1, y2) <= spec_local_elevation(0x91, x2, y1),
        spec_local_elevation(0x91, 64, 0) == 16,
        spec_local_elevation(0x91, 0, 64) == -16,
{
}

/// Every message's string-table id names that message again, so distinct messages have
/// distinct ids.
pub proof fn law_string_id_round_trip(e: ErrorStringId)
    ensures
        spec_from_primitive(spec_string_id(e)) == e,
{
}

/// What the placement rules read about a tank exhibit, the entity being placed and the tile.
#[derive(Clone, Copy, Debug)]
pub struct TankPlacementQuery {
    /// An exhibit covers the tile.
    pub habitat_found: bool,
    /// That exhibit is a tank.
    pub is_tank: bool,
    /// That exhibit is a show tank.
    pub is_show_tank: bool,
    /// The tank's water depth.
    pub tank_height: i32,
    /// The entity is a keeper.
    pub is_keeper: bool,
    /// The tank has an entry gate tile and the entity stands on it.
    pub on_gate_tile_in: bool,
    /// The entity is scenery; its type's flags and depth.
    pub is_scenery: bool,
    pub scenery_underwater: bool,
    pub scenery_surface: bool,
    pub scenery_depth: i32,
    /// The entity is an animal; whether it is an egg, and its type's flags and depth.
    pub is_animal: bool,
    pub is_egg: bool,
    pub animal_underwater: bool,
    pub animal_depth: i32,
    /// The entity is a unit (animal or staff); its type's underwater flag; whether it is staff.
    pub is_unit: bool,
    pub unit_underwater: bool,
    pub is_staff: bool,
    /// The entity's type is a show object.
    pub is_show: bool,
    /// The entity must keep away from tank walls and the tile is next to one.
    pub avoids_edges: bool,
    /// Another entity stands on the tile, it is scenery, and its type floats on the surface.
    pub tile_entity_is_scenery: bool,
    pub tile_scenery_surface: bool,
}

/// The placement rules, checked in order; the first that fails names the message.
pub open spec fn spec_tank_placement(q: TankPlacementQuery) -> Result<(), ErrorStringId> {
    if !q.habitat_found || !q.is_tank {
        Ok(())
    } else if !q.is_keeper && q.on_gate_tile_in {
        Err(ErrorStringId::ObjectTooCloseToLadderOrPlatform)
    } else if q.is_scenery && !q.scenery_underwater && !q.scenery_surface {
        Err(ErrorStringId::ObjectCannotBePlacedInTank)
    } else if q.is_scenery && q.scenery_surface && q.tank_height < q.scenery_depth {
        Err(ErrorStringId::ObjectMustBePlacedInADeeperTank)
    } else if q.is_animal && q.is_egg && !q.animal_underwater {
        Err(ErrorStringId::EggsMustBePlacedOnLand)
    } else if q.is_animal && q.tank_height < q.animal_depth {
        Err(ErrorStringId::ObjectMustBePlacedInADeeperTank)
    } else if q.is_animal && q.animal_underwater && q.tank_height < 1 {
        Err(ErrorStringId::AnimalMustBePlacedInATankWithWater)
    } else if q.is_unit && !q.unit_underwater {
        if q.is_staff {
            Err(ErrorStringId::StaffCannotBePlacedInTank)
        } else {
            Err(ErrorStringId::AnimalMustBePlacedOnLand)
        }
    } else if q.is_show && !q.is_show_tank {
        Err(ErrorStringId::ShowObjectMustBePlacedInShowTank)
    } else if q.is_show_tank && !q.is_show {
        Err(ErrorStringId::ObjectCannotBePlacedInShowTank)
    } else if q.avoids_edges {
        Err(ErrorStringId::ObjectCannotBePlacedAgainstTankWall)
    } else if q.tile_entity_is_scenery && !q.tile_scenery_surface {
        Err(ErrorStringId::UnknownError)
    } else {
        Ok(())
    }
}

/// The map view: the game object that checks where the player may place things.
pub struct ZTMapView {
    /// The view's memory, which the library does not read.
    pub pad: [u8; 0x5ec],
}

impl ZTMapView {
    /// Whether an entity may be placed on a tile, and if not, which message explains why.
    pub fn check_tank_placement(q: &TankPlacementQuery) -> (r: Result<(), ErrorStringId>)
        ensures
            r == spec_tank_placement(*q),
    {
        placement_verdict(q)
    }
}

/// The placement rules applied to `q`. Tiles outside tanks accept anything.
fn placement_verdict(q: &TankPlacementQuery) -> (r: Result<(), ErrorStringId>)
    ensures
        r == spec_tank_placement(*q),
{
    if !q.habitat_found {
        return Ok(());
    }
    if !q.is_tank {
        return Ok(());
    }
    if !q.is_keeper {
        if q.on_gate_tile_in {
            return Err(ErrorStringId::ObjectTooCloseToLadderOrPlatform);
        }
    }
    if q.is_scenery {
        if !q.scenery_underwater && !q.scenery_surface {
            return Err(ErrorStringId::ObjectCannotBePlacedInTank);
        }
        if q.scenery_surface && q.tank_height < q.scenery_depth {
            return Err(ErrorStringId::ObjectMustBePlacedInADeeperTank);
        }
    }
    if q.is_animal {
        if q.is_egg && !q.animal_underwater {
            return Err(ErrorStringId::EggsMustBePlacedOnLand);
        }
        if q.tank_height < q.animal_depth {
            return Err(ErrorStringId::ObjectMustBePlacedInADeeperTank);
        }
        if q.animal_underwater && q.tank_height < 1 {
            return Err(ErrorStringId::AnimalMustBePlacedInATankWithWater);
        }
    }
    if q.is_unit {
        if !q.unit_underwater {
            if q.is_staff {
                return Err(ErrorStringId::StaffCannotBePlacedInTank);
            } else {
                return Err(ErrorStringId::AnimalMustBePlacedOnLand);
            }
        }
    }
    if q.is_show && !q.is_show_tank {
        return Err(ErrorStringId::ShowObjectMustBePlacedInShowTank);
    }
    if q.is_show_tank && !q.is_show {
        return Err(ErrorStringId::ObjectCannotBePlacedInShowTank);
    }
    if q.avoids_edges {
        return Err(ErrorStringId::ObjectCannotBePlacedAgainstTankWall);
    }
    if q.tile_entity_is_scenery {
        if !q.tile_scenery_surface {
            return Err(ErrorStringId::UnknownError);
        }
    }
    Ok(())
}

} // verus!
