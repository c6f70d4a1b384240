//! Finding the exhibit that covers a map tile: the habitat manager keeps a two-level table, one
//! row per map column, each row holding a habitat pointer per map row.
use vstd::prelude::*;
use crate::mapview::BFTile;
use crate::memory::ZtMemory;

verus! {

/// Bytes per column entry of the habitat table.
pub const COLUMN_STRIDE: u32 = 0xc;

/// Bytes per cell of a column.
pub const CELL_STRIDE: u32 = 0x28;

/// The part of the habitat manager the tile lookup reads.
#[derive(Clone, Copy, Debug, PartialEq, Eq, Structural)]
pub struct ZTHabitatMgr {
    /// Start of the per-column table.
    pub other_array_start: u32,
}

/// The address of column `x`'s entry.
pub open spec fn column_entry(mgr: ZTHabitatMgr, x: i32) -> int {
    mgr.other_array_start + (x as u32) * COLUMN_STRIDE
}

/// The address of the cell for `(x, y)`, given the column's cells start at `cells`.
pub open spec fn cell_address(cells: u32, y: i32) -> int {
    cells + (y as u32) * CELL_STRIDE
}

/// Whether the lookup of `(x, y)` stays within 32-bit address arithmetic and reads mapped memory.
pub open spec fn lookup_readable(mem: &ZtMemory, mgr: ZTHabitatMgr, x: i32, y: i32) -> bool {
    &&& (x as u32) * COLUMN_STRIDE <= u32::MAX
    &&& column_entry(mgr, x) <= u32::MAX
    &&& mem.range_mapped(column_entry(mgr, x), 4)
    &&& (y as u32) * CELL_STRIDE <= u32::MAX
    &&& cell_address(mem.u32_at(column_entry(mgr, x)), y) <= u32::MAX
    &&& mem.range_mapped(cell_address(mem.u32_at(column_entry(mgr, x)), y), 4)
}

/// The habitat pointer stored for `(x, y)`, 0 when no exhibit covers the tile.
pub open spec fn spec_habitat_ptr(mem: &ZtMemory, mgr: ZTHabitatMgr, x: i32, y: i32) -> u32 {
    mem.u32_at(cell_address(mem.u32_at(column_entry(mgr, x)), y))
}

impl ZTHabitatMgr {
    /// The address of the habitat covering map position `(pos_x, pos_y)`, 0 for none.
    pub fn get_habitat_ptr(&self, mem: &ZtMemory, pos_x: i32, pos_y: i32) -> (r: u32)
        requires
            lookup_readable(mem, *self, pos_x, pos_y),
        ensures
            r == spec_habitat_ptr(mem, *self, pos_x, pos_y),
    {
        let offset_1 = pos_x as u32 * COLUMN_STRIDE;
        let intermediate_ptr = mem.get_u32(self.other_array_start + offset_1);
        let offset_2 = pos_y as u32 * CELL_STRIDE;
        mem.get_u32(intermediate_ptr + offset_2)
    }

    /// The address of the habitat covering map position `(pos_x, pos_y)`, if any.
    pub fn get_habitat(&self, mem: &ZtMemory, pos_x: i32, pos_y: i32) -> (r: Option<u32>)
        requires
            lookup_readable(mem, *self, pos_x, pos_y),
        ensures
            r == if spec_habitat_ptr(mem, *self, pos_x, pos_y) != 0 {
                Some(spec_habitat_ptr(mem, *self, pos_x, pos_y))
            } else {
                None
            },
    {
        let ptr = self.get_habitat_ptr(mem, pos_x, pos_y);
        if ptr != 0 {
            Some(ptr)
        } else {
            None
        }
    }

    /// The address of the habitat covering `tile`, if any.
    pub fn get_habitat_by_tile(&self, mem: &ZtMemory, tile: &BFTile) -> (r: Option<u32>)
        requires
            lookup_readable(mem, *self, tile.pos.x, tile.pos.y),
        ensures
            r == if spec_habitat_ptr(mem, *self, tile.pos.x, tile.pos.y) != 0 {
                Some(spec_habitat_ptr(mem, *self, tile.pos.x, tile.pos.y))
            } else {
                None
            },
    {
        self.get_habitat(mem, tile.pos.x, tile.pos.y)
    }
}

} // verus!
