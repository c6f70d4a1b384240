use openzt::habitats::ZTHabitatMgr;
use openzt::mapview::{BFTile, IVec3};
use openzt::memory::ZtMemory;

#[test]
fn habitats_are_found_through_the_column_table() {
    let mut mem = ZtMemory::zeroed(0x1000, 0x200).unwrap();
    let mgr = ZTHabitatMgr { other_array_start: 0x1000 };
    // Column 2's entry at 0x1000 + 2 * 0xc points at cells starting at 0x1100.
    mem.save_u32(0x1018, 0x1100);
    // Cell y = 3 at 0x1100 + 3 * 0x28.
    mem.save_u32(0x1178, 0xabcd_0000);
    assert_eq!(mgr.get_habitat_ptr(&mem, 2, 3), 0xabcd_0000);
    assert_eq!(mgr.get_habitat(&mem, 2, 3), Some(0xabcd_0000));
    assert_eq!(mgr.get_habitat(&mem, 2, 2), None);
    let tile = BFTile::new(IVec3 { x: 2, y: 3, z: 0 }, 0);
    assert_eq!(mgr.get_habitat_by_tile(&mem, &tile), Some(0xabcd_0000));
}
