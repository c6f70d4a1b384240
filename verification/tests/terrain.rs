use openzt::memory::ZtMemory;
use openzt::terrain::{next_queued_tile, release_bfpos_node, ZTAdvTerrainMgr_raw, QUEUE_SENTINEL_PTR_OFFSET};

#[test]
fn update_state_state0_unlimited_budget_shows_cursor() {
    let (deadline, show_cursor, early_return) = ZTAdvTerrainMgr_raw::compute_update_state(0, 1000, 50);
    assert_eq!(deadline, u32::MAX);
    assert!(show_cursor);
    assert!(!early_return);
}

#[test]
fn update_state_state1_quarter_budget() {
    let (deadline, show_cursor, early_return) = ZTAdvTerrainMgr_raw::compute_update_state(1, 1000, 400);
    assert_eq!(deadline, 1100);
    assert!(!show_cursor);
    assert!(!early_return);
}

#[test]
fn update_state_state3_quarter_budget() {
    let (deadline, show_cursor, early_return) = ZTAdvTerrainMgr_raw::compute_update_state(3, 2000, 40);
    assert_eq!(deadline, 2010);
    assert!(!show_cursor);
    assert!(!early_return);
}

#[test]
fn update_state_state4_is_noop() {
    let (_, show_cursor, early_return) = ZTAdvTerrainMgr_raw::compute_update_state(4, 1000, 500);
    assert!(early_return);
    assert!(!show_cursor);
}

#[test]
fn update_state_state2_full_budget() {
    let (deadline, show_cursor, early_return) = ZTAdvTerrainMgr_raw::compute_update_state(2, 1000, 500);
    assert_eq!(deadline, 1500);
    assert!(!show_cursor);
    assert!(!early_return);
}

#[test]
fn update_state_negative_falls_to_full_budget() {
    let (deadline, show_cursor, early_return) = ZTAdvTerrainMgr_raw::compute_update_state(-1, 1000, 500);
    assert_eq!(deadline, 1500);
    assert!(!show_cursor);
    assert!(!early_return);
}

#[test]
fn update_state_five_and_above_falls_to_full_budget() {
    let (deadline, show_cursor, early_return) = ZTAdvTerrainMgr_raw::compute_update_state(5, 1000, 500);
    assert_eq!(deadline, 1500);
    assert!(!show_cursor);
    assert!(!early_return);
}

#[test]
fn update_state_deadline_wraps_at_the_top_of_the_tick_range() {
    let (deadline, _, early_return) = ZTAdvTerrainMgr_raw::compute_update_state(2, u32::MAX - 10, 20);
    assert_eq!(deadline, 9);
    assert!(!early_return);
}

/// Sentinel at 0x1000, node a at 0x1010, node b at 0x1020 (next at +0, prev at +4, x at +8, y at
/// +0xc), linked sentinel -> a -> b -> sentinel.
fn three_node_queue() -> ZtMemory {
    let mut mem = ZtMemory::zeroed(0x1000, 0x40).unwrap();
    mem.save_u32(0x1000, 0x1010);
    mem.save_u32(0x1014, 0x1000);
    mem.save_u32(0x1010, 0x1020);
    mem.save_u32(0x1018, 3);
    mem.save_u32(0x101c, 4);
    mem.save_u32(0x1024, 0x1010);
    mem.save_u32(0x1020, 0x1000);
    mem.save_u32(0x1028, 7);
    mem.save_u32(0x102c, 8);
    mem
}

#[test]
fn unlink_front_pops_first_node_and_relinks_sentinel() {
    let mut mem = three_node_queue();
    let popped = ZTAdvTerrainMgr_raw::unlink_front(&mut mem, 0x1000);
    assert_eq!(popped, 0x1010);
    assert_eq!(mem.get_u32(0x1000), 0x1020, "sentinel.next should now point at b");
    assert_eq!(mem.get_u32(0x1024), 0x1000, "b.prev should now point at sentinel");
}

#[test]
fn release_pushes_node_onto_freelist() {
    let mut mem = three_node_queue();
    mem.save_u32(0x1030, 0x1234);
    release_bfpos_node(&mut mem, 0x1010, 0x1030);
    assert_eq!(mem.get_u32(0x1030), 0x1010);
    assert_eq!(mem.get_u32(0x1010), 0x1234);
}

#[test]
fn next_queued_tile_reads_front_until_deadline_or_empty() {
    let mem = three_node_queue();
    let tile = next_queued_tile(&mem, 0x1000, 5, 10).unwrap();
    assert_eq!(tile.node, 0x1010);
    assert_eq!((tile.x, tile.y), (3, 4));
    assert!(next_queued_tile(&mem, 0x1000, 10, 10).is_none());
    let empty = ZtMemory::zeroed(0x1000, 0x10).unwrap();
    let mut empty = empty;
    empty.save_u32(0x1000, 0x1000);
    assert!(next_queued_tile(&empty, 0x1000, 0, 10).is_none());
}

#[test]
fn manager_reads_its_state_and_pops_through_its_sentinel() {
    // queue nodes at 0x1000..0x1040, manager at 0x1100, free list head at 0x1034
    let mut mem = ZtMemory::zeroed(0x1000, 0x400).unwrap();
    let q = three_node_queue();
    for a in (0x1000..0x1030).step_by(4) {
        mem.save_u32(a, q.get_u32(a));
    }
    mem.save_u32(0x1100 + 0xc, 3);
    mem.save_u32(0x1100 + QUEUE_SENTINEL_PTR_OFFSET, 0x1000);
    mem.save_u32(0x1034, 0x5555);
    let mut mgr = ZTAdvTerrainMgr_raw::from_memory(&mem, 0x1100);
    assert_eq!(mgr.base_addr(), 0x1100);
    assert_eq!(mgr.state(), 3);
    mgr.set_state(2);
    assert_eq!(mgr.state(), 2);
    assert_eq!(mgr.queue_sentinel_ptr(&mem), 0x1000);
    let front = mgr.pop_front_and_release(&mut mem, 0x1034);
    assert_eq!(front, 0x1010);
    assert_eq!(mem.get_u32(0x1000), 0x1020);
    assert_eq!(mem.get_u32(0x1034), 0x1010);
    assert_eq!(mem.get_u32(0x1010), 0x5555);
}
