//! The advanced terrain manager's decision logic: the time budget its `update` drains the
//! pending-tile queue under, and the pointer surgery on that queue's nodes.
//!
//! The queue is the game's circular doubly linked list of `{next, prev, x, y}` nodes with a
//! sentinel; popped nodes go back onto the game's own free list, never to a Rust allocator.
use vstd::prelude::*;
use crate::memory::{ZtMemory, seq_u32, write_u32_bytes};

verus! {

/// Offset of the queue's sentinel pointer inside the manager.
pub const QUEUE_SENTINEL_PTR_OFFSET: u32 = 0x1d8;

/// Size of the manager's leading fields that `from_memory` reads.
pub const MANAGER_HEADER_SIZE: u32 = 0x1c;

/// The leading fields of the game's `ZTAdvTerrainMgr`, and the address it lives at.
#[allow(non_camel_case_types)]
#[derive(Clone, Copy, Debug)]
pub struct ZTAdvTerrainMgr_raw {
    address: u32,
    vtable: u32,
    flag: u8,
    debug_toggle: u32,
    state: u32,
    bf_terrain_type_info_array_start: u32,
    bf_terrain_type_info_array_end: u32,
    bf_terrain_type_info_buffer_end: u32,
}

/// `a + b` wrapped to 32 bits.
pub open spec fn wrapping_sum(a: u32, b: u32) -> u32 {
    if a + b > u32::MAX {
        (a + b - 0x1_0000_0000) as u32
    } else {
        (a + b) as u32
    }
}

/// A region (from `base`) after the queue's front node is unlinked from sentinel `s`.
pub open spec fn unlink_front_bytes(bytes: Seq<u8>, base: int, s: int) -> Seq<u8> {
    let front = seq_u32(bytes, s - base);
    let next = seq_u32(bytes, front - base);
    write_u32_bytes(write_u32_bytes(bytes, s - base, next), next + 4 - base, s as u32)
}

/// A region (from `base`) after `node` is pushed onto the free list whose head pointer is at
/// `head`.
pub open spec fn release_node_bytes(bytes: Seq<u8>, base: int, node: int, head: int) -> Seq<u8> {
    let old_head = seq_u32(bytes, head - base);
    write_u32_bytes(write_u32_bytes(bytes, node - base, old_head), head - base, node as u32)
}

/// The node a queue drain step handles: its address and tile coordinates.
#[derive(Clone, Copy, Debug, PartialEq, Eq, Structural)]
pub struct QueuedTile {
    pub node: u32,
    pub x: i32,
    pub y: i32,
}

/// What one `update` call does before draining the queue.
pub open spec fn spec_update_state(state: i32, now: u32, delta_ticks: u32) -> (u32, bool, bool) {
    if state == 4 {
        (now, false, true)
    } else if state == 0 {
        (u32::MAX, true, false)
    } else if state == 1 || state == 3 {
        (wrapping_sum(now, delta_ticks / 4), false, false)
    } else {
        (wrapping_sum(now, delta_ticks), false, false)
    }
}

impl ZTAdvTerrainMgr_raw {
    pub closed spec fn spec_address(&self) -> u32 {
        self.address
    }

    pub closed spec fn spec_state(&self) -> u32 {
        self.state
    }

    /// The manager's leading fields as stored at `address`.
    pub fn from_memory(mem: &ZtMemory, address: u32) -> (m: ZTAdvTerrainMgr_raw)
        requires
            mem.range_mapped(address as int, MANAGER_HEADER_SIZE as int),
        ensures
            m.spec_address() == address,
            m.spec_state() == mem.u32_at(address + 0xc),
    {
        ZTAdvTerrainMgr_raw {
            address,
            vtable: mem.get_u32(address),
            flag: mem.get_u8(address + 4),
            debug_toggle: mem.get_u32(address + 8),
            state: mem.get_u32(address + 0xc),
            bf_terrain_type_info_array_start: mem.get_u32(address + 0x10),
            bf_terrain_type_info_array_end: mem.get_u32(address + 0x14),
            bf_terrain_type_info_buffer_end: mem.get_u32(address + 0x18),
        }
    }

    /// The address the manager lives at.
    pub fn base_addr(&self) -> (r: u32)
        ensures
            r == self.spec_address(),
    {
        self.address
    }

    /// The terrain quality setting (0 to 3; 4 disables queue draining).
    pub fn state(&self) -> (r: i32)
        ensures
            r == self.spec_state() as i32,
    {
        self.state as i32
    }

    /// Sets the terrain quality setting.
    pub fn set_state(&mut self, value: i32)
        ensures
            final(self).spec_state() == value as u32,
            final(self).spec_address() == old(self).spec_address(),
    {
        self.state = value as u32;
    }

    /// The queue's sentinel node address, stored inside the manager.
    pub fn queue_sentinel_ptr(&self, mem: &ZtMemory) -> (r: u32)
        requires
            mem.range_mapped(self.spec_address() + QUEUE_SENTINEL_PTR_OFFSET, 4),
        ensures
            r == mem.u32_at(self.spec_address() + QUEUE_SENTINEL_PTR_OFFSET),
    {
        mem.get_u32(self.address + QUEUE_SENTINEL_PTR_OFFSET)
    }

    /// `(deadline, show_busy_cursor, early_return)` for one `update` call at tick `now`:
    /// state 4 returns at once, state 0 drains without a time limit behind a busy cursor,
    /// states 1 and 3 get a quarter of `delta_ticks`, and every other state all of it.
    pub fn compute_update_state(state: i32, now: u32, delta_ticks: u32) -> (r: (u32, bool, bool))
        ensures
            r == spec_update_state(state, now, delta_ticks),
    {
        if state == 4 {
            (now, false, true)
        } else if state == 0 {
            (u32::MAX, true, false)
        } else if state == 1 || state == 3 {
            assert(delta_ticks >> 2u32 == delta_ticks / 4) by (bit_vector);
            (now.wrapping_add(delta_ticks >> 2), false, false)
        } else {
            (now.wrapping_add(delta_ticks), false, false)
        }
    }

    /// Unlinks the queue's front node from between the sentinel and the node after it, and
    /// returns the front node's address.
    pub fn unlink_front(mem: &mut ZtMemory, sentinel: u32) -> (front: u32)
        requires
            old(mem).range_mapped(sentinel as int, 4),
            old(mem).range_mapped(old(mem).u32_at(sentinel as int) as int, 4),
            old(mem).range_mapped(old(mem).u32_at(old(mem).u32_at(sentinel as int) as int) + 4, 4),
        ensures
            front == old(mem).u32_at(sentinel as int),
            final(mem).spec_base() == old(mem).spec_base(),
            final(mem).spec_bytes() == write_u32_bytes(
                write_u32_bytes(old(mem).spec_bytes(), sentinel - old(mem).spec_base(), old(mem).u32_at(front as int)),
                old(mem).u32_at(front as int) + 4 - old(mem).spec_base(),
                sentinel,
            ),
            final(mem).u32_at(old(mem).u32_at(front as int) + 4) == sentinel,
            ({
                let next_prev = old(mem).u32_at(front as int) + 4;
                next_prev + 4 <= sentinel || sentinel + 4 <= next_prev ==> final(mem).u32_at(sentinel as int) == old(mem).u32_at(front as int)
            }),
    {
        let front = mem.get_u32(sentinel);
        let front_next = mem.get_u32(front);
        mem.save_u32(sentinel, front_next);
        let ghost mid = *mem;
        mem.save_u32(front_next + 4, sentinel);
        proof {
            let np = front_next + 4;
            if np + 4 <= sentinel || sentinel + 4 <= np {
                assert(mem.byte(sentinel as int) == mid.byte(sentinel as int));
                assert(mem.byte(sentinel + 1) == mid.byte(sentinel + 1));
                assert(mem.byte(sentinel + 2) == mid.byte(sentinel + 2));
                assert(mem.byte(sentinel + 3) == mid.byte(sentinel + 3));
            }
        }
        front
    }
}

/// Pushes the popped `node_addr` onto the game's node free list, whose head pointer is stored at
/// `freelist_head_addr`: the node's first word takes the old head, the head takes the node.
pub fn release_bfpos_node(mem: &mut ZtMemory, node_addr: u32, freelist_head_addr: u32)
    requires
        old(mem).range_mapped(node_addr as int, 4),
        old(mem).range_mapped(freelist_head_addr as int, 4),
    ensures
        final(mem).spec_base() == old(mem).spec_base(),
        final(mem).spec_bytes() == release_node_bytes(old(mem).spec_bytes(), old(mem).spec_base(), node_addr as int, freelist_head_addr as int),
        final(mem).u32_at(freelist_head_addr as int) == node_addr,
{
    let old_head = mem.get_u32(freelist_head_addr);
    mem.save_u32(node_addr, old_head);
    mem.save_u32(freelist_head_addr, node_addr);
}

/// The next queued tile for a drain step at tick `elapsed`, or `None` once the queue is empty
/// or the `deadline` has been reached.
pub fn next_queued_tile(mem: &ZtMemory, sentinel: u32, elapsed: u32, deadline: u32) -> (r: Option<QueuedTile>)
    requires
        mem.range_mapped(sentinel as int, 4),
        mem.u32_at(sentinel as int) != sentinel && elapsed < deadline ==> mem.range_mapped(mem.u32_at(sentinel as int) as int, 16),
    ensures
        mem.u32_at(sentinel as int) == sentinel || elapsed >= deadline ==> r is None,
        mem.u32_at(sentinel as int) != sentinel && elapsed < deadline ==> r == Some(QueuedTile {
            node: mem.u32_at(sentinel as int),
            x: mem.u32_at(mem.u32_at(sentinel as int) + 8) as i32,
            y: mem.u32_at(mem.u32_at(sentinel as int) + 12) as i32,
        }),
{
    let front = mem.get_u32(sentinel);
    if front == sentinel || elapsed >= deadline {
        return None;
    }
    Some(QueuedTile { node: front, x: mem.get_i32(front + 8), y: mem.get_i32(front + 12) })
}

impl ZTAdvTerrainMgr_raw {
    /// Unlinks the queue's front node and recycles it onto the game's free list.
    pub fn pop_front_and_release(&self, mem: &mut ZtMemory, freelist_head_addr: u32) -> (front: u32)
        requires
            old(mem).range_mapped(self.spec_address() + QUEUE_SENTINEL_PTR_OFFSET, 4),
            ({
                let s = old(mem).u32_at(self.spec_address() + QUEUE_SENTINEL_PTR_OFFSET);
                &&& old(mem).range_mapped(s as int, 4)
                &&& old(mem).range_mapped(old(mem).u32_at(s as int) as int, 4)
                &&& old(mem).range_mapped(old(mem).u32_at(old(mem).u32_at(s as int) as int) + 4, 4)
            }),
            old(mem).range_mapped(freelist_head_addr as int, 4),
        ensures
            ({
                let s = old(mem).u32_at(self.spec_address() + QUEUE_SENTINEL_PTR_OFFSET);
                &&& front == old(mem).u32_at(s as int)
                &&& final(mem).spec_base() == old(mem).spec_base()
                &&& final(mem).spec_bytes() == release_node_bytes(
                    unlink_front_bytes(old(mem).spec_bytes(), old(mem).spec_base(), s as int),
                    old(mem).spec_base(),
                    front as int,
                    freelist_head_addr as int,
                )
            }),
    {
        let sentinel = self.queue_sentinel_ptr(mem);
        let front = Self::unlink_front(mem, sentinel);
        release_bfpos_node(mem, front, freelist_head_addr);
        front
    }
}

} // verus!
