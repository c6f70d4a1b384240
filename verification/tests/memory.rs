use openzt::memory::{
    get_from_memory, get_string_from_memory, get_string_from_memory_bounded, get_string_from_memory_with_size, save_string_to_memory,
    list_node_count, save_to_memory, ZTArray, ZTBoundedString, ZTBufferString, ZtMemory, ZtStringError,
};

#[test]
fn regions_must_fit_the_address_space() {
    assert!(ZtMemory::new(0xffff_fff0, vec![0; 16]).is_some());
    assert!(ZtMemory::new(0xffff_fff0, vec![0; 17]).is_none());
    assert!(ZtMemory::zeroed(0xffff_ffff, 2).is_none());
    let mem = ZtMemory::new(0x400, vec![1, 2, 3]).unwrap();
    assert_eq!((mem.base(), mem.len()), (0x400, 3));
}

#[test]
fn values_are_little_endian() {
    let mut mem = ZtMemory::zeroed(0x1000, 16).unwrap();
    mem.save_u32(0x1004, 0x1122_3344);
    assert_eq!(mem.get_u8(0x1004), 0x44);
    assert_eq!(mem.get_u8(0x1007), 0x11);
    assert_eq!(mem.get_u32(0x1004), 0x1122_3344);
    save_to_memory::<i32>(&mut mem, 0x1008, -2);
    assert_eq!(mem.get_u32(0x1008), 0xffff_fffe);
    assert_eq!(get_from_memory::<i32>(&mem, 0x1008), -2);
    save_to_memory::<u8>(&mut mem, 0x100c, 7);
    assert_eq!(get_from_memory::<u8>(&mem, 0x100c), 7);
    assert_eq!(get_from_memory::<u32>(&mem, 0x1004), 0x1122_3344);
}

#[test]
fn strings_are_read_up_to_a_nul_or_a_limit() {
    let mut mem = ZtMemory::zeroed(0x2000, 32).unwrap();
    save_string_to_memory(&mut mem, 0x2000, "Zoo Tycoon");
    assert_eq!(mem.get_u8(0x200a), 0);
    assert_eq!(get_string_from_memory(&mem, 0x2000), "Zoo Tycoon");
    assert_eq!(get_string_from_memory_with_size(&mem, 0x2000, 3), "Zoo");
    assert_eq!(get_string_from_memory_bounded(&mem, 0x2004, 0x2008, 0x2006), "Ty");
    mem.save_u8(0x2010, 0xe9);
    assert_eq!(get_string_from_memory(&mem, 0x2010), "é");
}

#[test]
fn buffer_string_replacement_respects_capacity() {
    let mut mem = ZtMemory::zeroed(0x3000, 16).unwrap();
    let mut s = ZTBufferString::from_raw_parts(0x3000, 0x3000, 0x3008);
    assert_eq!((s.len(), s.capacity()), (0, 8));
    assert_eq!(s.replace(&mut mem, "giraffe".to_string()), Ok(()));
    assert_eq!(s.len(), 7);
    assert_eq!(s.copy_to_string(&mem), "giraffe");
    assert_eq!(s.replace(&mut mem, "elephant".to_string()), Err(ZtStringError::TooLong));
    assert_eq!(s.copy_to_string(&mem), "giraffe");
}

#[test]
fn bounded_string_replacement_needs_an_exact_fit() {
    let mut mem = ZtMemory::zeroed(0x3000, 16).unwrap();
    let mut s = ZTBoundedString::from_raw_parts(0x3000, 0x3006);
    assert_eq!((s.len(), s.capacity()), (6, 6));
    assert_eq!(s.replace(&mut mem, "lion".to_string()), Err(ZtStringError::TooLong));
    assert_eq!(s.replace(&mut mem, "zebra".to_string()), Ok(()));
    assert_eq!(s.copy_to_string(&mem), "zebra");
}

#[test]
fn arrays_hold_pointers_to_their_elements() {
    let mut mem = ZtMemory::zeroed(0x4000, 0x40).unwrap();
    mem.save_u32(0x4000, 0x4020);
    mem.save_u32(0x4004, 0x4024);
    mem.save_u32(0x4020, 11);
    mem.save_u32(0x4024, 22);
    let arr = ZTArray::<u32>::from_raw_parts(0x4000, 0x4008, 0x4010);
    assert_eq!((arr.len(), arr.capacity()), (2, 4));
    assert_eq!(arr.get_ptr(&mem, 1), 0x4024);
    assert_eq!(arr.get(&mem, 0), 11);
    arr.set(&mut mem, 1, 33);
    assert_eq!(mem.get_u32(0x4024), 33);
    assert_eq!(arr.get_vec(&mem), vec![11, 33]);
}

#[test]
fn list_node_count_walks_to_the_sentinel() {
    let mut mem = ZtMemory::zeroed(0x2000, 0x40).unwrap();
    // empty list: the sentinel points at itself
    mem.save_u32(0x2000, 0x2000);
    assert_eq!(list_node_count(&mem, 0x2000), 0);
    // sentinel -> 0x2010 -> 0x2020 -> 0x2030 -> sentinel
    mem.save_u32(0x2000, 0x2010);
    mem.save_u32(0x2010, 0x2020);
    mem.save_u32(0x2020, 0x2030);
    mem.save_u32(0x2030, 0x2000);
    assert_eq!(list_node_count(&mem, 0x2000), 3);
}
