use hhat_core::block::{MemAllocError, MemAllocSuccess, MemBlock};
use hhat_core::defs::{MAX_MEMBLOCK_SIZE, ALIGNMENT};

/// test memory block allocation, writing, reading and de-allocation
#[test]
fn test_simple_memblock_operations() {
    println!("== simple memblock alloc ==");

    let max_size = MAX_MEMBLOCK_SIZE;
    assert_eq!(max_size, MAX_MEMBLOCK_SIZE);

    let mut memblock = MemBlock::new(max_size, 8usize).unwrap();
    println!(" - memblock");
    println!("   - [x] ptr: {}", memblock.as_ptr());

    let data_ptr = memblock.push(1u64).unwrap();
    println!("   - [x] input data: {}", 1u64);
    assert!(memblock.as_ptr() + std::mem::size_of_val(&1u64) <= memblock.as_ptr() + max_size);
    println!("   - [x] push data, received ptr: {:}", data_ptr);

    let retrieved_data = memblock.peek::<u64>(data_ptr);
    assert_eq!(retrieved_data, 1u64);
    println!("   - [x] peek data: {:}", retrieved_data);

    let (d, ds, p) = match memblock.pop::<u64>(data_ptr) {
        Ok((x, y, z)) => (x, y, z),
        Err(e) => panic!("{:?}", e),
    };
    assert_eq!(d, 1u64);
    assert_eq!(ds, 8);
    assert_eq!(p, memblock.as_ptr());
    println!("   - [x] pop data:");
    println!("   -   - [x] retrieved data: {:}", d);
    println!("   -   - [x] retrieved data size: {:}", ds);
    println!("   -   - [x] retrieved new pointer: {:}", p);

    memblock.free().unwrap();
    println!("   - [x] memblock freed");

    println!("=====================");
}

/// test many memory blocks allocation, writing, reading and de-allocation
#[test]
fn test_many_memblock_operations() {
    let mut blocks: Vec<MemBlock> = Vec::new();
    let mut size: usize = 16;
    while size <= MAX_MEMBLOCK_SIZE {
        blocks.push(MemBlock::new(size, ALIGNMENT).unwrap());
        size *= 2;
    }
    for (i, block) in blocks.iter_mut().enumerate() {
        let value = 1000u64 + i as u64;
        let pos = block.push(value).unwrap();
        assert_eq!(block.peek::<u64>(pos), value);
        assert_eq!(block.pop::<u64>(pos).unwrap(), (value, 8, block.as_ptr()));
    }
    for block in blocks.iter_mut() {
        assert!(matches!(block.free(), Ok(MemAllocSuccess::MemoryFreed)));
    }
}

#[test]
fn test_struct_memblock_operations() {
    #[derive(Debug, Copy, Clone, Ord, PartialOrd, Eq, PartialEq)]
    struct TestStruct {
        x: u64,
        y: u64,
    }

    println!("=== complex memblock alloc ===");

    let mut memblock = match MemBlock::new(MAX_MEMBLOCK_SIZE, 8usize) {
        Ok(block) => block,
        Err(err) => panic!("{:?}", err),
    };
    println!(" - memblock");
    println!("   - [x] ptr: {}", memblock.as_ptr());

    let data_struct = TestStruct { x: 1u64, y: 65535u64 };
    let data_ptr = memblock.push((data_struct.x, data_struct.y)).unwrap();
    println!("   - [x] input data: {:?}", data_struct);
    println!("   - [x] push data, received ptr: {:}", data_ptr);
    let (x, y) = memblock.peek::<(u64, u64)>(data_ptr);
    let retrieved_data = TestStruct { x, y };
    assert_eq!(retrieved_data, data_struct);
    println!("   - [x] peek data: {:?}", retrieved_data);

    let (d, ds, p) = match memblock.pop::<(u64, u64)>(data_ptr) {
        Ok(((x, y), s, c)) => (TestStruct { x, y }, s, c),
        Err(e) => panic!("{:?}", e),
    };
    assert_eq!(d, data_struct);
    assert_eq!(ds, 16);
    assert_eq!(p, memblock.as_ptr());
    println!("   - [x] pop data:");
    println!("   -   - [x] retrieved data: {:?}", d);
    println!("   -   - [x] retrieved data size: {:}", ds);
    println!("   -   - [x] retrieved new pointer: {:}", p);
}

#[test]
fn new_rejects_sizes_that_are_not_powers_of_two() {
    for size in [0usize, 3, 6, 12, 100, 1000, MAX_MEMBLOCK_SIZE - 1] {
        assert!(matches!(MemBlock::new(size, 8), Err(MemAllocError::NotPowerOfTwo)));
    }
}

#[test]
fn new_rejects_sizes_above_the_maximum_first() {
    assert!(matches!(
        MemBlock::new(MAX_MEMBLOCK_SIZE * 2, 8),
        Err(MemAllocError::InvalidBlockSize)
    ));
    // not a power of two either: the size ceiling is reported
    assert!(matches!(
        MemBlock::new(MAX_MEMBLOCK_SIZE + 1, 8),
        Err(MemAllocError::InvalidBlockSize)
    ));
    assert!(matches!(MemBlock::new(usize::MAX, 3), Err(MemAllocError::InvalidBlockSize)));
}

#[test]
fn new_rejects_bad_alignments_with_layout_error() {
    assert!(matches!(MemBlock::new(16, 0), Err(MemAllocError::LayoutError)));
    assert!(matches!(MemBlock::new(16, 3), Err(MemAllocError::LayoutError)));
    assert!(matches!(MemBlock::new(16, 24), Err(MemAllocError::LayoutError)));
    let top_bit = 1usize << (usize::BITS - 1);
    assert!(matches!(MemBlock::new(16, top_bit), Err(MemAllocError::LayoutError)));
}

#[test]
fn new_accepts_every_power_of_two_up_to_the_maximum() {
    let mut size: usize = 1;
    while size <= MAX_MEMBLOCK_SIZE {
        let block = MemBlock::new(size, 16).unwrap();
        assert_eq!(block.as_ptr(), 16);
        size *= 2;
    }
}

#[test]
fn base_address_is_the_alignment() {
    let block = MemBlock::new(64, 32).unwrap();
    assert_eq!(block.as_ptr(), 32);
    let block = MemBlock::new(64, 1).unwrap();
    assert_eq!(block.as_ptr(), 1);
}

#[test]
fn release_twice_reports_already_freed() {
    let mut block = MemBlock::new(32, 8).unwrap();
    assert!(matches!(block.free(), Ok(MemAllocSuccess::MemoryFreed)));
    assert!(matches!(block.free(), Err(MemAllocError::MemoryAlreadyFreed)));
    assert!(matches!(block.free(), Err(MemAllocError::MemoryAlreadyFreed)));
    // dropping a released block releases nothing more
    drop(block);
}

#[test]
fn use_after_release_is_reported() {
    let mut block = MemBlock::new(32, 8).unwrap();
    let pos = block.push(7u32).unwrap();
    block.free().unwrap();
    assert!(matches!(block.push(7u32), Err(MemAllocError::MemoryAlreadyFreed)));
    assert!(matches!(block.push_at(pos, 7u32), Err(MemAllocError::MemoryAlreadyFreed)));
    assert!(matches!(block.pop::<u32>(pos), Err(MemAllocError::MemoryAlreadyFreed)));
}

#[test]
fn push_overflows_when_the_value_end_passes_the_block_end() {
    // a u64 is written at base + 8 and ends at base + 16
    let mut block = MemBlock::new(8, 8).unwrap();
    assert!(matches!(block.push(5u64), Err(MemAllocError::MemoryOverflow)));
    let mut block = MemBlock::new(16, 8).unwrap();
    assert_eq!(block.push(5u64).unwrap(), block.as_ptr() + 8);
    assert!(matches!(block.push((1u64, 2u64)), Err(MemAllocError::MemoryOverflow)));
    let mut block = MemBlock::new(1, 8).unwrap();
    assert!(matches!(block.push(1u8), Err(MemAllocError::MemoryOverflow)));
    let mut block = MemBlock::new(2, 8).unwrap();
    assert_eq!(block.push(9u8).unwrap(), 9);
    assert_eq!(block.peek::<u8>(9), 9u8);
}

#[test]
fn push_at_checks_both_ends_of_the_block() {
    let mut block = MemBlock::new(16, 8).unwrap();
    let base = block.as_ptr();
    assert_eq!(block.push_at(base, 11u64).unwrap(), base);
    assert_eq!(block.push_at(base + 8, 22u64).unwrap(), base + 8);
    assert!(matches!(block.push_at(base + 9, 33u64), Err(MemAllocError::MemoryOverflow)));
    assert!(matches!(block.push_at(base - 1, 33u64), Err(MemAllocError::MemoryOverflow)));
    assert!(matches!(block.push_at(usize::MAX, 1u8), Err(MemAllocError::MemoryOverflow)));
    assert_eq!(block.peek::<u64>(base), 11);
    assert_eq!(block.peek::<u64>(base + 8), 22);
}

#[test]
fn values_read_back_as_written() {
    let mut block = MemBlock::new(64, 8).unwrap();
    let base = block.as_ptr();
    block.push_at(base, 0xabu8).unwrap();
    block.push_at(base + 1, 0xbeefu16).unwrap();
    block.push_at(base + 3, 0xdead_beefu32).unwrap();
    block.push_at(base + 7, u64::MAX - 1).unwrap();
    block.push_at(base + 15, (7u32, 0x0102_0304_0506_0708u64)).unwrap();
    assert_eq!(block.peek::<u8>(base), 0xab);
    assert_eq!(block.peek::<u16>(base + 1), 0xbeef);
    assert_eq!(block.peek::<u32>(base + 3), 0xdead_beef);
    assert_eq!(block.peek::<u64>(base + 7), u64::MAX - 1);
    assert_eq!(block.peek::<(u32, u64)>(base + 15), (7, 0x0102_0304_0506_0708));
    // the bytes are little-endian: the low byte of the u16 comes first
    assert_eq!(block.peek::<u8>(base + 1), 0xef);
    assert_eq!(block.peek::<u8>(base + 2), 0xbe);
}

#[test]
fn pop_walks_a_stack_down_to_the_base() {
    let mut block = MemBlock::new(64, 8).unwrap();
    let base = block.as_ptr();
    block.push_at(base + 8, 1u64).unwrap();
    block.push_at(base + 16, 2u64).unwrap();
    block.push_at(base + 24, 3u64).unwrap();
    let mut cursor = base + 24;
    let mut seen = Vec::new();
    while cursor > base {
        let (v, s, c) = block.pop::<u64>(cursor).unwrap();
        assert_eq!(s, 8);
        seen.push(v);
        cursor = c;
    }
    assert_eq!(seen, vec![3, 2, 1]);
    assert_eq!(cursor, base);
    // the bytes stay: popping again reads the same value
    assert_eq!(block.pop::<u64>(base + 24).unwrap(), (3, 8, base + 16));
}

#[test]
fn pop_reports_empty_and_overflow() {
    let mut block = MemBlock::new(32, 8).unwrap();
    let base = block.as_ptr();
    assert!(matches!(block.pop::<u64>(base), Err(MemAllocError::EmptyMemory)));
    assert!(matches!(block.pop::<u64>(base + 7), Err(MemAllocError::EmptyMemory)));
    assert!(matches!(block.pop::<u64>(0), Err(MemAllocError::EmptyMemory)));
    assert!(matches!(block.pop::<u64>(base + 25), Err(MemAllocError::MemoryOverflow)));
    assert!(matches!(block.pop::<u64>(usize::MAX), Err(MemAllocError::MemoryOverflow)));
    assert_eq!(block.pop::<u64>(base + 24).unwrap(), (0, 8, base + 16));
    assert_eq!(block.pop::<u8>(base + 1).unwrap(), (0, 1, base));
}

#[test]
fn fresh_block_is_zero_filled() {
    let mut block = MemBlock::new(32, 8).unwrap();
    let base = block.as_ptr();
    assert_eq!(block.peek::<(u64, u64)>(base), (0, 0));
    assert_eq!(block.peek::<(u64, u64)>(base + 16), (0, 0));
}

#[test]
fn signed_and_bool_values_read_back_as_written() {
    let mut block = MemBlock::new(64, 8).unwrap();
    let base = block.as_ptr();
    block.push_at(base + 8, -5i64).unwrap();
    block.push_at(base + 16, (true, -300i16)).unwrap();
    block.push_at(base + 24, usize::MAX).unwrap();
    assert_eq!(block.peek::<i64>(base + 8), -5);
    assert_eq!(block.peek::<(bool, i16)>(base + 16), (true, -300));
    assert_eq!(block.peek::<usize>(base + 24), usize::MAX);
    assert_eq!(block.pop::<i64>(base + 8).unwrap(), (-5, 8, base));
    let p = block.push(-1i32).unwrap();
    assert_eq!(block.pop::<i32>(p).unwrap(), (-1, 4, base));
}

#[test]
fn dropping_a_live_block_releases_it() {
    let mut block = MemBlock::new(MAX_MEMBLOCK_SIZE, 8).unwrap();
    block.push(3u64).unwrap();
    drop(block);
}
