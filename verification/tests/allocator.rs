use rustyboot::frame_allocator::FRAME_COUNT;
use rustyboot::frame_allocator::FrameAllocator;
use rustyboot::frame_allocator::MEMORY_END;
use rustyboot::frame_allocator::MEMORY_START;
use rustyboot::frame_allocator::PAGE_SIZE;

#[test]
fn region_has_4096_frames() {
    assert_eq!(FRAME_COUNT, 4096);
    assert_eq!(MEMORY_START, 0x8100_0000);
    assert_eq!(MEMORY_END, 0x8200_0000);
    assert_eq!(PAGE_SIZE, 4096);
}

#[test]
fn five_fresh_allocations_are_consecutive() {
    let mut a = FrameAllocator::new();
    assert_eq!(a.allocate_frame(), Some(0x8100_0000));
    assert_eq!(a.allocate_frame(), Some(0x8100_1000));
    assert_eq!(a.allocate_frame(), Some(0x8100_2000));
    assert_eq!(a.allocate_frame(), Some(0x8100_3000));
    assert_eq!(a.allocate_frame(), Some(0x8100_4000));
}

#[test]
fn allocations_are_pairwise_distinct() {
    let mut a = FrameAllocator::new();
    let mut seen: Vec<usize> = Vec::new();
    for _ in 0..100 {
        let addr = a.allocate_frame().unwrap();
        assert!(!seen.contains(&addr));
        assert!(addr >= MEMORY_START && addr < MEMORY_END);
        assert_eq!((addr - MEMORY_START) % PAGE_SIZE, 0);
        seen.push(addr);
    }
}

#[test]
fn exhaustion_returns_none() {
    let mut a = FrameAllocator::new();
    a.reserved_region(MEMORY_START, MEMORY_END - PAGE_SIZE);
    assert_eq!(a.allocate_frame(), Some(MEMORY_END - PAGE_SIZE));
    assert_eq!(a.allocate_frame(), None);
    assert_eq!(a.allocate_frame(), None);
}

#[test]
fn free_then_allocate_returns_the_frame() {
    let mut a = FrameAllocator::new();
    a.reserved_region(MEMORY_START, MEMORY_END);
    assert_eq!(a.allocate_frame(), None);
    a.free_frame(0x8123_4000);
    assert_eq!(a.allocate_frame(), Some(0x8123_4000));
    // An unaligned address frees the frame containing it.
    a.free_frame(0x8123_4123);
    assert_eq!(a.allocate_frame(), Some(0x8123_4000));
}

#[test]
fn free_out_of_range_changes_nothing() {
    let mut a = FrameAllocator::new();
    a.allocate_frame().unwrap();
    a.allocate_frame().unwrap();
    let before = a.debug_enumerate();
    a.free_frame(0x1000);
    a.free_frame(MEMORY_START - 1);
    a.free_frame(MEMORY_END);
    a.free_frame(usize::MAX);
    let after = a.debug_enumerate();
    assert_eq!(before, after);
    assert_eq!(a.allocate_frame(), Some(MEMORY_START + 2 * PAGE_SIZE));
}

#[test]
fn reserve_makes_overlapping_frames_unavailable() {
    let mut a = FrameAllocator::new();
    // Covers frames 1 and 2; frame 3 starts exactly at the end.
    a.reserved_region(MEMORY_START + PAGE_SIZE, MEMORY_START + 3 * PAGE_SIZE);
    assert_eq!(a.allocate_frame(), Some(MEMORY_START));
    assert_eq!(a.allocate_frame(), Some(MEMORY_START + 3 * PAGE_SIZE));
}

#[test]
fn reserve_unaligned_region_covers_partial_frames() {
    let mut a = FrameAllocator::new();
    // A sliver inside frame 0 reserves all of frame 0.
    a.reserved_region(MEMORY_START + 0x100, MEMORY_START + 0x200);
    assert_eq!(a.allocate_frame(), Some(MEMORY_START + PAGE_SIZE));
}

#[test]
fn reserve_outside_region_is_harmless() {
    let mut a = FrameAllocator::new();
    a.reserved_region(0x8000_0000, 0x8100_0000);
    assert_eq!(a.allocate_frame(), Some(MEMORY_START));
}

#[test]
fn reserve_empty_range_marks_nothing() {
    let mut a = FrameAllocator::new();
    a.reserved_region(MEMORY_START + PAGE_SIZE, MEMORY_START + PAGE_SIZE);
    assert_eq!(a.allocate_frame(), Some(MEMORY_START));
    assert_eq!(a.allocate_frame(), Some(MEMORY_START + PAGE_SIZE));
}

#[test]
fn debug_enumerate_lists_used_frames() {
    let mut a = FrameAllocator::new();
    assert_eq!(a.debug_enumerate(), vec![]);
    a.allocate_frame().unwrap();
    a.reserved_region(MEMORY_START + 5 * PAGE_SIZE, MEMORY_START + 6 * PAGE_SIZE);
    assert_eq!(
        a.debug_enumerate(),
        vec![(0, MEMORY_START), (5, MEMORY_START + 5 * PAGE_SIZE)]
    );
}
