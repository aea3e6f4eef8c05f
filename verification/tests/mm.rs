use rondos::mm::page::{BitMap, PageAllocator, PageTableEntry};
use rondos::mm::{available_mem_size, pg_round_down, Allocator, MemLayout, MemLayoutKind};

#[test]
fn bitmap_single_bits() {
    let mut map = BitMap::new(20);
    assert_eq!(map.size(), 20);
    for i in 0..20 {
        assert!(!map.test(i));
    }
    map.mark(3);
    map.mark(9);
    assert!(map.test(3));
    assert!(map.test(9));
    assert!(!map.test(4));
    map.clear(3);
    assert!(!map.test(3));
    map.flip(9);
    assert!(!map.test(9));
    map.flip(9);
    assert!(map.test(9));
    map.set(0, true);
    assert!(map.test(0));
    map.set(0, false);
    assert!(!map.test(0));
}

#[test]
fn bitmap_runs() {
    let mut map = BitMap::new(16);
    map.sets(4, 4, true);
    assert!(map.all(4, 4));
    assert!(!map.all(3, 4));
    assert!(map.any(0, 8));
    assert!(!map.any(0, 4));
    assert!(map.contains(0, 16, true));
    assert!(map.contains(0, 16, false));
    map.flips(4, 4);
    assert!(!map.any(0, 16));
}

#[test]
fn bitmap_find_first_window() {
    let mut map = BitMap::new(16);
    map.mark(1);
    map.mark(5);
    // The first three free frames in a row sit at 2.
    assert_eq!(map.find(0, 3, false), Some(2));
    // From frame 7 on, the first window starts right there.
    assert_eq!(map.find(7, 3, false), Some(7));
    // No free window of 15 exists.
    assert_eq!(map.find(0, 15, false), None);
    // A window longer than the map never exists.
    assert_eq!(map.find(0, 17, false), None);
}

#[test]
fn page_allocator_first_fit() {
    // 64 MiB: 16384 frames, one page of bitmap carved off the front.
    let mut pages = PageAllocator::new(64 * 1024 * 1024);
    let base = 0xc0100000 + 4096;
    let a = pages.get_page(2).unwrap();
    assert_eq!(a, base);
    let b = pages.get_page(1).unwrap();
    assert_eq!(b, base + 2 * 4096);
    pages.free_page(a, 2);
    // The freed run is the first fit again.
    let c = pages.get_page(2).unwrap();
    assert_eq!(c, a);
}

#[test]
fn page_allocator_exhaustion() {
    let mut pages = PageAllocator::new(64 * 1024 * 1024);
    // 16384 frames minus the bitmap page leaves 16383.
    assert!(pages.get_page(16383).is_some());
    assert!(pages.get_page(1).is_none());
}

#[test]
fn allocator_rounds_to_pages() {
    let mut heap = Allocator { pages: PageAllocator::new(64 * 1024 * 1024) };
    let base = 0xc0100000 + 4096;
    let a = heap.allocate(1).unwrap();
    assert_eq!(a, base);
    let b = heap.allocate(4097).unwrap();
    // One byte took one page; 4097 bytes take the next two.
    assert_eq!(b, base + 4096);
    heap.deallocate(a, 1);
    let c = heap.allocate(4096).unwrap();
    assert_eq!(c, a);
}

#[test]
fn available_memory_sums_usable_regions() {
    let mems = vec![
        MemLayout::new(0x0, 0x9f000, MemLayoutKind::Usable),
        MemLayout::new(0x100000, 0x100000, MemLayoutKind::Usable),
        MemLayout::new(0x200000, 0x100000, MemLayoutKind::Reserved),
        MemLayout::new(0x300000, 0x200000, MemLayoutKind::Usable),
    ];
    // The sub-megabyte region does not count; the reserved one neither.
    assert_eq!(available_mem_size(&mems), 0x100000 + 0x200000);
}

#[test]
fn available_memory_counts_overlap_once() {
    let mems = vec![
        MemLayout::new(0x100000, 0x200000, MemLayoutKind::Usable),
        MemLayout::new(0x200000, 0x200000, MemLayoutKind::Usable),
    ];
    assert_eq!(available_mem_size(&mems), 0x300000);
    assert_eq!(available_mem_size(&[]), 0);
}

#[test]
fn mem_layout_accessors() {
    let m = MemLayout::new(0x100000, 0x1000, MemLayoutKind::ACPINVSMemory);
    assert_eq!(m.addr(), 0x100000);
    assert_eq!(m.len(), 0x1000);
    assert_eq!(m.kind(), MemLayoutKind::ACPINVSMemory);
    assert_eq!(MemLayoutKind::from_u32(1), Some(MemLayoutKind::Usable));
    assert_eq!(MemLayoutKind::from_u32(5), Some(MemLayoutKind::BadMemory));
    assert_eq!(MemLayoutKind::from_u32(0), None);
    assert_eq!(MemLayoutKind::from_u32(6), None);
    assert_eq!(MemLayoutKind::BadMemory.to_u32(), 5);
}

#[test]
fn page_rounding() {
    assert_eq!(pg_round_down(0), 0);
    assert_eq!(pg_round_down(4095), 0);
    assert_eq!(pg_round_down(4096), 4096);
    assert_eq!(pg_round_down(0xc0101234), 0xc0101000);
}

#[test]
fn page_table_entry_bits() {
    let e = PageTableEntry::new(0xdeadb000 | 0b1011_0010_0111);
    assert!(e.present());
    assert!(e.rw());
    assert!(e.is_user());
    assert!(!e.write_through());
    assert!(!e.cache_disable());
    assert!(e.accessed());
    assert!(!e.dirty());
    assert!(!e.page_attribute());
    assert!(e.global());
    assert_eq!(e.available(), 0b101);
    assert_eq!(e.addr(), 0xdeadb000);

    let zero = PageTableEntry::new(0);
    assert!(!zero.present());
    assert_eq!(zero.addr(), 0);
    assert_eq!(zero.available(), 0);
}
