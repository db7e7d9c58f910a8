use bump_allocator::early::{AllocError, EarlyAllocator};

const PAGE: usize = 0x1000;

fn init_span(start: usize, size: usize) -> EarlyAllocator<PAGE> {
    let mut a = EarlyAllocator::<PAGE>::new();
    assert_eq!(a.init(start, size), Ok(()));
    a
}

#[test]
fn new_is_unbound() {
    let a = EarlyAllocator::<PAGE>::new();
    assert!(!a.is_initialized());
    assert_eq!(a.total_bytes(), 0);
    assert_eq!(a.available_bytes(), 0);
    assert_eq!(a.total_pages(), 0);
}

#[test]
fn init_binds_span() {
    let a = init_span(0x1000, 0x3000);
    assert!(a.is_initialized());
    assert_eq!(a.total_bytes(), 0x3000);
    assert_eq!(a.used_bytes(), 0);
    assert_eq!(a.available_bytes(), 0x3000);
    assert_eq!(a.total_pages(), 3);
    assert_eq!(a.used_pages(), 0);
    assert_eq!(a.available_pages(), 3);
}

#[test]
fn init_rejects_zero_size() {
    let mut a = EarlyAllocator::<PAGE>::new();
    assert_eq!(a.init(0x1000, 0), Err(AllocError::InvalidMemoryRegion));
    assert!(!a.is_initialized());
}

#[test]
fn init_rejects_span_past_address_range() {
    let mut a = EarlyAllocator::<PAGE>::new();
    assert_eq!(a.init(usize::MAX, 2), Err(AllocError::InvalidMemoryRegion));
    assert!(!a.is_initialized());
}

#[test]
fn double_init_is_rejected() {
    let mut a = init_span(0x1000, 0x2000);
    assert_eq!(a.init(0x8000, 0x1000), Err(AllocError::DoubleInit));
    // The original binding is untouched.
    assert_eq!(a.total_bytes(), 0x2000);
}

#[test]
fn boot_scenario() {
    let mut a = init_span(0x1000, 0x3000);
    assert_eq!(a.alloc_bytes(64, 8), Ok(0x1000));
    assert_eq!(a.alloc_bytes(32, 16), Ok(0x1040));
    assert_eq!(a.alloc_pages(1, 0x1000), Ok(0x3000));
    assert_eq!(a.alloc_pages(2, 0x1000), Err(AllocError::OutOfMemory));
}

#[test]
fn byte_allocations_are_aligned() {
    let mut a = init_span(0x1001, 0x2fff);
    // The cursor starts unaligned; every address comes back aligned.
    let p = a.alloc_bytes(10, 16).unwrap();
    assert_eq!(p % 16, 0);
    assert_eq!(p, 0x1010);
    let q = a.alloc_bytes(1, 64).unwrap();
    assert_eq!(q % 64, 0);
    assert_eq!(q, 0x1040);
    // An already aligned cursor is used as is.
    let mut b = init_span(0x2000, 0x1000);
    assert_eq!(b.alloc_bytes(8, 8), Ok(0x2000));
}

#[test]
fn page_allocations_are_aligned() {
    // The span's upper bound is not page-aligned; the first page allocation
    // still returns a page-aligned, request-aligned address.
    let mut a = init_span(0x1000, 0x2500);
    let p = a.alloc_pages(1, 0x1000).unwrap();
    assert_eq!(p % 0x1000, 0);
    assert_eq!(p, 0x2000);

    // An alignment larger than the page size is honored too.
    let mut b = init_span(0x1000, 0x7000);
    let q = b.alloc_pages(1, 0x2000).unwrap();
    assert_eq!(q % 0x2000, 0);
    assert_eq!(q % 0x1000, 0);
    assert_eq!(q, 0x6000);
}

#[test]
fn small_alignment_still_page_aligned() {
    // An alignment below the page size never breaks page granularity.
    let mut a = init_span(0x1000, 0x2500);
    let p = a.alloc_pages(1, 0x100).unwrap();
    assert_eq!(p % 0x1000, 0);
    assert_eq!(p, 0x2000);
}

#[test]
fn page_size_is_generic() {
    let mut a = EarlyAllocator::<0x200>::new();
    assert_eq!(a.init(0x1000, 0x1000), Ok(()));
    assert_eq!(a.alloc_pages(3, 0x200), Ok(0x1a00));
    assert_eq!(a.total_pages(), 8);
}

#[test]
fn pages_fill_until_cursors_meet() {
    // Span [0x1000, 0x3000): two pages fit, the third request collides.
    let mut a = init_span(0x1000, 0x2000);
    assert_eq!(a.alloc_pages(1, 0x1000), Ok(0x2000));
    assert_eq!(a.alloc_pages(1, 0x1000), Ok(0x1000));
    assert_eq!(a.available_bytes(), 0);
    assert_eq!(a.alloc_pages(1, 0x1000), Err(AllocError::OutOfMemory));
}

#[test]
fn byte_allocation_out_of_memory() {
    let mut a = init_span(0x1000, 0x2000);
    assert_eq!(a.alloc_bytes(0x2001, 1), Err(AllocError::OutOfMemory));
    // A failed request changes nothing.
    assert_eq!(a.used_bytes(), 0);
    assert_eq!(a.alloc_bytes(0x2000, 1), Ok(0x1000));
}

#[test]
fn oversized_page_count_is_refused() {
    let mut a = init_span(0x1000, 0x2000);
    assert_eq!(a.alloc_pages(3, 0x1000), Err(AllocError::OutOfMemory));
    assert_eq!(a.alloc_pages(usize::MAX / 0x800, 0x1000), Err(AllocError::OutOfMemory));
    assert_eq!(a.used_pages(), 0);
}

#[test]
fn bulk_reclaim_returns_cursor_to_start() {
    let mut a = init_span(0x1000, 0x2000);
    let mut ptrs = vec![];
    for _ in 0..5 {
        ptrs.push(a.alloc_bytes(48, 16).unwrap());
    }
    assert_eq!(a.used_bytes(), 5 * 48);
    for p in ptrs {
        a.dealloc(p, 48, 16);
    }
    // Every outstanding allocation was released: the whole byte region is
    // reclaimed at once, and the next allocation reuses it from `start`.
    assert_eq!(a.used_bytes(), 0);
    assert_eq!(a.alloc_bytes(48, 16), Ok(0x1000));
}

#[test]
fn partial_release_keeps_cursor() {
    let mut a = init_span(0x1000, 0x2000);
    let p = a.alloc_bytes(16, 8).unwrap();
    let q = a.alloc_bytes(16, 8).unwrap();
    a.dealloc(p, 16, 8);
    // One allocation is still outstanding: nothing is reclaimed yet.
    assert_eq!(a.used_bytes(), 32);
    let r = a.alloc_bytes(16, 8).unwrap();
    assert_eq!(r, q + 16);
}

#[test]
fn dealloc_pages_changes_nothing() {
    let mut a = init_span(0x1000, 0x3000);
    let p = a.alloc_pages(2, 0x1000).unwrap();
    assert_eq!(a.used_pages(), 2);
    a.dealloc_pages(p, 2);
    assert_eq!(a.used_pages(), 2);
    assert_eq!(a.available_pages(), 1);
}

#[test]
fn add_memory_extends_at_end() {
    let mut a = init_span(0x1000, 0x2000);
    assert_eq!(a.add_memory(0x3000, 0x1000), Ok(()));
    assert_eq!(a.total_bytes(), 0x3000);
    assert_eq!(a.alloc_pages(3, 0x1000), Ok(0x1000));
}

#[test]
fn add_memory_rejects_unusable_spans() {
    let mut u = EarlyAllocator::<PAGE>::new();
    assert_eq!(u.add_memory(0x1000, 0x1000), Err(AllocError::InvalidMemoryRegion));

    let mut a = init_span(0x1000, 0x2000);
    // Zero-sized.
    assert_eq!(a.add_memory(0x3000, 0), Err(AllocError::InvalidMemoryRegion));
    // Not adjacent to the current end (would leave a hole or overlap).
    assert_eq!(a.add_memory(0x4000, 0x1000), Err(AllocError::InvalidMemoryRegion));
    assert_eq!(a.add_memory(0x1000, 0x1000), Err(AllocError::InvalidMemoryRegion));
    // Adjacent, but pages have already been handed out from `end`.
    assert_eq!(a.alloc_pages(1, 0x1000), Ok(0x2000));
    assert_eq!(a.add_memory(0x3000, 0x1000), Err(AllocError::InvalidMemoryRegion));
}

#[test]
fn accounting_tracks_both_regions() {
    let mut a = init_span(0x1000, 0x4000);
    assert_eq!(a.alloc_bytes(0x800, 8), Ok(0x1000));
    assert_eq!(a.alloc_pages(1, 0x1000), Ok(0x4000));
    assert_eq!(a.used_bytes(), 0x800);
    assert_eq!(a.total_bytes(), 0x3000);
    assert_eq!(a.available_bytes(), 0x2800);
    assert_eq!(a.used_pages(), 1);
    assert_eq!(a.total_pages(), 3);
    assert_eq!(a.available_pages(), 2);
}
