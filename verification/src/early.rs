//! The dual-region early allocator.
//!
//! An `EarlyAllocator` owns one contiguous span `[start, end)` and serves two
//! kinds of requests from it at once. Byte allocations bump a cursor forward
//! from `start`; page allocations bump a second cursor backward from `end`.
//! The free gap is `[byte_cursor, page_cursor)`; when the two cursors meet,
//! the allocator is out of memory. A counter of outstanding byte allocations
//! triggers a bulk reclaim of the whole byte region when it returns to zero;
//! pages are never reclaimed.

use vstd::prelude::*;
use vstd::arithmetic::power2::is_pow2;
use crate::align::{
    align_down, align_up, lemma_align_down, lemma_align_up, lemma_is_pow2_pos,
    lemma_mod_divides_trans, lemma_pow2_divides,
};

verus! {

/// Errors reported by the early allocator.
#[derive(Clone, Copy, Debug, PartialEq, Eq, Structural)]
pub enum AllocError {
    /// The request would make the byte region and the page region collide.
    OutOfMemory,
    /// `init` or `add_memory` was given an unusable span.
    InvalidMemoryRegion,
    /// `init` was called on an instance that already owns a span.
    DoubleInit,
}

/// The abstract state of an `EarlyAllocator`: three addresses, one counter,
/// and the fixed page granularity, all as mathematical integers.
pub struct AllocModel {
    /// Whether `init` has bound the instance to a span.
    pub initialized: bool,
    /// Lower bound of the managed span.
    pub start: int,
    /// Upper bound of the managed span.
    pub end: int,
    /// Next free byte address; grows forward from `start`.
    pub byte_cursor: int,
    /// Next free page boundary; grows backward from `end`.
    pub page_cursor: int,
    /// Number of byte allocations not yet released.
    pub outstanding: nat,
    /// Fixed granularity of page allocations.
    pub page_size: int,
}

impl AllocModel {
    /// Well-formedness: the two used regions grow toward each other but never
    /// cross, the page cursor stays page-aligned once a page has been handed
    /// out, and an empty byte region sits exactly at `start`.
    pub open spec fn wf(self) -> bool {
        &&& self.page_size >= 1
        &&& is_pow2(self.page_size)
        &&& if self.initialized {
            &&& 0 <= self.start <= self.byte_cursor <= self.page_cursor <= self.end
                <= usize::MAX as int
            &&& (self.outstanding == 0 ==> self.byte_cursor == self.start)
            &&& self.outstanding <= self.byte_cursor - self.start
            &&& (self.page_cursor == self.end || self.page_cursor % self.page_size == 0)
        } else {
            &&& self.start == 0
            &&& self.end == 0
            &&& self.byte_cursor == 0
            &&& self.page_cursor == 0
            &&& self.outstanding == 0
        }
    }
}

/// The page boundary a request for `num_pages` pages aligned to `align`
/// would move the page cursor to: the cursor minus the requested bytes,
/// rounded down to the larger of `align` and the page size (so the cursor
/// stays page-aligned even when the span's upper bound is not).
pub open spec fn page_candidate(m: AllocModel, num_pages: int, align: int) -> int {
    align_down(m.page_cursor - num_pages * m.page_size, vstd::math::max(align, m.page_size))
}

/// The candidate page boundary is a multiple of both the requested alignment
/// and the page size, and lies at or below the cursor the request starts from.
pub proof fn lemma_candidate_aligned(m: AllocModel, num_pages: int, align: int)
    requires
        m.wf(),
        is_pow2(align),
    ensures
        page_candidate(m, num_pages, align) % align == 0,
        page_candidate(m, num_pages, align) % m.page_size == 0,
        page_candidate(m, num_pages, align) <= m.page_cursor - num_pages * m.page_size,
{
    let maxa = vstd::math::max(align, m.page_size);
    let base = m.page_cursor - num_pages * m.page_size;
    lemma_is_pow2_pos(align);
    lemma_align_down(base, maxa);
    if align >= m.page_size {
        lemma_pow2_divides(m.page_size, maxa);
        lemma_mod_divides_trans(align_down(base, maxa), maxa, m.page_size);
    } else {
        lemma_pow2_divides(align, maxa);
        lemma_mod_divides_trans(align_down(base, maxa), maxa, align);
    }
}

/// A page request for more bytes than lie below the page cursor has its
/// candidate boundary below the byte cursor, so it must be refused.
pub proof fn lemma_candidate_below_cursor(m: AllocModel, num_pages: int, align: int)
    requires
        m.wf(),
        m.initialized,
        is_pow2(align),
        num_pages * m.page_size > m.page_cursor,
    ensures
        page_candidate(m, num_pages, align) < m.byte_cursor,
{
    lemma_is_pow2_pos(align);
    lemma_align_down(
        m.page_cursor - num_pages * m.page_size,
        vstd::math::max(align, m.page_size),
    );
}

/// An address in the used byte region `[start, byte_cursor)`.
pub open spec fn in_byte_region(m: AllocModel, a: int) -> bool {
    m.start <= a < m.byte_cursor
}

/// An address in the used page region `[page_cursor, end)`.
pub open spec fn in_page_region(m: AllocModel, a: int) -> bool {
    m.page_cursor <= a < m.end
}

/// Law: in a well-formed state the used byte region and the used page region
/// never intersect, so no byte allocation can overlap a page allocation.
pub proof fn lemma_regions_disjoint(m: AllocModel)
    requires
        m.wf(),
        m.initialized,
    ensures
        forall|a: int| in_byte_region(m, a) ==> !in_page_region(m, a),
{
}

/// Law: once every outstanding byte allocation has been released, the whole
/// byte region has been reclaimed and the byte cursor sits at `start` again.
pub proof fn lemma_bulk_reclaim(m: AllocModel)
    requires
        m.wf(),
        m.initialized,
        m.outstanding == 0,
    ensures
        m.byte_cursor == m.start,
{
}

/// Law: a well-formed initialized state keeps its cursors ordered between the
/// span bounds, so the two regions have not collided.
pub proof fn lemma_cursor_order(m: AllocModel)
    requires
        m.wf(),
        m.initialized,
    ensures
        m.start <= m.byte_cursor <= m.page_cursor <= m.end,
{
}

/// Early memory allocator, used before the permanent byte and page
/// allocators can work. Byte allocations grow forward from the bottom of the
/// span, page allocations grow backward from its top:
///
/// ```text
/// [ bytes-used | free gap | pages-used ]
/// start    byte_cursor  page_cursor  end
/// ```
pub struct EarlyAllocator<const PAGE_SIZE: usize> {
    initialized: bool,
    start: usize,
    end: usize,
    byte_pos: usize,
    page_pos: usize,
    count: usize,
    pagesize: usize,
}

impl<const PAGE_SIZE: usize> View for EarlyAllocator<PAGE_SIZE> {
    type V = AllocModel;

    closed spec fn view(&self) -> AllocModel {
        AllocModel {
            initialized: self.initialized,
            start: self.start as int,
            end: self.end as int,
            byte_cursor: self.byte_pos as int,
            page_cursor: self.page_pos as int,
            outstanding: self.count as nat,
            page_size: self.pagesize as int,
        }
    }
}

impl<const PAGE_SIZE: usize> EarlyAllocator<PAGE_SIZE> {
    /// Creates an allocator that does not yet own a span; `init` must bind
    /// one before any allocation.
    pub fn new() -> (r: Self)
        requires
            is_pow2(PAGE_SIZE as int),
        ensures
            r@.wf(),
            !r@.initialized,
            r@.page_size == PAGE_SIZE as int,
    {
        proof {
            lemma_is_pow2_pos(PAGE_SIZE as int);
        }
        EarlyAllocator {
            initialized: false,
            start: 0,
            end: 0,
            byte_pos: 0,
            page_pos: 0,
            count: 0,
            pagesize: PAGE_SIZE,
        }
    }

    /// Binds the managed span `[start, start + size)`, exactly once.
    ///
    /// A second call is rejected with `DoubleInit` and changes nothing; a
    /// zero-sized span or one whose upper bound does not fit in an address is
    /// rejected with `InvalidMemoryRegion`.
    pub fn init(&mut self, start: usize, size: usize) -> (r: Result<(), AllocError>)
        requires
            old(self)@.wf(),
        ensures
            final(self)@.wf(),
            final(self)@.page_size == old(self)@.page_size,
            old(self)@.initialized ==> r == Err::<(), AllocError>(AllocError::DoubleInit)
                && final(self)@ == old(self)@,
            !old(self)@.initialized && (size == 0 || start + size > usize::MAX as int)
                ==> r == Err::<(), AllocError>(AllocError::InvalidMemoryRegion)
                && final(self)@ == old(self)@,
            !old(self)@.initialized && size > 0 && start + size <= usize::MAX as int ==> {
                &&& r == Ok::<(), AllocError>(())
                &&& final(self)@ == (AllocModel {
                    initialized: true,
                    start: start as int,
                    end: start + size,
                    byte_cursor: start as int,
                    page_cursor: start + size,
                    outstanding: 0,
                    page_size: old(self)@.page_size,
                })
            },
    {
        if self.initialized {
            return Err(AllocError::DoubleInit);
        }
        if size == 0 || size > usize::MAX - start {
            return Err(AllocError::InvalidMemoryRegion);
        }
        self.initialized = true;
        self.start = start;
        self.end = start + size;
        self.byte_pos = start;
        self.page_pos = start + size;
        self.count = 0;
        Ok(())
    }

    /// Registers an additional span, merging it into the managed range.
    ///
    /// The minimal design supports one case: the new span `[start, start +
    /// size)` sits exactly at the current `end` and no page has been handed
    /// out yet, so the span and the page cursor both move up to the new upper
    /// bound. Any other span — zero-sized, not adjacent, overlapping, past
    /// the address range, or offered before `init` or after a page
    /// allocation — is rejected with `InvalidMemoryRegion` and changes
    /// nothing.
    pub fn add_memory(&mut self, start: usize, size: usize) -> (r: Result<(), AllocError>)
        requires
            old(self)@.wf(),
        ensures
            final(self)@.wf(),
            ({
                let usable = old(self)@.initialized && size > 0 && start == old(self)@.end
                    && old(self)@.page_cursor == old(self)@.end && start + size
                    <= usize::MAX as int;
                if usable {
                    &&& r == Ok::<(), AllocError>(())
                    &&& final(self)@ == (AllocModel {
                        end: old(self)@.end + size,
                        page_cursor: old(self)@.end + size,
                        ..old(self)@
                    })
                } else {
                    &&& r == Err::<(), AllocError>(AllocError::InvalidMemoryRegion)
                    &&& final(self)@ == old(self)@
                }
            }),
    {
        if !self.initialized || size == 0 || start != self.end || self.page_pos != self.end
            || size > usize::MAX - start {
            return Err(AllocError::InvalidMemoryRegion);
        }
        self.end = start + size;
        self.page_pos = self.end;
        Ok(())
    }

    /// Whether `init` has already bound this instance to a span; allocation
    /// before that point is a bootstrap sequencing error, and exhaustion can
    /// be told apart from a span that was never bound.
    pub fn is_initialized(&self) -> (r: bool)
        ensures
            r == self@.initialized,
    {
        self.initialized
    }

    /// Allocates `size` bytes aligned to `align`, bumping the byte cursor
    /// forward; pure forward bump, no reuse of freed holes.
    ///
    /// Returns the byte cursor rounded up to `align`, or `OutOfMemory` when
    /// the rounded request would cross into the page region.
    pub fn alloc_bytes(&mut self, size: usize, align: usize) -> (r: Result<usize, AllocError>)
        requires
            old(self)@.wf(),
            old(self)@.initialized,
            size > 0,
            is_pow2(align as int),
        ensures
            final(self)@.wf(),
            final(self)@.initialized,
            final(self)@.start == old(self)@.start,
            final(self)@.end == old(self)@.end,
            final(self)@.page_cursor == old(self)@.page_cursor,
            final(self)@.page_size == old(self)@.page_size,
            final(self)@.byte_cursor >= old(self)@.byte_cursor,
            ({
                let rounded = align_up(old(self)@.byte_cursor, align as int);
                if rounded + size <= old(self)@.page_cursor {
                    &&& r == Ok::<usize, AllocError>(rounded as usize)
                    &&& rounded % (align as int) == 0
                    &&& final(self)@.byte_cursor == rounded + size
                    &&& final(self)@.outstanding == old(self)@.outstanding + 1
                } else {
                    &&& r == Err::<usize, AllocError>(AllocError::OutOfMemory)
                    &&& final(self)@ == old(self)@
                }
            }),
    {
        proof {
            lemma_is_pow2_pos(align as int);
            lemma_align_up(self.byte_pos as int, align as int);
        }
        let rem: usize = self.byte_pos % align;
        let pad: usize = if rem == 0 {
            0
        } else {
            align - rem
        };
        let avail: usize = self.page_pos - self.byte_pos;
        if pad <= avail && size <= avail - pad {
            let addr: usize = self.byte_pos + pad;
            self.byte_pos = addr + size;
            self.count = self.count + 1;
            Ok(addr)
        } else {
            Err(AllocError::OutOfMemory)
        }
    }

    /// Releases one outstanding byte allocation. The pointer and layout are
    /// accepted for interface conformance only: byte memory is reclaimed in
    /// bulk, with the byte cursor reset to `start` exactly when the last
    /// outstanding allocation is released.
    pub fn dealloc(&mut self, _pos: usize, _size: usize, _align: usize)
        requires
            old(self)@.wf(),
            old(self)@.initialized,
            old(self)@.outstanding > 0,
        ensures
            final(self)@.wf(),
            final(self)@.initialized,
            final(self)@.start == old(self)@.start,
            final(self)@.end == old(self)@.end,
            final(self)@.page_cursor == old(self)@.page_cursor,
            final(self)@.page_size == old(self)@.page_size,
            final(self)@.outstanding == old(self)@.outstanding - 1,
            final(self)@.byte_cursor == if old(self)@.outstanding == 1 {
                old(self)@.start
            } else {
                old(self)@.byte_cursor
            },
            final(self)@.byte_cursor <= old(self)@.byte_cursor,
    {
        self.count = self.count - 1;
        if self.count == 0 {
            self.byte_pos = self.start;
        }
    }

    /// Capacity of the byte region: everything below the current page
    /// boundary, since pages may still encroach from above.
    pub fn total_bytes(&self) -> (r: usize)
        requires
            self@.wf(),
        ensures
            r == self@.page_cursor - self@.start,
    {
        self.page_pos - self.start
    }

    /// Bytes consumed by the used byte region, rounding padding included.
    pub fn used_bytes(&self) -> (r: usize)
        requires
            self@.wf(),
        ensures
            r == self@.byte_cursor - self@.start,
    {
        self.byte_pos - self.start
    }

    /// Bytes left in the free gap between the two regions.
    pub fn available_bytes(&self) -> (r: usize)
        requires
            self@.wf(),
        ensures
            r == self@.page_cursor - self@.byte_cursor,
    {
        self.page_pos - self.byte_pos
    }

    /// Allocates `num_pages` contiguous pages aligned to `align_pow2`,
    /// bumping the page cursor backward to the returned boundary.
    ///
    /// The candidate boundary is the page cursor minus the requested bytes,
    /// rounded down to the larger of `align_pow2` and the page size; when it
    /// would fall below the byte cursor the request fails with `OutOfMemory`.
    pub fn alloc_pages(&mut self, num_pages: usize, align_pow2: usize) -> (r: Result<
        usize,
        AllocError,
    >)
        requires
            old(self)@.wf(),
            old(self)@.initialized,
            num_pages > 0,
            is_pow2(align_pow2 as int),
        ensures
            final(self)@.wf(),
            final(self)@.initialized,
            final(self)@.start == old(self)@.start,
            final(self)@.end == old(self)@.end,
            final(self)@.byte_cursor == old(self)@.byte_cursor,
            final(self)@.outstanding == old(self)@.outstanding,
            final(self)@.page_size == old(self)@.page_size,
            final(self)@.page_cursor <= old(self)@.page_cursor,
            ({
                let cand = page_candidate(old(self)@, num_pages as int, align_pow2 as int);
                if cand >= old(self)@.byte_cursor {
                    &&& r == Ok::<usize, AllocError>(cand as usize)
                    &&& cand % (align_pow2 as int) == 0
                    &&& cand % old(self)@.page_size == 0
                    &&& final(self)@.page_cursor == cand
                } else {
                    &&& r == Err::<usize, AllocError>(AllocError::OutOfMemory)
                    &&& final(self)@ == old(self)@
                }
            }),
    {
        proof {
            lemma_is_pow2_pos(align_pow2 as int);
            lemma_candidate_aligned(self@, num_pages as int, align_pow2 as int);
        }
        let align: usize = if align_pow2 > self.pagesize {
            align_pow2
        } else {
            self.pagesize
        };
        let bytes: usize = match num_pages.checked_mul(self.pagesize) {
            Some(b) => b,
            None => {
                proof {
                    lemma_candidate_below_cursor(self@, num_pages as int, align_pow2 as int);
                }
                return Err(AllocError::OutOfMemory);
            },
        };
        if bytes > self.page_pos {
            proof {
                lemma_candidate_below_cursor(self@, num_pages as int, align_pow2 as int);
            }
            return Err(AllocError::OutOfMemory);
        }
        let base: usize = self.page_pos - bytes;
        proof {
            vstd::arithmetic::div_mod::lemma_mod_division_less_than_divisor(
                base as int,
                align as int,
            );
            if (base as int) < (align as int) {
                vstd::arithmetic::div_mod::lemma_small_mod(base as nat, align as nat);
            }
        }
        let cand_exec: usize = base - base % align;
        if cand_exec < self.byte_pos {
            Err(AllocError::OutOfMemory)
        } else {
            self.page_pos = cand_exec;
            Ok(cand_exec)
        }
    }

    /// Accepted for interface conformance only: pages handed out by this
    /// early path are never reclaimed, so the call changes nothing.
    pub fn dealloc_pages(&mut self, _start: usize, _num_pages: usize)
        requires
            old(self)@.wf(),
        ensures
            final(self)@ == old(self)@,
            final(self)@.wf(),
    {
    }

    /// Capacity of the page region in whole pages: everything above the
    /// current byte cursor, since byte allocations may still encroach from
    /// below.
    pub fn total_pages(&self) -> (r: usize)
        requires
            self@.wf(),
        ensures
            r == (self@.end - self@.byte_cursor) / self@.page_size,
    {
        (self.end - self.byte_pos) / self.pagesize
    }

    /// Whole pages consumed by the used page region.
    pub fn used_pages(&self) -> (r: usize)
        requires
            self@.wf(),
        ensures
            r == (self@.end - self@.page_cursor) / self@.page_size,
    {
        (self.end - self.page_pos) / self.pagesize
    }

    /// Whole pages left in the free gap between the two regions.
    pub fn available_pages(&self) -> (r: usize)
        requires
            self@.wf(),
        ensures
            r == (self@.page_cursor - self@.byte_cursor) / self@.page_size,
    {
        (self.page_pos - self.byte_pos) / self.pagesize
    }
}

} // verus!
