//! A fixed-size bump arena: one cursor that only moves forward.

use vstd::arithmetic::div_mod::lemma_fundamental_div_mod_converse;
use vstd::arithmetic::div_mod::lemma_fundamental_div_mod;
use vstd::arithmetic::power2::{
    lemma2_to64, lemma2_to64_rest, lemma_pow2_adds, lemma_pow2_strictly_increases, lemma_pow2_unfold,
    pow2,
};
use vstd::bits::{lemma_usize_low_bits_mask_is_mod, low_bits_mask};
use vstd::prelude::*;

verus! {

/// Number of bytes the arena hands out over its whole life.
pub const HEAP_SIZE: usize = 100 * 1024;

/// `n` has exactly one bit set.
pub open spec fn is_power_of_two(n: usize) -> bool {
    n != 0 && n & ((n - 1) as usize) == 0
}

/// The smallest multiple of `align` that is not below `addr`.
pub open spec fn align_up_spec(addr: int, align: int) -> int {
    if addr % align == 0 {
        addr
    } else {
        addr - addr % align + align
    }
}

proof fn lemma_half_of_power_of_two(n: usize)
    by (bit_vector)
    requires
        n != 0 && n & ((n - 1) as usize) == 0,
        n != 1,
    ensures
        n % 2 == 0,
        n / 2 != 0,
        (n / 2) & ((n / 2 - 1) as usize) == 0,
{
}

/// A number with one bit set is two raised to the position of that bit.
pub proof fn lemma_power_of_two_exponent(n: usize) -> (e: nat)
    requires
        is_power_of_two(n),
    ensures
        e < usize::BITS,
        n == pow2(e),
    decreases n,
{
    lemma2_to64();
    lemma2_to64_rest();
    if n == 1 {
        0
    } else {
        lemma_half_of_power_of_two(n);
        let half = (n / 2) as usize;
        let e = lemma_power_of_two_exponent(half);
        lemma_pow2_unfold(e + 1);
        if e + 1 >= usize::BITS {
            lemma_pow2_strictly_increases(e, (usize::BITS - 1) as nat);
        }
        e + 1
    }
}

proof fn lemma_clear_low_bits(x: usize, mask: usize)
    by (bit_vector)
    ensures
        x & !mask == x - (x & mask),
{
}

/// Clearing the bits below a power of two rounds down to a multiple of it.
proof fn lemma_mask_rounds_down(x: usize, align: usize)
    requires
        is_power_of_two(align),
    ensures
        x & !((align - 1) as usize) == x - x % align,
{
    let e = lemma_power_of_two_exponent(align);
    lemma_usize_low_bits_mask_is_mod(x, e);
    assert(low_bits_mask(e) as usize == (align - 1) as usize);
    lemma_clear_low_bits(x, (align - 1) as usize);
}

/// `align_up_spec` picks the one multiple of `align` in `[addr, addr + align)`.
pub proof fn lemma_align_up_spec(addr: int, align: int)
    requires
        0 <= addr,
        0 < align,
    ensures
        align_up_spec(addr, align) % align == 0,
        addr <= align_up_spec(addr, align) < addr + align,
        align_up_spec(addr, align) == (addr + align - 1) - (addr + align - 1) % align,
{
    let q = addr / align;
    let r = addr % align;
    lemma_fundamental_div_mod(addr, align);
    if r == 0 {
        lemma_fundamental_div_mod_converse(addr + align - 1, align, q, align - 1);
    } else {
        assert((q + 1) * align == q * align + align) by (nonlinear_arith);
        lemma_fundamental_div_mod_converse(addr + align - 1, align, q + 1, r - 1);
        lemma_fundamental_div_mod_converse(addr - r + align, align, q + 1, 0);
    }
}

/// Where `addr + align - 1` leaves the address space, so does the rounded
/// address: the address space ends on a multiple of every power of two.
pub proof fn lemma_align_up_overflow(addr: usize, align: usize)
    requires
        is_power_of_two(align),
        addr + align - 1 > usize::MAX,
    ensures
        align_up_spec(addr as int, align as int) > usize::MAX,
{
    let e = lemma_power_of_two_exponent(align);
    let rest = (usize::BITS - e) as nat;
    lemma2_to64();
    lemma2_to64_rest();
    lemma_pow2_adds(e, rest);
    let limit = usize::MAX + 1;
    assert(limit == pow2(e + rest));
    let count = pow2(rest) as int;
    assert(limit == align * count);
    let next = align_up_spec(addr as int, align as int);
    lemma_align_up_spec(addr as int, align as int);
    lemma_fundamental_div_mod(next, align as int);
    let index = next / (align as int);
    if next <= usize::MAX {
        assert(index + 1 <= count) by (nonlinear_arith)
            requires
                align * index < align * count,
                align > 0,
        ;
        assert(align * (index + 1) <= align * count) by (nonlinear_arith)
            requires
                index + 1 <= count,
                align > 0,
        ;
        assert(align * (index + 1) == align * index + align) by (nonlinear_arith);
    }
}

/// Rounds `addr` up to the next multiple of `align`.
pub fn align_up(addr: usize, align: usize) -> (aligned: usize)
    requires
        is_power_of_two(align),
        addr + align - 1 <= usize::MAX,
    ensures
        aligned == align_up_spec(addr as int, align as int),
{
    let bumped = addr + (align - 1);
    proof {
        lemma_mask_rounds_down(bumped, align);
        lemma_align_up_spec(addr as int, align as int);
    }
    bumped & !(align - 1)
}

/// What a caller asks of the arena: a number of bytes and the alignment of
/// their first address.
#[derive(Clone, Copy, Debug, PartialEq, Eq, Structural)]
pub struct Layout {
    pub size: usize,
    pub align: usize,
}

impl Layout {
    /// The alignment is a power of two; the arena defines nothing for others.
    pub open spec fn wf(self) -> bool {
        is_power_of_two(self.align)
    }

    /// Builds a request, or `None` when `align` is not a power of two.
    pub fn from_size_align(size: usize, align: usize) -> (layout: Option<Layout>)
        ensures
            layout == if is_power_of_two(align) {
                Some(Layout { size, align })
            } else {
                None
            },
    {
        if align != 0 && align & (align - 1) == 0 {
            Some(Layout { size, align })
        } else {
            None
        }
    }
}

/// The arena: `HEAP_SIZE` bytes starting at `heap_start`, of which the first
/// `offset` are given away.
#[derive(Clone, Copy, Debug, PartialEq, Eq, Structural)]
pub struct DummyAllocator {
    pub heap_start: usize,
    pub offset: usize,
}

impl DummyAllocator {
    /// The cursor stays inside the region, and the region inside the address
    /// space.
    pub open spec fn wf(self) -> bool {
        &&& self.offset <= HEAP_SIZE
        &&& self.heap_start + HEAP_SIZE <= usize::MAX
    }

    /// First address past the region.
    pub open spec fn heap_end(self) -> int {
        self.heap_start + HEAP_SIZE
    }

    /// First address that has not been given away.
    pub open spec fn cursor(self) -> int {
        self.heap_start + self.offset
    }

    /// Address that a request for `layout` would get.
    pub open spec fn next_address(self, layout: Layout) -> int {
        align_up_spec(self.cursor(), layout.align as int)
    }

    /// The request fits between the cursor and the end of the region.
    pub open spec fn fits(self, layout: Layout) -> bool {
        self.next_address(layout) + layout.size <= self.heap_end()
    }

    /// The arena once `layout` has been asked of it: the cursor stands behind
    /// the new block, or where it stood if the block does not fit.
    pub open spec fn after_alloc(self, layout: Layout) -> DummyAllocator {
        if self.fits(layout) {
            DummyAllocator {
                heap_start: self.heap_start,
                offset: (self.next_address(layout) + layout.size - self.heap_start) as usize,
            }
        } else {
            self
        }
    }

    /// What a request for `layout` returns.
    pub open spec fn alloc_result(self, layout: Layout) -> Option<usize> {
        if self.fits(layout) {
            Some(self.next_address(layout) as usize)
        } else {
            None
        }
    }

    /// The arena once the first `n` of `layouts` have been asked of it, in
    /// order.
    pub open spec fn after_requests(self, layouts: Seq<Layout>, n: nat) -> DummyAllocator
        decreases n,
    {
        if n == 0 {
            self
        } else {
            self.after_requests(layouts, (n - 1) as nat).after_alloc(layouts[n - 1])
        }
    }

    /// What the request `layouts[i]` returns when `layouts` are asked in order.
    pub open spec fn nth_result(self, layouts: Seq<Layout>, i: int) -> Option<usize> {
        self.after_requests(layouts, i as nat).alloc_result(layouts[i])
    }

    /// An arena that has not been given its region yet.
    pub fn new() -> (arena: DummyAllocator)
        ensures
            arena == (DummyAllocator { heap_start: 0, offset: 0 }),
            arena.wf(),
    {
        DummyAllocator { heap_start: 0, offset: 0 }
    }

    /// Tells whether the cursor and the region are where they may be.
    pub fn is_wf(&self) -> (ok: bool)
        ensures
            ok == self.wf(),
    {
        self.offset <= HEAP_SIZE && self.heap_start <= usize::MAX - HEAP_SIZE
    }

    /// Reserves `layout.size` bytes at the next address that is a multiple of
    /// `layout.align` and returns that address, or returns `None` and leaves
    /// the arena as it was when the block would end past the region.
    pub fn allocate(&mut self, layout: Layout) -> (ptr: Option<usize>)
        requires
            old(self).wf(),
            layout.wf(),
        ensures
            ptr == old(self).alloc_result(layout),
            *final(self) == old(self).after_alloc(layout),
            final(self).wf(),
    {
        let heap_end = self.heap_start + HEAP_SIZE;
        let cursor = self.heap_start + self.offset;
        if layout.align - 1 > usize::MAX - cursor {
            proof {
                lemma_align_up_overflow(cursor, layout.align);
            }
            return None;
        }
        let aligned_offset = align_up(cursor, layout.align);
        proof {
            lemma_align_up_spec(cursor as int, layout.align as int);
        }
        if aligned_offset > heap_end || layout.size > heap_end - aligned_offset {
            return None;
        }
        let new_offset = aligned_offset + layout.size;
        self.offset = new_offset - self.heap_start;
        Some(aligned_offset)
    }

    /// Takes a block back. The arena never reuses memory, so nothing changes.
    pub fn dealloc(&mut self, ptr: usize, layout: Layout)
        ensures
            *final(self) == *old(self),
    {
    }
}

/// Every request in `layouts` names a power of two as its alignment.
pub open spec fn all_wf(layouts: Seq<Layout>) -> bool {
    forall|k: int| 0 <= k < layouts.len() ==> (#[trigger] layouts[k]).wf()
}

/// A block that the arena hands out starts at or behind the cursor, on a
/// multiple of its alignment, and ends inside the region, where the cursor
/// then stands. A request that is refused leaves the arena as it was.
pub proof fn lemma_block_placement(arena: DummyAllocator, layout: Layout)
    requires
        arena.wf(),
        layout.wf(),
    ensures
        arena.after_alloc(layout).wf(),
        arena.after_alloc(layout).heap_start == arena.heap_start,
        arena.after_alloc(layout).offset >= arena.offset,
        arena.alloc_result(layout) is None <==> !arena.fits(layout),
        arena.alloc_result(layout) is None ==> arena.after_alloc(layout) == arena,
        arena.alloc_result(layout) matches Some(ptr) ==> {
            &&& arena.cursor() <= ptr
            &&& ptr % layout.align == 0
            &&& ptr + layout.size == arena.after_alloc(layout).cursor()
            &&& ptr + layout.size <= arena.heap_end()
            &&& layout.size > 0 ==> ptr < arena.heap_end()
        },
{
    lemma_align_up_spec(arena.cursor(), layout.align as int);
}

/// Serving requests never moves the region and never moves the cursor back.
pub proof fn lemma_requests_monotone(arena: DummyAllocator, layouts: Seq<Layout>, m: nat, n: nat)
    requires
        arena.wf(),
        all_wf(layouts),
        m <= n <= layouts.len(),
    ensures
        arena.after_requests(layouts, n).wf(),
        arena.after_requests(layouts, n).heap_start == arena.heap_start,
        arena.after_requests(layouts, m).offset <= arena.after_requests(layouts, n).offset,
    decreases n,
{
    if n > 0 {
        let before = (n - 1) as nat;
        lemma_requests_monotone(arena, layouts, if m < n { m } else { before }, before);
        lemma_block_placement(arena.after_requests(layouts, before), layouts[n - 1]);
    }
}

/// Whatever requests came before, every block handed out lies inside the
/// region `[heap_start, heap_start + HEAP_SIZE)` on a multiple of its
/// alignment, and a refused request leaves the arena to the later ones as the
/// earlier ones left it.
pub proof fn lemma_nth_block_in_region(arena: DummyAllocator, layouts: Seq<Layout>, i: int)
    requires
        arena.wf(),
        all_wf(layouts),
        0 <= i < layouts.len(),
    ensures
        arena.nth_result(layouts, i) is None ==> arena.after_requests(layouts, (i + 1) as nat)
            == arena.after_requests(layouts, i as nat),
        arena.nth_result(layouts, i) matches Some(ptr) ==> {
            &&& arena.heap_start <= ptr
            &&& ptr % layouts[i].align == 0
            &&& ptr + layouts[i].size <= arena.heap_start + HEAP_SIZE
            &&& layouts[i].size > 0 ==> ptr < arena.heap_start + HEAP_SIZE
        },
{
    lemma_requests_monotone(arena, layouts, 0, i as nat);
    lemma_block_placement(arena.after_requests(layouts, i as nat), layouts[i]);
}

/// Two blocks handed out by one arena never overlap: the later one starts at
/// or behind the end of the earlier one.
pub proof fn lemma_blocks_disjoint(arena: DummyAllocator, layouts: Seq<Layout>, i: int, j: int)
    requires
        arena.wf(),
        all_wf(layouts),
        0 <= i < j < layouts.len(),
        arena.nth_result(layouts, i) is Some,
        arena.nth_result(layouts, j) is Some,
    ensures
        arena.nth_result(layouts, i)->0 + layouts[i].size <= arena.nth_result(layouts, j)->0,
{
    lemma_requests_monotone(arena, layouts, 0, i as nat);
    lemma_block_placement(arena.after_requests(layouts, i as nat), layouts[i]);
    lemma_requests_monotone(arena, layouts, (i + 1) as nat, j as nat);
    lemma_block_placement(arena.after_requests(layouts, j as nat), layouts[j]);
}

/// Gives the arena its region, which starts at `offset`, and empties it.
pub fn init_heap(arena: &mut DummyAllocator, offset: usize)
    requires
        offset + HEAP_SIZE <= usize::MAX,
    ensures
        *final(arena) == (DummyAllocator { heap_start: offset, offset: 0 }),
        final(arena).wf(),
{
    arena.heap_start = offset;
    arena.offset = 0;
}

} // verus!
