//! The allocation policy of the crate's bump allocator: a fixed heap that
//! hands out aligned, consecutive, never-reused blocks.
use vstd::prelude::*;

verus! {

/// Size in bytes of the bump allocator's heap.
pub const HEAP_SIZE: usize = 65536;

/// `a` is a power of two.
pub open spec fn is_power_of_two(a: usize) -> bool {
    a != 0 && a & ((a - 1) as usize) == 0
}

/// `x` is a multiple of the power of two `a`: the bits of `x` below `a`
/// are clear.
pub open spec fn is_aligned(x: usize, a: usize) -> bool {
    x & ((a - 1) as usize) == 0
}

/// `start` is the first address at or after `from` that is aligned to `a`.
pub open spec fn first_aligned_from(from: int, a: usize, start: usize) -> bool {
    &&& is_aligned(start, a)
    &&& from <= start < from + a
}

/// There is at most one aligned address in a window of `a` addresses.
pub proof fn lemma_first_aligned_unique(from: usize, a: usize, s: usize, t: usize)
    requires
        is_power_of_two(a),
        first_aligned_from(from as int, a, s),
        first_aligned_from(from as int, a, t),
    ensures
        s == t,
{
    assert(s == t) by (bit_vector)
        requires
            a != 0,
            a & ((a - 1) as usize) == 0,
            s & ((a - 1) as usize) == 0,
            t & ((a - 1) as usize) == 0,
            from <= s,
            s < from + a,
            from <= t,
            t < from + a,
    ;
}

/// `r` is the plan for a block of `size` bytes aligned to `a`, in the heap
/// starting at address `base`, when the cursor is at offset `next`: the
/// block's address is the first address at or after `base + next` that is
/// aligned to `a`, the plan gives the block's offset and the cursor just
/// past it, and it is `None` exactly when such a block would run past the
/// end of the heap.
pub open spec fn planned(
    base: usize,
    next: usize,
    size: usize,
    a: usize,
    r: Option<(usize, usize)>,
) -> bool {
    &&& r matches Some(p) ==> {
        &&& first_aligned_from(base + next, a, (base + p.0) as usize)
        &&& p.1 == p.0 + size
        &&& p.1 <= HEAP_SIZE
    }
    &&& r is None ==> forall|s: usize| #[trigger]
        first_aligned_from(base + next, a, s) ==> s + size > base + HEAP_SIZE
}

/// The bump allocator's placement rule. The allocator owns a heap of
/// [`HEAP_SIZE`] bytes and a cursor marking the first byte not yet handed
/// out; freeing does nothing.
pub struct Bump;

impl Bump {
    /// Plans one allocation of `size` bytes aligned to `align`, in the heap
    /// that starts at address `base`, given the cursor offset `next`. The
    /// block's address is the first address at or after `base + next`
    /// that is aligned to `align`; the result is the block's offset in the
    /// heap and the new cursor just past the block, or `None` when the block
    /// would run past the end of the heap.
    ///
    /// An `align` of zero is treated as one.
    pub fn reserve(base: usize, next: usize, size: usize, align: usize) -> (r: Option<(usize, usize)>)
        requires
            next <= HEAP_SIZE,
            base + HEAP_SIZE <= usize::MAX,
            align == 0 || is_power_of_two(align),
        ensures
            align == 0 ==> planned(base, next, size, 1, r),
            align != 0 ==> planned(base, next, size, align, r),
    {
        let align: usize = if align == 0 { 1 } else { align };
        assert(is_power_of_two(align)) by {
            assert(1usize & 0usize == 0) by (bit_vector);
        }
        let mask: usize = align - 1;
        let addr: usize = base + next;
        let sum: usize = match addr.checked_add(mask) {
            Some(sum) => sum,
            None => {
                assert forall|s: usize| #[trigger] first_aligned_from(addr as int, align, s) implies false by {
                    assert(((addr + mask) as usize) as int == addr + mask) by (bit_vector)
                        requires
                            align != 0,
                            align & ((align - 1) as usize) == 0,
                            mask == align - 1,
                            s & mask == 0,
                            addr <= s,
                    ;
                }
                return None;
            },
        };
        let aligned: usize = sum & !mask;
        assert(aligned & mask == 0 && addr <= aligned && aligned <= sum) by (bit_vector)
            requires
                align != 0,
                align & ((align - 1) as usize) == 0,
                mask == align - 1,
                sum == addr + mask,
                aligned == sum & !mask,
        ;
        assert(first_aligned_from(addr as int, align, aligned));
        assert forall|s: usize| #[trigger] first_aligned_from(addr as int, align, s) implies s == aligned by {
            lemma_first_aligned_unique(addr, align, s, aligned);
        }
        let start: usize = aligned - base;
        let end = match start.checked_add(size) {
            Some(end) => end,
            None => return None,
        };
        if end > HEAP_SIZE {
            return None;
        }
        Some((start, end))
    }
}

/// Two blocks of the same heap, the second planned from a cursor at or past
/// the end of the first, never overlap, and both lie inside the heap.
pub proof fn lemma_blocks_disjoint(
    base: usize,
    first_next: usize,
    first_size: usize,
    first_align: usize,
    first: (usize, usize),
    second_next: usize,
    second_size: usize,
    second_align: usize,
    second: (usize, usize),
)
    requires
        planned(base, first_next, first_size, first_align, Some(first)),
        planned(base, second_next, second_size, second_align, Some(second)),
        first.1 <= second_next,
    ensures
        first_next <= first.0 <= first.1 <= second.0 <= second.1 <= HEAP_SIZE,
{
}

} // verus!
