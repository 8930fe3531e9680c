//! Address predicates: where a byte, or a whole range of bytes, lies relative to
//! the threshold `2^31 - 1`, comparing only the low 32 bits of each address.
use vstd::prelude::*;
use vstd::arithmetic::div_mod::{lemma_add_mod_noop, lemma_small_mod};
use crate::Layout;

verus! {

/// The largest address (after truncation to 32 bits) that no returned byte may hold.
pub const THRESHOLD: u64 = 0x7fff_ffff;

/// The size of the 32-bit address space that addresses are truncated to.
pub const WRAP: u64 = 0x1_0000_0000;

/// A byte at address `a` is above the threshold when its low 32 bits exceed `2^31 - 1`.
pub open spec fn above_threshold(a: int) -> bool {
    a % (WRAP as int) > THRESHOLD as int
}

/// Every byte of the range `[a, a + size)` is above the threshold.
pub open spec fn range_above(a: int, size: int) -> bool {
    forall|i: int| 0 <= i < size ==> #[trigger] above_threshold(a + i)
}

/// Neither the first nor the last byte of `[a, a + size)` is above the threshold.
pub open spec fn range_below(a: int, size: int) -> bool {
    !above_threshold(a) && !above_threshold(a + size - 1)
}

/// Whether the byte at `ptr` lies above the threshold.
pub fn pointer_above_2g(ptr: usize) -> (r: bool)
    ensures
        r == above_threshold(ptr as int),
{
    let low: u64 = (ptr as u64) % WRAP;
    low > THRESHOLD
}

/// Whether neither the first nor the last byte of a block of `layout.size` bytes
/// at `ptr` lies above the threshold.
pub fn alloc_fully_below_2g(ptr: usize, layout: Layout) -> (r: bool)
    requires
        layout.size >= 1,
    ensures
        r == range_below(ptr as int, layout.size as int),
{
    let low: u64 = (ptr as u64) % WRAP;
    let last: u64 = (low + ((layout.size - 1) as u64) % WRAP) % WRAP;
    proof {
        lemma_add_mod_noop(ptr as int, layout.size - 1, WRAP as int);
    }
    low <= THRESHOLD && last <= THRESHOLD
}

/// Whether every byte of a block of `layout.size` bytes at `ptr` lies above the
/// threshold. An empty block trivially does.
pub fn alloc_fully_above_2g(ptr: usize, layout: Layout) -> (r: bool)
    ensures
        r == range_above(ptr as int, layout.size as int),
{
    if layout.size == 0 {
        return true;
    }
    let low: u64 = (ptr as u64) % WRAP;
    let span: u64 = (layout.size - 1) as u64;
    let r = low > THRESHOLD && span <= (WRAP - 1) - low;
    proof {
        let w = WRAP as int;
        if r {
            assert forall|i: int| 0 <= i < layout.size as int implies #[trigger] above_threshold(
                ptr as int + i,
            ) by {
                lemma_add_mod_noop(ptr as int, i, w);
                lemma_small_mod(i as nat, w as nat);
                lemma_small_mod((low + i) as nat, w as nat);
            }
        } else if low <= THRESHOLD {
            assert(!above_threshold(ptr as int + 0));
        } else {
            let i = w - low;
            lemma_add_mod_noop(ptr as int, i, w);
            lemma_small_mod(i as nat, w as nat);
            assert((low + i) % w == 0);
            assert(!above_threshold(ptr as int + i));
        }
    }
    r
}

} // verus!
