use vstd::prelude::*;

use vstd::arithmetic::div_mod::lemma_fundamental_div_mod;
use vstd::arithmetic::div_mod::lemma_mod_multiples_basic;
use vstd::pervasive::VecAdditionalExecFns;

use crate::allocator::Allocator;
use crate::allocator::GlobalAlloc;
use crate::layout::Layout;
use crate::memory::in_live_block;
use crate::memory::ranges_disjoint;
use crate::memory::zero;
use crate::memory::Memory;

verus! {

/// An arena allocator meant to stand under the zeroizing adapters: blocks
/// are carved out of a fixed byte arena at increasing addresses, and freed
/// blocks are never reused, so a block can still be read after it was
/// freed — which is how the zero-on-free guarantee is observed.
///
/// Address 0 is never handed out; it stays available as the failure
/// sentinel of the process-wide interface.  A zero-sized block reserves one
/// arena byte, so every block keeps an address of its own.
pub struct BumpAllocator {
    data: Vec<u8>,
    next: usize,
    blocks: Ghost<Map<int, Layout>>,
}

/// The smallest address at or above `n` that is a multiple of `a`.
pub open spec fn align_up(n: int, a: int) -> int {
    if n % a == 0 {
        n
    } else {
        n + (a - n % a)
    }
}

/// How many arena bytes a block for `layout` takes: its size, except that
/// a zero-sized block reserves one byte so that it keeps a distinct
/// address.
pub open spec fn reserve_size(layout: Layout) -> int {
    if layout.size == 0 {
        1
    } else {
        layout.size as int
    }
}

impl BumpAllocator {
    /// Every live block sits above the sentinel address and wholly below
    /// the allocation mark, and no two live blocks overlap.
    pub closed spec fn inv(self) -> bool {
        &&& 1 <= self.next <= self.data.len()
        &&& forall|s: int| #[trigger]
            self.blocks@.dom().contains(s) ==> 1 <= s < self.next && s + self.blocks@[s].size
                <= self.next
        &&& forall|s1: int, s2: int|
            #![trigger self.blocks@.dom().contains(s1), self.blocks@.dom().contains(s2)]
            self.blocks@.dom().contains(s1) && self.blocks@.dom().contains(s2) && s1 != s2
                ==> ranges_disjoint(
                s1,
                self.blocks@[s1].size as int,
                s2,
                self.blocks@[s2].size as int,
            )
    }

    /// Where the next block will be carved out: everything below this mark
    /// is already spoken for, everything from it up to the arena's end is
    /// still free.
    pub closed spec fn mark(&self) -> int {
        self.next as int
    }

    /// A fresh arena of `capacity` zero bytes with no live block.
    pub fn new(capacity: usize) -> (r: BumpAllocator)
        requires
            1 <= capacity,
        ensures
            r.wf(),
            r.mem().len() == capacity,
            r.live() == Map::<int, Layout>::empty(),
            r.mark() == 1,
            forall|i: int| 0 <= i < capacity ==> r.mem()[i] == 0u8,
    {
        let mut data: Vec<u8> = Vec::new();
        while data.len() < capacity
            invariant
                data@.len() <= capacity,
                forall|i: int| 0 <= i < data@.len() ==> data@[i] == 0u8,
            decreases capacity - data@.len(),
        {
            data.push(0u8);
        }
        BumpAllocator { data, next: 1, blocks: Ghost(Map::empty()) }
    }
}

impl Memory for BumpAllocator {
    closed spec fn wf(&self) -> bool {
        self.inv()
    }

    closed spec fn mem(&self) -> Seq<u8> {
        self.data@
    }

    closed spec fn live(&self) -> Map<int, Layout> {
        self.blocks@
    }

    fn read_byte(&self, addr: usize) -> (b: u8) {
        self.data[addr]
    }

    fn write_byte(&mut self, addr: usize, value: u8) {
        self.data.set(addr, value);
    }

    proof fn live_blocks_in_bounds(&self) {
    }

    proof fn live_blocks_disjoint(&self) {
    }
}

impl Allocator for BumpAllocator {
    /// Succeeds exactly when the aligned block still fits into the arena;
    /// the new block starts at the aligned mark and the mark moves past it.
    fn allocate(&mut self, layout: Layout) -> (r: Option<usize>)
        ensures
            match r {
                Some(addr) => {
                    &&& addr == align_up(old(self).mark(), layout.align as int)
                    &&& final(self).mark() == addr + reserve_size(layout)
                    &&& final(self).mem() == old(self).mem()
                },
                None => {
                    &&& align_up(old(self).mark(), layout.align as int) + reserve_size(layout)
                        > old(self).mem().len()
                    &&& final(self).mark() == old(self).mark()
                },
            },
    {
        let len: usize = self.data.len();
        let rem: usize = self.next % layout.align;
        let pad: usize = if rem == 0 {
            0
        } else {
            layout.align - rem
        };
        if pad > len - self.next {
            return None;
        }
        let addr: usize = self.next + pad;
        let needed: usize = if layout.size == 0 {
            1
        } else {
            layout.size
        };
        if needed > len - addr {
            return None;
        }
        proof {
            let a = layout.align as int;
            let n = self.next as int;
            if rem != 0 {
                lemma_fundamental_div_mod(n, a);
                let q = n / a;
                assert(addr as int == (q + 1) * a) by (nonlinear_arith)
                    requires
                        n == a * q + rem,
                        addr == n + a - rem,
                ;
                lemma_mod_multiples_basic(q + 1, a);
            }
        }
        self.next = addr + needed;
        self.blocks = Ghost(self.blocks@.insert(addr as int, layout));
        Some(addr)
    }

    /// Only forgets the block: the arena's bytes are left exactly as they
    /// are, so a freed block can still be read.
    fn deallocate(&mut self, addr: usize, layout: Layout)
        ensures
            final(self).mem() == old(self).mem(),
            final(self).mark() == old(self).mark(),
    {
        self.blocks = Ghost(self.blocks@.remove(addr as int));
    }
}

impl GlobalAlloc for BumpAllocator {
    /// Succeeds exactly when the aligned block still fits into the arena.
    fn alloc_raw(&mut self, layout: Layout) -> (addr: usize)
        ensures
            addr != 0 ==> addr == align_up(old(self).mark(), layout.align as int)
                && final(self).mark() == addr + reserve_size(layout)
                && final(self).mem() == old(self).mem(),
            addr == 0 ==> align_up(old(self).mark(), layout.align as int) + reserve_size(layout)
                > old(self).mem().len() && final(self).mark() == old(self).mark(),
    {
        match self.allocate(layout) {
            Some(a) => a,
            None => 0,
        }
    }

    /// Only forgets the block: the arena's bytes are left exactly as they
    /// are, so a freed block can still be read.
    fn dealloc(&mut self, addr: usize, layout: Layout)
        ensures
            final(self).mem() == old(self).mem(),
            final(self).mark() == old(self).mark(),
    {
        self.deallocate(addr, layout);
    }

    /// Succeeds exactly when the aligned block still fits into the arena.
    fn alloc_zeroed(&mut self, layout: Layout) -> (addr: usize)
        ensures
            addr != 0 ==> addr == align_up(old(self).mark(), layout.align as int),
            addr == 0 ==> align_up(old(self).mark(), layout.align as int) + reserve_size(layout)
                > old(self).mem().len() && final(self).mark() == old(self).mark(),
    {
        let a: usize = self.alloc_raw(layout);
        if a == 0 {
            return 0;
        }
        proof {
            self.live_blocks_in_bounds();
            assert forall|i: int| a <= i < a + layout.size implies in_live_block(
                self.live(),
                i,
            ) by {
                assert(self.live().dom().contains(a as int));
            }
        }
        zero(self, a, layout.size);
        a
    }
}

} // verus!
