use vstd::prelude::*;

use crate::allocator::alloc_post;
use crate::allocator::Allocator;
use crate::allocator::GlobalAlloc;
use crate::layout::Layout;
use crate::memory::in_live_block;
use crate::memory::wiped;
use crate::memory::zero;
use crate::memory::Memory;

verus! {

/// The instance-scoped secure-erasure adapter: delegates every allocation
/// to the wrapped allocator unchanged, and on deallocation first overwrites
/// the whole block with zero bytes, then forwards the deallocation.  The
/// adapter holds no state of its own beyond the wrapped allocator, and any
/// conforming allocator may be wrapped — another adapter included.
pub struct ZeroizingAllocator<A: Allocator>(pub A);

/// The process-wide secure-erasure adapter: the same zero-then-forward
/// interception as [`ZeroizingAllocator`], but over the sentinel-failure,
/// process-wide allocator capability.  Already-zeroed allocation
/// (`alloc_zeroed`) is forwarded unchanged: zero memory on the allocation
/// path is the wrapped allocator's concern.
pub struct ZeroizingGlobalAllocator<A: GlobalAlloc>(pub A);

/// Law: a block given back through a zeroizing adapter reads as all zero
/// bytes, whatever was written into it while it was held.  `pre` is the
/// allocator before `allocate`, `at_alloc` right after it handed out the
/// block at `addr`, `held` the allocator at the moment the block is freed
/// — its bytes may have changed in any way in between — and `after` the
/// allocator once the adapter's deallocation returned.  Every byte of the
/// block then reads as zero, and every byte outside the block is exactly
/// as it stood at the free.
pub proof fn lemma_allocate_then_deallocate_reads_zero<M: Memory>(
    pre: M,
    at_alloc: M,
    held: M,
    after: M,
    addr: int,
    layout: Layout,
)
    requires
        alloc_post(pre, at_alloc, addr, layout),
        held.mem().len() == at_alloc.mem().len(),
        after.mem() == wiped(held.mem(), addr, layout.size as int),
    ensures
        forall|i: int| addr <= i < addr + layout.size ==> after.mem()[i] == 0u8,
        forall|i: int|
            0 <= i < after.mem().len() && !(addr <= i < addr + layout.size) ==> after.mem()[i]
                == held.mem()[i],
{
}

impl<A: Allocator> Memory for ZeroizingAllocator<A> {
    open spec fn wf(&self) -> bool {
        self.0.wf()
    }

    open spec fn mem(&self) -> Seq<u8> {
        self.0.mem()
    }

    open spec fn live(&self) -> Map<int, Layout> {
        self.0.live()
    }

    fn read_byte(&self, addr: usize) -> (b: u8) {
        self.0.read_byte(addr)
    }

    fn write_byte(&mut self, addr: usize, value: u8) {
        self.0.write_byte(addr, value)
    }

    proof fn live_blocks_in_bounds(&self) {
        self.0.live_blocks_in_bounds()
    }

    proof fn live_blocks_disjoint(&self) {
        self.0.live_blocks_disjoint()
    }
}

impl<A: Allocator> Allocator for ZeroizingAllocator<A> {
    /// Forwarded unchanged: nothing is zeroed on the allocation path.
    fn allocate(&mut self, layout: Layout) -> (r: Option<usize>) {
        self.0.allocate(layout)
    }

    /// Zero the block, then forward the deallocation.  Beyond the
    /// capability's own contract, the adapter guarantees that at return the
    /// memory is exactly the old memory with the freed block wiped: every
    /// byte that previously held caller data reads as zero.
    fn deallocate(&mut self, addr: usize, layout: Layout)
        ensures
            final(self).mem() == wiped(old(self).mem(), addr as int, layout.size as int),
    {
        proof {
            self.live_blocks_in_bounds();
            assert forall|i: int| addr <= i < addr + layout.size implies in_live_block(
                self.live(),
                i,
            ) by {
                assert(self.live().dom().contains(addr as int));
            }
        }
        zero(&mut self.0, addr, layout.size);
        self.0.deallocate(addr, layout);
    }
}

impl<A: GlobalAlloc> Memory for ZeroizingGlobalAllocator<A> {
    open spec fn wf(&self) -> bool {
        self.0.wf()
    }

    open spec fn mem(&self) -> Seq<u8> {
        self.0.mem()
    }

    open spec fn live(&self) -> Map<int, Layout> {
        self.0.live()
    }

    fn read_byte(&self, addr: usize) -> (b: u8) {
        self.0.read_byte(addr)
    }

    fn write_byte(&mut self, addr: usize, value: u8) {
        self.0.write_byte(addr, value)
    }

    proof fn live_blocks_in_bounds(&self) {
        self.0.live_blocks_in_bounds()
    }

    proof fn live_blocks_disjoint(&self) {
        self.0.live_blocks_disjoint()
    }
}

impl<A: GlobalAlloc> GlobalAlloc for ZeroizingGlobalAllocator<A> {
    /// Forwarded unchanged: nothing is zeroed on the allocation path.
    fn alloc_raw(&mut self, layout: Layout) -> (addr: usize) {
        self.0.alloc_raw(layout)
    }

    /// Zero the block, then forward the deallocation, exactly as the
    /// scoped adapter does: at return the memory is the old memory with the
    /// freed block wiped.
    fn dealloc(&mut self, addr: usize, layout: Layout)
        ensures
            final(self).mem() == wiped(old(self).mem(), addr as int, layout.size as int),
    {
        proof {
            self.live_blocks_in_bounds();
            assert forall|i: int| addr <= i < addr + layout.size implies in_live_block(
                self.live(),
                i,
            ) by {
                assert(self.live().dom().contains(addr as int));
            }
        }
        zero(&mut self.0, addr, layout.size);
        self.0.dealloc(addr, layout);
    }

    /// Forwarded unchanged: already-zero memory on the allocation path is
    /// the wrapped allocator's concern, not this adapter's.
    fn alloc_zeroed(&mut self, layout: Layout) -> (addr: usize) {
        self.0.alloc_zeroed(layout)
    }
}

} // verus!
