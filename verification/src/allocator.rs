use vstd::prelude::*;

use crate::layout::Layout;
use crate::memory::Memory;
use crate::memory::ranges_disjoint;

verus! {

/// Does the half-open range `[addr, addr + size)` avoid every live block of
/// `live`?
pub open spec fn range_free(live: Map<int, Layout>, addr: int, size: int) -> bool {
    forall|s: int| #[trigger]
        live.dom().contains(s) ==> ranges_disjoint(s, live[s].size as int, addr, size)
}

/// What a successful allocation must provide, `pre` being the allocator
/// before the call and `post` after it: a block at a nonzero, aligned
/// address, inside the arena, disjoint from every block that was live
/// before, now recorded as live with its descriptor; no byte outside the
/// new block is touched and the arena keeps its size.  Nothing is said of
/// the bytes inside the new block: allocation does not initialize them.
pub open spec fn alloc_post<M: Memory>(pre: M, post: M, addr: int, layout: Layout) -> bool {
    &&& 0 < addr
    &&& addr + layout.size <= post.mem().len()
    &&& addr % (layout.align as int) == 0
    &&& !pre.live().dom().contains(addr)
    &&& range_free(pre.live(), addr, layout.size as int)
    &&& post.live() == pre.live().insert(addr, layout)
    &&& post.mem().len() == pre.mem().len()
    &&& forall|i: int|
        0 <= i < post.mem().len() && !(addr <= i < addr + layout.size) ==> post.mem()[i]
            == pre.mem()[i]
}

/// What every deallocation must provide: the block is no longer live, no
/// byte outside it is touched, and into the block itself the allocator may
/// have written nothing but zero bytes — freeing must never plant fresh
/// non-zero content in the freed block.
pub open spec fn dealloc_post<M: Memory>(pre: M, post: M, addr: int, size: int) -> bool {
    &&& post.live() == pre.live().remove(addr)
    &&& post.mem().len() == pre.mem().len()
    &&& forall|i: int|
        0 <= i < post.mem().len() && !(addr <= i < addr + size) ==> post.mem()[i] == pre.mem()[i]
    &&& forall|i: int|
        addr <= i < addr + size ==> post.mem()[i] == pre.mem()[i] || post.mem()[i] == 0u8
}

/// The composable, instance-scoped allocator capability: allocation reports
/// failure by a structured `None`, deallocation requires the exact address
/// and descriptor of a live block of this allocator.
pub trait Allocator: Memory {
    /// Obtain a block for `layout`, or `None` when the request cannot be
    /// satisfied, in which case nothing changes.
    fn allocate(&mut self, layout: Layout) -> (r: Option<usize>)
        requires
            old(self).wf(),
            layout.valid(),
        ensures
            final(self).wf(),
            match r {
                Some(addr) => alloc_post(*old(self), *final(self), addr as int, layout),
                None => final(self).mem() == old(self).mem() && final(self).live() == old(
                    self,
                ).live(),
            },
    ;

    /// Give the block at `addr` back.  It must be live and `layout` must be
    /// the descriptor it was allocated with.
    fn deallocate(&mut self, addr: usize, layout: Layout)
        requires
            old(self).wf(),
            old(self).live().dom().contains(addr as int),
            old(self).live()[addr as int] == layout,
        ensures
            final(self).wf(),
            dealloc_post(*old(self), *final(self), addr as int, layout.size as int),
    ;
}

/// The process-wide allocator capability: the same operations as
/// [`Allocator`], but failure is reported by the sentinel address 0 rather
/// than by a structured value, and a zero-initialized allocation path is
/// offered as well.
pub trait GlobalAlloc: Memory {
    /// Obtain a block for `layout`; the sentinel 0 signals failure, in
    /// which case nothing changes.
    fn alloc_raw(&mut self, layout: Layout) -> (addr: usize)
        requires
            old(self).wf(),
            layout.valid(),
        ensures
            final(self).wf(),
            addr == 0 ==> final(self).mem() == old(self).mem() && final(self).live() == old(
                self,
            ).live(),
            addr != 0 ==> alloc_post(*old(self), *final(self), addr as int, layout),
    ;

    /// Give the block at `addr` back.  It must be live and `layout` must be
    /// the descriptor it was allocated with.
    fn dealloc(&mut self, addr: usize, layout: Layout)
        requires
            old(self).wf(),
            old(self).live().dom().contains(addr as int),
            old(self).live()[addr as int] == layout,
        ensures
            final(self).wf(),
            dealloc_post(*old(self), *final(self), addr as int, layout.size as int),
    ;

    /// Like `alloc_raw`, but every byte of the returned block reads as zero.
    fn alloc_zeroed(&mut self, layout: Layout) -> (addr: usize)
        requires
            old(self).wf(),
            layout.valid(),
        ensures
            final(self).wf(),
            addr == 0 ==> final(self).mem() == old(self).mem() && final(self).live() == old(
                self,
            ).live(),
            addr != 0 ==> alloc_post(*old(self), *final(self), addr as int, layout),
            addr != 0 ==> forall|i: int|
                addr <= i < addr + layout.size ==> final(self).mem()[i] == 0u8,
    ;
}

} // verus!
