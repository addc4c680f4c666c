use vstd::prelude::*;

use crate::layout::Layout;

verus! {

/// Is `addr` inside one of the live blocks of `live` (a map from a block's
/// starting address to the descriptor it was allocated with)?
pub open spec fn in_live_block(live: Map<int, Layout>, addr: int) -> bool {
    exists|s: int| #[trigger] live.dom().contains(s) && s <= addr < s + live[s].size
}

/// Do the half-open ranges `[a, a + alen)` and `[b, b + blen)` share no
/// address?  An empty range is disjoint from every range it does not split.
pub open spec fn ranges_disjoint(a: int, alen: int, b: int, blen: int) -> bool {
    a + alen <= b || b + blen <= a
}

/// `mem` with every byte of `[addr, addr + count)` overwritten by zero and
/// every other byte kept.
pub open spec fn wiped(mem: Seq<u8>, addr: int, count: int) -> Seq<u8> {
    Seq::new(mem.len(), |i: int| if addr <= i < addr + count { 0u8 } else { mem[i] })
}

/// Law: wiped memory reads back as zero.  After the zero primitive — and
/// so at the moment a zeroizing adapter's deallocation returns — every
/// byte of the wiped block reads as zero, no matter what was stored there
/// before.
pub proof fn lemma_wiped_reads_zero(mem: Seq<u8>, addr: int, count: int)
    ensures
        forall|i: int|
            0 <= i < mem.len() && addr <= i < addr + count ==> wiped(mem, addr, count)[i] == 0u8,
{
}

/// Law: the zero effect is unconditional.  It depends neither on the bytes
/// the block holds nor on any flag: two memories that agree outside a
/// block, whatever each holds inside it, are equal once the block is
/// wiped.
pub proof fn lemma_wipe_unconditional(m1: Seq<u8>, m2: Seq<u8>, addr: int, count: int)
    requires
        m1.len() == m2.len(),
        forall|i: int| 0 <= i < m1.len() && !(addr <= i < addr + count) ==> m1[i] == m2[i],
    ensures
        wiped(m1, addr, count) == wiped(m2, addr, count),
{
    assert(wiped(m1, addr, count) =~= wiped(m2, addr, count));
}

/// Law: a zero-length wipe is a no-op.  Deallocating a zero-sized block
/// writes over zero bytes and leaves the memory exactly as it was.
pub proof fn lemma_wipe_empty(mem: Seq<u8>, addr: int)
    ensures
        wiped(mem, addr, 0) == mem,
{
    assert(wiped(mem, addr, 0) =~= mem);
}

/// Law: the wipe stays inside the block.  Every byte outside
/// `[addr, addr + count)` — any unrelated block included — is untouched.
pub proof fn lemma_wipe_frame(mem: Seq<u8>, addr: int, count: int)
    ensures
        wiped(mem, addr, count).len() == mem.len(),
        forall|i: int|
            0 <= i < mem.len() && !(addr <= i < addr + count) ==> wiped(mem, addr, count)[i]
                == mem[i],
{
}

/// A flat, byte-addressed memory arena together with the bookkeeping of
/// which blocks are currently allocated from it.
///
/// `mem()` is the current content of every addressable byte and `live()`
/// maps the starting address of each currently allocated block to the
/// descriptor it was allocated with.  Reading is allowed at any address of
/// the arena — reading a freed block is how the zero guarantee is observed —
/// while writing is allowed only inside a live block, so a write can never
/// corrupt an unrelated block.
pub trait Memory: Sized {
    /// The implementation's own well-formedness invariant.
    spec fn wf(&self) -> bool;

    /// The bytes of the whole arena.
    spec fn mem(&self) -> Seq<u8>;

    /// Starting address of each live block, with its descriptor.
    spec fn live(&self) -> Map<int, Layout>;

    /// Read one byte at `addr`.
    fn read_byte(&self, addr: usize) -> (b: u8)
        requires
            self.wf(),
            addr < self.mem().len(),
        ensures
            b == self.mem()[addr as int],
    ;

    /// Write one byte at `addr`, which must lie inside a live block.
    fn write_byte(&mut self, addr: usize, value: u8)
        requires
            old(self).wf(),
            in_live_block(old(self).live(), addr as int),
        ensures
            final(self).wf(),
            final(self).live() == old(self).live(),
            final(self).mem() == old(self).mem().update(addr as int, value),
    ;

    /// Every live block lies inside the arena, whose size a machine word can
    /// hold.
    proof fn live_blocks_in_bounds(&self)
        requires
            self.wf(),
        ensures
            self.mem().len() <= usize::MAX,
            forall|s: int| #[trigger]
                self.live().dom().contains(s) ==> 0 <= s && s + self.live()[s].size
                    <= self.mem().len(),
    ;

    /// Two distinct live blocks never overlap: a write into one can never be
    /// a write into another.
    proof fn live_blocks_disjoint(&self)
        requires
            self.wf(),
        ensures
            forall|s1: int, s2: int|
                #![trigger self.live().dom().contains(s1), self.live().dom().contains(s2)]
                self.live().dom().contains(s1) && self.live().dom().contains(s2) && s1 != s2
                    ==> ranges_disjoint(
                    s1,
                    self.live()[s1].size as int,
                    s2,
                    self.live()[s2].size as int,
                ),
    ;
}

/// The zero primitive: overwrite every byte of `[addr, addr + count)` with
/// zero.  The wipe is unconditional and part of the function's contract, so
/// no caller may observe the old bytes afterwards and the stores can never
/// be dropped as dead: the postcondition pins the wiped memory exactly.
/// The whole range must lie inside live blocks; `count` may be 0, in which
/// case nothing is written.
pub fn zero<M: Memory>(m: &mut M, addr: usize, count: usize)
    requires
        old(m).wf(),
        addr + count <= old(m).mem().len(),
        addr + count <= usize::MAX,
        forall|i: int| addr <= i < addr + count ==> in_live_block(old(m).live(), i),
    ensures
        final(m).wf(),
        final(m).live() == old(m).live(),
        final(m).mem() == wiped(old(m).mem(), addr as int, count as int),
{
    let mut idx: usize = 0;
    while idx < count
        invariant
            m.wf(),
            m.live() == old(m).live(),
            idx <= count,
            addr + count <= usize::MAX,
            addr + count <= old(m).mem().len(),
            forall|i: int| addr <= i < addr + count ==> in_live_block(old(m).live(), i),
            m.mem().len() == old(m).mem().len(),
            forall|i: int|
                0 <= i < m.mem().len() && !(addr <= i < addr + idx) ==> m.mem()[i] == old(
                    m,
                ).mem()[i],
            forall|i: int| addr <= i < addr + idx ==> m.mem()[i] == 0u8,
        decreases count - idx,
    {
        m.write_byte(addr + idx, 0u8);
        idx = idx + 1;
    }
}

} // verus!
