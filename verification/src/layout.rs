use vstd::prelude::*;

verus! {

/// A memory request descriptor: the size in bytes and the alignment of a
/// block.  Produced by the caller and consumed unchanged by the wrapped
/// allocator and by the adapters (the size tells the adapter how many bytes
/// to zero on deallocation).
#[derive(Clone, Copy, PartialEq, Eq, Structural, Debug)]
pub struct Layout {
    pub size: usize,
    pub align: usize,
}

/// Holds exactly for 1, 2, 4, 8, ...
pub open spec fn is_power_of_two(n: int) -> bool
    decreases n,
{
    if n <= 0 {
        false
    } else if n == 1 {
        true
    } else {
        n % 2 == 0 && is_power_of_two(n / 2)
    }
}

impl Layout {
    /// A descriptor is valid when its alignment is a power of two; the size
    /// may be zero (a degenerate allocation).
    pub open spec fn valid(self) -> bool {
        is_power_of_two(self.align as int)
    }

    /// Decide validity, so that a caller can reject a descriptor before
    /// handing it to an allocator.
    pub fn is_valid(&self) -> (b: bool)
        ensures
            b == self.valid(),
    {
        let mut n: usize = self.align;
        if n == 0 {
            return false;
        }
        while n % 2 == 0
            invariant
                1 <= n,
                is_power_of_two(self.align as int) == is_power_of_two(n as int),
            decreases n,
        {
            n = n / 2;
        }
        n == 1
    }
}

} // verus!
