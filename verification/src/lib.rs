//! A secure-erasure allocator adapter.
//!
//! The library wraps an allocator so that every block of memory is
//! overwritten with zero bytes at the instant it is handed back, before the
//! wrapped allocator may reclaim or reuse it.  The wipe keeps keys,
//! passwords and plaintext buffers from lingering in freed heap memory.
//!
//! Memory is modelled as a flat, byte-addressed arena (the [`memory::Memory`]
//! capability).  Two adapters share one zeroing primitive:
//! [`zeroizing::ZeroizingAllocator`] wraps a structured-result allocator and
//! [`zeroizing::ZeroizingGlobalAllocator`] wraps a sentinel-failure,
//! process-wide style allocator.  [`bump::BumpAllocator`] is a small arena
//! allocator that never reuses freed memory; it serves as a wrapped
//! allocator whose blocks can still be read after they are freed, which is
//! what lets the zero guarantee be observed.

pub mod allocator;
pub mod bump;
pub mod layout;
pub mod memory;
pub mod zeroizing;
