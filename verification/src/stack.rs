//! Layout of a guarded coroutine stack.
//!
//! A stack is backed by one private anonymous memory mapping.  The lowest
//! page of the mapping is turned into an inaccessible guard page, so a
//! write below `bottom` faults instead of corrupting a neighbour.  The
//! word just below `top` may be loaded with a caller-chosen offset (in
//! words); `end` is `top` minus that offset and is where the call-frame
//! initializer starts the new stack.
//!
//! The mapping itself (and the fatal abort when it cannot be made) is the
//! embedding program's job; this module holds the address arithmetic and
//! the invariants of the region, with the addresses as plain words.
use vstd::arithmetic::div_mod::lemma_mod_mod;
use vstd::arithmetic::div_mod::lemma_mod_multiples_vanish;
use vstd::prelude::*;

verus! {

/// Bytes in one machine word on the supported 64-bit target.
pub const WORD_BYTES: usize = 8;

/// Granule of the memory mapping, and the size of the guard page.
pub const PAGE_BYTES: usize = 16384;

/// Call-boundary stack alignment demanded by the calling convention.
pub const STACK_ALIGN: usize = 16;

/// Byte length of the mapping that backs a stack requested with `size`
/// words: at least one page, then doubled as headroom (the request is a
/// lower bound, not an exact size).
pub open spec fn spec_mapping_len(size: usize) -> int {
    let wanted = if size * WORD_BYTES > PAGE_BYTES { size * WORD_BYTES } else { PAGE_BYTES as int };
    wanted * 2
}

/// Computes the byte length of the mapping for a request of `size` words.
pub fn mapping_len(size: usize) -> (r: usize)
    requires
        spec_mapping_len(size) <= usize::MAX,
    ensures
        r == spec_mapping_len(size),
{
    let wanted: usize = if size > PAGE_BYTES / WORD_BYTES { size * WORD_BYTES } else { PAGE_BYTES };
    wanted * 2
}

/// An owned guarded stack region.  `top` is the highest usable address
/// (exclusive); `bottom` the lowest (inclusive), just above the guard
/// page; `off` mirrors the word stored at address `top - WORD_BYTES`,
/// which a caller may set to move the initial stack pointer down.
pub struct Stack {
    top: usize,
    bottom: usize,
    off: usize,
}

impl Stack {
    /// Highest usable address of the region, exclusive.
    pub closed spec fn spec_top(self) -> usize {
        self.top
    }

    /// Lowest usable address of the region, just above the guard page.
    pub closed spec fn spec_bottom(self) -> usize {
        self.bottom
    }

    /// The offset word stored at `top - WORD_BYTES`, counted in words.
    pub closed spec fn spec_off(self) -> usize {
        self.off
    }

    /// Invariants of a mapped stack: the usable region is a positive
    /// whole number of pages, word-aligned, sitting above the guard
    /// page, and the injected offset stays inside the region.
    pub open spec fn wf(self) -> bool {
        &&& self.spec_bottom() >= PAGE_BYTES
        &&& self.spec_bottom() % WORD_BYTES == 0
        &&& self.spec_bottom() % STACK_ALIGN == 0
        &&& self.spec_top() > self.spec_bottom()
        &&& (self.spec_top() - self.spec_bottom()) % (PAGE_BYTES as int) == 0
        &&& self.spec_off() * WORD_BYTES <= self.spec_top() - self.spec_bottom()
    }

    /// Lays a stack out over a fresh mapping of `mapping_len(size)`
    /// bytes at `base`.  The caller must have mapped that many bytes
    /// read/write at `base` (page-aligned, as a mapping always is) and
    /// revoked access to the lowest page; a failed mapping has no
    /// `Stack` at all — the embedding program aborts instead.
    pub fn new(size: usize, base: usize) -> (r: Stack)
        requires
            base % PAGE_BYTES == 0,
            base + spec_mapping_len(size) <= usize::MAX,
            spec_mapping_len(size) % (PAGE_BYTES as int) == 0,
        ensures
            r.wf(),
            r.spec_top() == base + spec_mapping_len(size),
            r.spec_bottom() == base + PAGE_BYTES,
            r.spec_off() == 0,
    {
        let bytes: usize = mapping_len(size);
        proof {
            // A page-aligned `base` is also word- and 16-byte-aligned,
            // and adding one page keeps it so.
            lemma_mod_mod(base as int, STACK_ALIGN as int, 1024);
            lemma_mod_multiples_vanish(1024, base as int, STACK_ALIGN as int);
            lemma_mod_mod(base as int, WORD_BYTES as int, 2048);
            lemma_mod_multiples_vanish(2048, base as int, WORD_BYTES as int);
        }
        Stack { top: base + bytes, bottom: base + PAGE_BYTES, off: 0 }
    }

    /// Address of the offset word, one word below `top`.
    pub fn get_offset(&self) -> (r: usize)
        requires
            self.wf(),
        ensures
            r == self.spec_top() - WORD_BYTES,
    {
        self.top - WORD_BYTES
    }

    /// Records the offset word that the caller wrote at `get_offset()`;
    /// the offset must keep `end()` inside the usable region.
    pub fn set_offset(&mut self, val: usize)
        requires
            old(self).wf(),
            val * WORD_BYTES <= old(self).spec_top() - old(self).spec_bottom(),
        ensures
            final(self).wf(),
            final(self).spec_top() == old(self).spec_top(),
            final(self).spec_bottom() == old(self).spec_bottom(),
            final(self).spec_off() == val,
    {
        self.off = val;
    }

    /// The address `end()` returns, as a spec value.
    pub open spec fn spec_end(self) -> int {
        self.spec_top() - self.spec_off() * WORD_BYTES
    }

    /// Initial stack pointer handed to the call-frame initializer:
    /// `top` lowered by the injected offset, still inside the region.
    pub fn end(&self) -> (r: usize)
        requires
            self.wf(),
        ensures
            r == self.spec_end(),
            self.spec_bottom() <= r <= self.spec_top(),
    {
        self.top - self.off * WORD_BYTES
    }

    /// Usable bytes of the region, the guard page excluded.
    pub fn len(&self) -> (r: usize)
        requires
            self.wf(),
        ensures
            r == self.spec_top() - self.spec_bottom(),
            r > 0,
            r % PAGE_BYTES == 0,
    {
        self.top - self.bottom
    }
}

} // verus!
