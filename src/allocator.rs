//! A bump allocator over a fixed arena: each allocation starts at the
//! first suitably aligned address past the previous one, and nothing is
//! ever reclaimed.
use vstd::prelude::*;

verus! {

/// The first multiple of `align` at or above `head`.
pub open spec fn align_up(head: nat, align: nat) -> nat
    recommends
        align > 0,
{
    if head % align == 0 {
        head
    } else {
        (head + (align - head % align)) as nat
    }
}

/// `align_up` is aligned, not below `head`, and less than one alignment above it.
pub proof fn lemma_align_up(head: nat, align: nat)
    requires
        align > 0,
    ensures
        align_up(head, align) % align == 0,
        head <= align_up(head, align) < head + align,
{
    let a = align as int;
    let r = (head % align) as int;
    let q = (head / align) as int;
    assert(head == q * a + r && 0 <= r < a) by (nonlinear_arith)
        requires a > 0, r == head as int % a, q == head as int / a;
    if r != 0 {
        assert(q * a + r + (a - r) == (q + 1) * a) by (nonlinear_arith);
        assert(((q + 1) * a) % a == 0) by (nonlinear_arith)
            requires a > 0, q >= 0;
    }
}

/// An arena `[heap_start, heap_end)` and the offset of its first free byte.
#[derive(Debug)]
pub struct BumpAllocator {
    heap_start: usize,
    heap_end: usize,
    current_offset: usize,
}

impl BumpAllocator {
    /// The arena's first address.
    pub closed spec fn start(&self) -> nat {
        self.heap_start as nat
    }

    /// One past the arena's last address.
    pub closed spec fn end(&self) -> nat {
        self.heap_end as nat
    }

    /// The first free address.
    pub closed spec fn head(&self) -> nat {
        (self.heap_start + self.current_offset) as nat
    }

    /// The arena bounds are ordered and the free address lies within them.
    pub closed spec fn wf(&self) -> bool {
        self.heap_start <= self.heap_start + self.current_offset <= self.heap_end
    }

    /// An empty arena over `[heap_start, heap_end)`.
    pub fn new(heap_start: usize, heap_end: usize) -> (r: BumpAllocator)
        requires
            heap_start <= heap_end,
        ensures
            r.wf(),
            r.start() == heap_start,
            r.end() == heap_end,
            r.head() == heap_start,
    {
        BumpAllocator { heap_start, heap_end, current_offset: 0 }
    }

    /// The arena's first address.
    pub fn heap_start(&self) -> (r: usize)
        ensures
            r == self.start(),
    {
        self.heap_start
    }

    /// One past the arena's last address.
    pub fn heap_end(&self) -> (r: usize)
        ensures
            r == self.end(),
    {
        self.heap_end
    }

    /// The address `offset` bytes into the arena.
    pub fn address_at(&self, offset: usize) -> (r: usize)
        requires
            self.start() + offset <= usize::MAX,
        ensures
            r == self.start() + offset,
    {
        self.heap_start + offset
    }

    /// The region `[start, end)` the next allocation of `size` bytes
    /// aligned to `align` would take, or `None` when its bounds do not fit
    /// in an address.
    pub fn compute_alloc_region(&self, size: usize, align: usize) -> (r: Option<(usize, usize)>)
        requires
            self.wf(),
            align > 0,
        ensures
            r matches Some((s, e)) ==> s == align_up(self.head(), align as nat) && e == s + size,
            r is None ==> align_up(self.head(), align as nat) + size > usize::MAX,
    {
        proof {
            lemma_align_up(self.head(), align as nat);
        }
        let head = self.address_at(self.current_offset);
        let rem = head % align;
        let start = if rem == 0 {
            head
        } else {
            match head.checked_add(align - rem) {
                Some(s) => s,
                None => return None,
            }
        };
        match start.checked_add(size) {
            Some(end) => Some((start, end)),
            None => None,
        }
    }

    /// Whether `[start, end)` lies inside the arena.
    pub fn is_region_valid(&self, start: usize, end: usize) -> (r: bool)
        ensures
            r == (start >= self.start() && end <= self.end()),
    {
        start >= self.heap_start && end <= self.heap_end
    }

    /// Moves the first free address to `end`.
    pub fn bump(&mut self, end: usize)
        requires
            old(self).start() <= end <= old(self).end(),
        ensures
            final(self).wf(),
            final(self).head() == end,
            final(self).start() == old(self).start(),
            final(self).end() == old(self).end(),
    {
        self.current_offset = end - self.heap_start;
    }

    /// Allocates `size` bytes aligned to `align`: the address of the
    /// region, or `None` (and no change) when the arena has no room.
    pub fn allocate(&mut self, size: usize, align: usize) -> (r: Option<usize>)
        requires
            old(self).wf(),
            align > 0,
        ensures
            final(self).wf(),
            final(self).start() == old(self).start(),
            final(self).end() == old(self).end(),
            r is Some <==> align_up(old(self).head(), align as nat) + size <= old(self).end(),
            r matches Some(a) ==> a == align_up(old(self).head(), align as nat)
                && a % align == 0 && old(self).head() <= a
                && final(self).head() == a + size,
            r is None ==> final(self).head() == old(self).head(),
    {
        proof {
            lemma_align_up(self.head(), align as nat);
        }
        let (start, end) = match self.compute_alloc_region(size, align) {
            Some(region) => region,
            None => return None,
        };
        if !self.is_region_valid(start, end) {
            return None;
        }
        self.bump(end);
        Some(start)
    }
}

} // verus!
