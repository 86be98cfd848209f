use vstd::prelude::*;

verus! {

broadcast use vstd::map::group_map_axioms, vstd::set::group_set_axioms;

/// The exact memory requirements of one concrete type: how many bytes a
/// value occupies and the alignment its address must respect. A handle's
/// dispatch metadata carries the layout, so both are known at run time
/// even while the type itself is erased.
#[derive(Clone, Copy, PartialEq, Eq, Structural, Debug)]
pub struct Layout {
    pub size: usize,
    pub align: usize,
}

impl Layout {
    /// A meaningful layout: the alignment is at least one, so every
    /// address has a well-defined distance to the next aligned one.
    pub open spec fn valid(self) -> bool {
        0 < self.align
    }
}

/// The allocator model: the set of live raw regions, each recorded under
/// the layout it was acquired with.
///
/// `live` maps the address of every live region to that layout;
/// `acquire` extends it with a fresh, aligned, non-null address, and
/// `release` removes exactly the region it is handed, under the layout
/// it was acquired with.
/// The number of live regions is also kept as a run-time count, so a
/// caller can observe whether an operation changed what is allocated.
pub struct Heap {
    next: usize,
    count: usize,
    blocks: Ghost<Map<usize, Layout>>,
}

impl Heap {
    /// The live regions: every allocated address with its layout.
    pub closed spec fn live(&self) -> Map<usize, Layout> {
        self.blocks@
    }

    /// Addresses handed out so far all lie below this bound.
    pub closed spec fn bound(&self) -> usize {
        self.next
    }

    /// A well-formed heap: finitely many live regions, all below the
    /// bound, counted exactly by the run-time count.
    pub closed spec fn wf(&self) -> bool {
        &&& 0 < self.next
        &&& self.blocks@.dom().finite()
        &&& self.count == self.blocks@.len()
        &&& self.count <= self.next
        &&& forall|a: usize| self.blocks@.contains_key(a) ==> a < self.next
    }

    /// Whether a region of `layout` still fits below the address space's
    /// end. Exhaustion is not a recoverable failure, so allocation simply
    /// demands the room.
    pub open spec fn can_alloc(&self, layout: Layout) -> bool {
        self.bound() + layout.align + layout.size < usize::MAX
    }

    /// An empty heap with no live regions.
    pub fn new() -> (h: Heap)
        ensures
            h.wf(),
            h.bound() == 1,
            h.live() == Map::<usize, Layout>::empty(),
            h.live().len() == 0,
    {
        Heap { next: 1, count: 0, blocks: Ghost(Map::empty()) }
    }

    /// The number of live regions: the observable allocation balance.
    pub fn live_count(&self) -> (n: usize)
        requires
            self.wf(),
        ensures
            n == self.live().len(),
    {
        self.count
    }

    /// Acquires an exclusively owned raw region for `layout`: its address
    /// is non-null, aligned as the layout demands, and distinct from the
    /// address of every region that was live before.
    pub fn acquire(&mut self, layout: Layout) -> (addr: usize)
        requires
            old(self).wf(),
            layout.valid(),
            old(self).can_alloc(layout),
        ensures
            final(self).wf(),
            final(self).bound() <= old(self).bound() + layout.align + layout.size,
            addr != 0,
            addr as int % layout.align as int == 0,
            !old(self).live().contains_key(addr),
            final(self).live() == old(self).live().insert(addr, layout),
            final(self).live().len() == old(self).live().len() + 1,
    {
        let rem: usize = self.next % layout.align;
        let addr: usize = if rem == 0 {
            self.next
        } else {
            self.next + (layout.align - rem)
        };
        proof {
            let n = self.next as int;
            let al = layout.align as int;
            vstd::arithmetic::div_mod::lemma_fundamental_div_mod(n, al);
            if rem == 0 {
                assert(addr as int % al == 0);
            } else {
                assert(addr as int == (n / al + 1) * al) by (nonlinear_arith)
                    requires
                        addr as int == n + al - n % al,
                        n == al * (n / al) + n % al,
                ;
                vstd::arithmetic::div_mod::lemma_mod_multiples_basic(n / al + 1, al);
                assert(addr as int % al == 0);
            }
        }
        self.next = addr + layout.size + 1;
        self.count = self.count + 1;
        self.blocks = Ghost(self.blocks@.insert(addr, layout));
        addr
    }

    /// Releases the live region at `addr`. The layout must be the one the
    /// region was acquired with: releasing under any other is refused.
    pub fn release(&mut self, addr: usize, layout: Layout)
        requires
            old(self).wf(),
            old(self).live().contains_key(addr),
            old(self).live()[addr] == layout,
        ensures
            final(self).wf(),
            final(self).bound() == old(self).bound(),
            final(self).live() == old(self).live().remove(addr),
            final(self).live().len() == old(self).live().len() - 1,
    {
        proof {
            vstd::set::axiom_set_contains_len(self.blocks@.dom(), addr);
        }
        self.count = self.count - 1;
        self.blocks = Ghost(self.blocks@.remove(addr));
    }
}

} // verus!
