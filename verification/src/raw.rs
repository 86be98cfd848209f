use vstd::prelude::*;

use crate::abort::CloneAbort;
use crate::heap::Heap;
use crate::heap::Layout;

verus! {

broadcast use vstd::map::group_map_axioms, vstd::set::group_set_axioms;

/// Dispatch metadata: the run-time descriptor a handle carries beside
/// the address of its value. It selects the concrete type's operations
/// — `ops` stands for the operation table — and prescribes the layout a
/// region for one value of that type must have.
#[derive(Clone, Copy, PartialEq, Eq, Structural, Debug)]
pub struct Meta {
    /// Identifies the concrete type's operation table.
    pub ops: usize,
    /// The size and alignment of one value of the concrete type.
    pub layout: Layout,
}

/// A handle to a value of an erased concrete type: the address of the
/// value paired with the dispatch metadata that makes the value usable.
#[derive(Clone, Copy, PartialEq, Eq, Structural, Debug)]
pub struct FatPtr {
    /// Where the value lives.
    pub addr: usize,
    /// How to use it.
    pub meta: Meta,
}

/// Rebuilds a handle from the dispatch metadata of `fat` and the bare
/// address `thin`: the metadata is taken over verbatim and the address
/// component is exactly `thin`, never a reinterpretation of either. This
/// is the one place a handle's two components are put together.
pub fn assign_thin_mut(fat: FatPtr, thin: usize) -> (r: FatPtr)
    ensures
        r.addr == thin,
        r.meta == fat.meta,
{
    FatPtr { addr: thin, meta: fat.meta }
}

/// A scoped guard over one raw region: between its arming and its
/// disarming it stands for the duty to release the region. Firing it
/// releases the region under the layout it was armed with; disarming it
/// drops the duty because ownership of the region has moved on.
pub struct Guard {
    addr: usize,
    layout: Layout,
}

impl Guard {
    /// The guarded address.
    pub closed spec fn addr(&self) -> usize {
        self.addr
    }

    /// The layout the region will be released under.
    pub closed spec fn layout(&self) -> Layout {
        self.layout
    }

    /// Arms a guard over the region at `addr`.
    pub fn arm(addr: usize, layout: Layout) -> (g: Guard)
        ensures
            g.addr() == addr,
            g.layout() == layout,
    {
        Guard { addr, layout }
    }

    /// Fires the guard: the guarded region is released and is no longer
    /// live. This is the cleanup path of an interrupted operation.
    pub fn fire(self, heap: &mut Heap)
        requires
            old(heap).wf(),
            old(heap).live().contains_key(self.addr()),
            old(heap).live()[self.addr()] == self.layout(),
        ensures
            final(heap).wf(),
            final(heap).bound() == old(heap).bound(),
            final(heap).live() == old(heap).live().remove(self.addr()),
            final(heap).live().len() == old(heap).live().len() - 1,
    {
        heap.release(self.addr, self.layout);
    }

    /// Disarms the guard: the region's lifetime is owned elsewhere now,
    /// so nothing is released.
    pub fn disarm(self) {
    }
}

/// The boxed-clone operation at the handle level.
///
/// Given a handle `src` to a value of an erased concrete type, a fresh
/// raw region with exactly the layout that `src`'s metadata prescribes
/// is acquired and a guard is armed over it. The concrete duplication
/// logic then runs into the region; the erased type's operations are
/// behind the metadata, so its outcome arrives as `dup`. When the
/// duplication completed, the guard is disarmed and the new owning
/// handle is rebuilt from the fresh address and `src`'s metadata,
/// verbatim. When the duplication aborted, the guard fires, the region
/// is gone, and the abort reaches the caller unchanged: the live
/// regions are exactly those from before the operation.
pub fn boxed_clone_raw(heap: &mut Heap, src: FatPtr, dup: Result<(), CloneAbort>) -> (r: Result<
    FatPtr,
    CloneAbort,
>)
    requires
        old(heap).wf(),
        src.meta.layout.valid(),
        old(heap).can_alloc(src.meta.layout),
    ensures
        final(heap).wf(),
        final(heap).bound() <= old(heap).bound() + src.meta.layout.align + src.meta.layout.size,
        dup is Ok ==> (r matches Ok(fat) && fat.meta == src.meta && fat.addr != 0
            && fat.addr as int % src.meta.layout.align as int == 0
            && !old(heap).live().contains_key(fat.addr)
            && final(heap).live() == old(heap).live().insert(fat.addr, src.meta.layout)
            && final(heap).live().len() == old(heap).live().len() + 1),
        dup matches Err(e) ==> (r matches Err(e2) && e2 == e && final(heap).live() =~= old(
            heap,
        ).live()),
{
    let layout = src.meta.layout;
    let addr = heap.acquire(layout);
    let guard = Guard::arm(addr, layout);
    match dup {
        Ok(()) => {
            guard.disarm();
            Ok(assign_thin_mut(src, addr))
        },
        Err(e) => {
            guard.fire(heap);
            Err(e)
        },
    }
}

/// Independence: a handle produced by a successful boxed clone never
/// shares its address with a live source, so the two values own
/// disjoint memory and mutating the one cannot reach the other.
pub proof fn lemma_independence(live: Map<usize, Layout>, src: FatPtr, dup: FatPtr)
    requires
        live.contains_key(src.addr),
        !live.contains_key(dup.addr),
    ensures
        dup.addr != src.addr,
{
}

/// No leak on failure: releasing exactly the region that was freshly
/// acquired restores the live regions to what they were, so an
/// interrupted clone leaves no net allocation behind.
pub proof fn lemma_no_leak(live: Map<usize, Layout>, addr: usize, layout: Layout)
    requires
        !live.contains_key(addr),
    ensures
        live.insert(addr, layout).remove(addr) =~= live,
{
}

/// Metadata fidelity: the clone's handle carries the source's dispatch
/// metadata bit for bit, so every operation resolved through it — the
/// concrete type's duplication, invocation, destruction, size and
/// alignment — is the very one the source's handle resolves.
pub proof fn lemma_metadata_fidelity<R>(src: FatPtr, dup: FatPtr, dispatch: spec_fn(Meta) -> R)
    requires
        dup.meta == src.meta,
    ensures
        dispatch(dup.meta) == dispatch(src.meta),
{
}

} // verus!
