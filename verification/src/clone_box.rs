use vstd::prelude::*;

use crate::abort::CloneAbort;
use crate::slot::Slot;

verus! {

/// The duplication capability: performing a type's duplication logic
/// straight into a caller-supplied uninitialized region.
///
/// `dup_ok` says whether the duplication logic of this value completes
/// normally, and `dup_abort` gives the message of the abnormal
/// termination it raises when it does not. The capability never alters
/// the source: `self` is only read.
pub trait CloneIntoBox: Sized {
    /// Whether this value's duplication logic completes normally.
    spec fn dup_ok(&self) -> bool;

    /// The message of the abnormal termination the duplication logic
    /// raises when it does not complete.
    spec fn dup_abort(&self) -> Seq<char>;

    /// Duplicates `self` into `dest` by a move: the region must hold no
    /// live value, nothing is read from it beforehand, and on failure it
    /// still holds none — the caller keeps the duty of releasing it.
    fn clone_into_ptr(&self, dest: &mut Slot<Self>) -> (r: Result<(), CloneAbort>)
        requires
            old(dest)@ is None,
        ensures
            self.dup_ok() ==> r is Ok && final(dest)@ == Some(*self),
            !self.dup_ok() ==> (r matches Err(e) && e@ == self.dup_abort()
                && final(dest)@ is None),
    ;
}

/// The boxed-clone operation over any type with the duplication
/// capability: produce a new owning handle to an independent duplicate,
/// or hand the duplication's abnormal termination to the caller with
/// nothing left behind.
pub trait CloneIntoBoxExt: CloneIntoBox {
    /// Clones `self` into a fresh owned allocation.
    ///
    /// A region for one `Self` is acquired, the duplication capability
    /// runs into it, and on success the region — now holding a live
    /// duplicate equal to the source — becomes the owned result. When
    /// the duplication logic aborts instead, the region is released
    /// before the abort reaches the caller: no value is ever owned but
    /// uninitialized, and nothing leaks.
    fn clone_into_box(&self) -> (r: Result<Box<Self>, CloneAbort>)
        ensures
            self.dup_ok() ==> (r matches Ok(b) && b == *self),
            !self.dup_ok() ==> (r matches Err(e) && e@ == self.dup_abort()),
    {
        let mut region: Slot<Self> = Slot::empty();
        match self.clone_into_ptr(&mut region) {
            Ok(()) => Ok(Box::new(region.into_value())),
            Err(e) => Err(e),
        }
    }
}

impl<T: CloneIntoBox> CloneIntoBoxExt for T {}

/// Round-trip identity of behavior: a duplicate that carries the same
/// value as its source answers every observation that is a function of
/// the value exactly as the source does. With the ensures of
/// [`CloneIntoBoxExt::clone_into_box`], invoking a successful clone is
/// indistinguishable from invoking the original.
pub proof fn lemma_round_trip<T, R>(source: T, duplicate: T, observe: spec_fn(T) -> R)
    requires
        duplicate == source,
    ensures
        observe(duplicate) == observe(source),
{
}

} // verus!
