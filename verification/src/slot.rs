use vstd::prelude::*;

verus! {

/// A caller-supplied destination region for one value of `T`.
///
/// It stands for the raw block a placement duplication writes into:
/// after [`Slot::empty`] the region holds no live value, [`Slot::write`]
/// initializes it by a move without reading or dropping what was there,
/// and [`Slot::into_value`] hands the initialized value out. The view is
/// the live contents, `None` while the region is uninitialized.
pub struct Slot<T> {
    contents: Option<T>,
}

impl<T> View for Slot<T> {
    type V = Option<T>;

    closed spec fn view(&self) -> Option<T> {
        self.contents
    }
}

impl<T> Slot<T> {
    /// An uninitialized region.
    pub fn empty() -> (s: Slot<T>)
        ensures
            s@ is None,
    {
        Slot { contents: None }
    }

    /// Initializes the region with `v` by a move. The region must hold no
    /// live value: nothing is read from it and nothing is dropped.
    pub fn write(&mut self, v: T)
        requires
            old(self)@ is None,
        ensures
            final(self)@ == Some(v),
    {
        self.contents = Some(v);
    }

    /// Moves the initialized value out, consuming the region.
    pub fn into_value(self) -> (v: T)
        requires
            self@ is Some,
        ensures
            self@ == Some(v),
    {
        self.contents.unwrap()
    }
}

} // verus!
