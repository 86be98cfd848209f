//! Owned duplication of values reached only through erased handles.
//!
//! A handle to a value of a statically unknown concrete type pairs the
//! address of the value with dispatch metadata that selects the concrete
//! type's operations at run time. Producing an independent owned copy of
//! such a value takes three steps: acquire a fresh region of the exact
//! size and alignment the metadata prescribes, run the concrete type's
//! duplication logic into that region, and rebuild an owning handle from
//! the fresh address and the unchanged metadata. When the duplication
//! logic aborts instead of completing, the half-built region must be
//! released and the abort handed to the caller unchanged.
//!
//! The crate states and proves that discipline twice over:
//!
//! - [`CloneIntoBox`] and [`CloneIntoBoxExt`] give the duplication
//!   capability and the boxed-clone operation for concrete types, with
//!   contracts that pin the clone to the source value and the failure to
//!   the abort the capability raised.
//! - The handle-level model ([`Heap`], [`FatPtr`], [`Guard`],
//!   [`boxed_clone_raw`]) tracks allocations explicitly and proves that a
//!   successful clone owns a fresh region under the source's metadata,
//!   and that a failed clone leaves the set of live allocations exactly
//!   as it was.

mod abort;
mod clone_box;
mod greeter;
mod heap;
mod raw;
mod slot;

pub use abort::CloneAbort;
pub use clone_box::CloneIntoBox;
pub use clone_box::CloneIntoBoxExt;
pub use clone_box::lemma_round_trip;
pub use greeter::AbortingGreeter;
pub use greeter::Greeter;
pub use heap::Heap;
pub use heap::Layout;
pub use raw::FatPtr;
pub use raw::Guard;
pub use raw::Meta;
pub use raw::assign_thin_mut;
pub use raw::boxed_clone_raw;
pub use raw::lemma_independence;
pub use raw::lemma_metadata_fidelity;
pub use raw::lemma_no_leak;
pub use slot::Slot;
