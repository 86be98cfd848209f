use vstd::prelude::*;
use vstd::string::StringExecFns;

use crate::abort::CloneAbort;
use crate::clone_box::CloneIntoBox;
use crate::slot::Slot;

verus! {

/// A callable value capturing an owned prefix: invoking it returns the
/// prefix with `" world!"` appended. Its duplication logic always
/// completes, producing a duplicate that owns its own copy of the
/// captured string.
pub struct Greeter {
    prefix: String,
}

impl Greeter {
    /// The captured prefix.
    pub closed spec fn prefix_spec(&self) -> Seq<char> {
        self.prefix@
    }

    /// What invoking this callable returns.
    pub open spec fn invocation(&self) -> Seq<char> {
        self.prefix_spec() + " world!"@
    }

    /// Captures `prefix`.
    pub fn new(prefix: String) -> (g: Greeter)
        ensures
            g.prefix_spec() == prefix@,
    {
        Greeter { prefix }
    }

    /// Invokes the callable. The receiver is only read.
    pub fn invoke(&self) -> (r: String)
        ensures
            r@ == self.invocation(),
    {
        let mut out = self.prefix.clone();
        out.append(" world!");
        out
    }

    /// Replaces the captured prefix. A duplicate owns its state alone,
    /// so replacing the prefix of one leaves every other untouched.
    pub fn set_prefix(&mut self, prefix: String)
        ensures
            final(self).prefix_spec() == prefix@,
    {
        self.prefix = prefix;
    }
}

impl CloneIntoBox for Greeter {
    open spec fn dup_ok(&self) -> bool {
        true
    }

    open spec fn dup_abort(&self) -> Seq<char> {
        Seq::empty()
    }

    fn clone_into_ptr(&self, dest: &mut Slot<Greeter>) -> (r: Result<(), CloneAbort>) {
        dest.write(Greeter { prefix: self.prefix.clone() });
        Ok(())
    }
}

/// A callable like [`Greeter`] whose captured state refuses duplication:
/// its duplication logic unconditionally raises an abnormal termination
/// with the message given at construction. Invoking it still succeeds.
pub struct AbortingGreeter {
    prefix: String,
    abort_msg: String,
}

impl AbortingGreeter {
    /// The captured prefix.
    pub closed spec fn prefix_spec(&self) -> Seq<char> {
        self.prefix@
    }

    /// What invoking this callable returns.
    pub open spec fn invocation(&self) -> Seq<char> {
        self.prefix_spec() + " world!"@
    }

    /// Captures `prefix`; duplication will abort with `abort_msg`.
    pub fn new(prefix: String, abort_msg: String) -> (g: AbortingGreeter)
        ensures
            g.prefix_spec() == prefix@,
            g.dup_abort() == abort_msg@,
    {
        AbortingGreeter { prefix, abort_msg }
    }

    /// Invokes the callable. The receiver is only read.
    pub fn invoke(&self) -> (r: String)
        ensures
            r@ == self.invocation(),
    {
        let mut out = self.prefix.clone();
        out.append(" world!");
        out
    }
}

impl CloneIntoBox for AbortingGreeter {
    open spec fn dup_ok(&self) -> bool {
        false
    }

    closed spec fn dup_abort(&self) -> Seq<char> {
        self.abort_msg@
    }

    fn clone_into_ptr(&self, dest: &mut Slot<AbortingGreeter>) -> (r: Result<(), CloneAbort>) {
        Err(CloneAbort::new(self.abort_msg.clone()))
    }
}

} // verus!
