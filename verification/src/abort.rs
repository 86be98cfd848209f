use vstd::prelude::*;

verus! {

/// The abnormal termination a duplication capability may raise instead of
/// completing. It is the one recoverable failure of a boxed clone: after
/// the half-built region has been released, the abort reaches the caller
/// unchanged. Its view is the message of the underlying failure.
#[derive(Debug)]
pub struct CloneAbort {
    msg: String,
}

impl View for CloneAbort {
    type V = Seq<char>;

    closed spec fn view(&self) -> Seq<char> {
        self.msg@
    }
}

impl CloneAbort {
    /// Wraps the message of a duplication failure.
    pub fn new(msg: String) -> (a: CloneAbort)
        ensures
            a@ == msg@,
    {
        CloneAbort { msg }
    }

    /// The message of the failure that interrupted the duplication.
    pub fn message(&self) -> (m: &str)
        ensures
            m@ == self@,
    {
        self.msg.as_str()
    }
}

} // verus!
