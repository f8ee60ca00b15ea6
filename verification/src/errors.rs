use vstd::prelude::*;

verus! {

/// The ways a run can fail: a source shorter than a declared length, or a
/// header whose boot-code offset this tool does not support.
#[derive(Clone, Copy, Debug, PartialEq, Eq, Structural)]
pub enum NdsError {
    TruncatedInput,
    UnsupportedLayout,
}

} // verus!
