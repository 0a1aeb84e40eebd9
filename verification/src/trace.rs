use vstd::prelude::*;

verus! {

/// A captured traffic trace reduced to a binary direction sequence.
pub struct BinaryTrafficTrace(pub Vec<bool>);

/// One labelled trace of the binary dataset.
pub struct BinaryTraceItem {
    pub trace: BinaryTrafficTrace,
    pub label: u8,
}

} // verus!
