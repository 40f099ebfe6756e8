//! What a batch producer and the vertex stage exchange: lists of instances
//! waiting to be staged, and the ranges that tell where they were staged.

use core::ops::Range;
use vstd::prelude::*;

verus! {

/// Index of a buffer among the buffers that an instance pool uses in a frame.
pub type InstanceBufferIndex = u16;

/// Where the instances of one batch were staged: in which buffer of the pool,
/// at which instances of it, and in which epoch of the pool. A range is good
/// until the pool is reset, which starts a new epoch.
#[derive(Debug, PartialEq, Eq)]
pub struct InstanceRange {
    pub buffer_index: InstanceBufferIndex,
    pub sub_range: Range<usize>,
    pub epoch: u64,
}

/// The instances of one batch: the records still to be staged, and the range
/// they were last staged at.
#[derive(Debug)]
pub struct InstanceList<T> {
    pub data: Vec<T>,
    pub range: Option<InstanceRange>,
}

impl<T> InstanceList<T> {
    /// An empty list that was never staged.
    pub fn new() -> (list: Self)
        ensures
            list.data@ == Seq::<T>::empty(),
            list.range is None,
    {
        InstanceList { data: Vec::new(), range: None }
    }
}

} // verus!
