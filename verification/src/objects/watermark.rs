use vstd::prelude::*;

verus! {

/// WMB is used in the KV offset timeline bucket as the value for the given processor entity key.
#[derive(Clone, Copy, Debug, PartialEq, Eq, Structural)]
pub struct Wmb {
    /// Idle is set to true if the given processor entity hasn't published anything
    /// to the offset timeline bucket in a batch processing cycle.
    /// Idle is used to signal an idle watermark.
    pub idle: bool,
    /// Offset is the monotonically increasing index/offset of the buffer (buffer is the physical representation
    /// of the partition of the edge).
    pub offset: i64,
    /// Watermark is tightly coupled with the offset and will be monotonically increasing for a given ProcessorEntity
    /// as the offset increases.
    /// When it is idling (Idle==true), for a given offset, the watermark can monotonically increase without offset
    /// increasing.
    pub watermark: i64,
    /// Partition to identify the partition to which the watermark belongs.
    pub partition: i32,
}

impl Default for Wmb {
    /// The record with every field zero or false, as an empty encoding decodes to.
    fn default() -> (w: Wmb)
        ensures
            w == (Wmb { idle: false, offset: 0, watermark: 0, partition: 0 }),
    {
        Wmb { idle: false, offset: 0, watermark: 0, partition: 0 }
    }
}

/// Heartbeat is used to track the active processors
#[derive(Clone, Copy, Debug, PartialEq, Eq, Structural)]
pub struct Heartbeat {
    /// Heartbeat(current time in millis) published by the active processors.
    pub heartbeat: i64,
}

impl Default for Heartbeat {
    /// The heartbeat at time zero, as an empty encoding decodes to.
    fn default() -> (h: Heartbeat)
        ensures
            h == (Heartbeat { heartbeat: 0 }),
    {
        Heartbeat { heartbeat: 0 }
    }
}

} // verus!
