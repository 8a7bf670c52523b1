//! Plain data units of the pipeline.

use vstd::prelude::*;

verus! {

/// One unit of compressed data emitted by an encoder, tagged with timestamps
/// (counted in some time base) and the index of the container stream it
/// belongs to.  The index is assigned by the muxer when the packet is
/// written; packets leave an encoder with index `0`.
#[derive(Clone, Copy, Debug, PartialEq, Eq, Structural)]
pub struct Packet {
    pub pts: i64,
    pub dts: i64,
    pub stream_index: usize,
}

/// One raw video frame handed to an encoder, carrying its presentation
/// timestamp in the encoder's time base.
#[derive(Clone, Copy, Debug, PartialEq, Eq, Structural)]
pub struct VideoFrame {
    pub pts: i64,
}

} // verus!
