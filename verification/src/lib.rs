//! A verified model of a video multiplexing pipeline.
//!
//! The library covers the packet lifecycle and the muxing state machine:
//! reference-counted packet ownership, the builder/open sequence that wires
//! encoders to container streams, the per-frame encode-and-write path, and
//! the end-of-stream drain protocol that empties every encoder's internal
//! buffering before the container trailer is written.
//!
//! The codec algorithms, the container byte layout and the transport are
//! external collaborators; they appear here as explicit data models
//! ([`engine::MediaEngine`], [`sink::MuxSink`], [`encoder::VideoEncoder`])
//! so that the orchestration logic around them can be verified.

pub mod encoder;
pub mod engine;
pub mod muxer;
pub mod packet;
pub mod rational;
pub mod rc_packet;
pub mod sink;
