//! The per-stream encoder model.
//!
//! A [`VideoEncoder`] wraps one encoder instance bound to one output stream.
//! The codec algorithm itself is an external collaborator and is out of
//! scope; the model keeps what the muxing state machine depends on: the
//! two-phase submit/receive protocol, the internal buffering (an encoder may
//! hold up to `delay` frames back before emitting output, and then requires
//! an explicit drain), the immutable time base, and the status codes the
//! codec reports when it is opened, when its parameters are copied, and when
//! it is drained.  A nonnegative code means success; a negative code is the
//! error the collaborator would report.

use vstd::prelude::*;

verus! {

use crate::packet::{Packet, VideoFrame};
use crate::rational::Rational;

/// The packet an encoder emits for one submitted frame: it carries the
/// frame's timestamps and is not yet assigned to a container stream.
pub open spec fn packet_from_frame(f: VideoFrame) -> Packet {
    Packet { pts: f.pts, dts: f.pts, stream_index: 0 }
}

/// What one receive call yields: a packet, "try again" (the encoder is still
/// buffering), "end of stream" (a draining encoder has nothing left), or an
/// encoder error code.
#[derive(Clone, Copy, Debug, PartialEq, Eq, Structural)]
pub enum RecvStatus {
    Received(Packet),
    TryAgain,
    EndOfStream,
    Error(i32),
}

/// One encoder bound to one output stream.
#[derive(Debug)]
pub struct VideoEncoder {
    /// Which codec implementation the encoder is bound to.
    pub codec_id: u64,
    /// The encoder's time base; immutable once the encoder is opened.
    pub time_base: Rational,
    /// How many frames the encoder holds back before emitting output.  An
    /// encoder with `delay > 0` declares the delay capability and requires an
    /// explicit drain at end of stream.
    pub delay: usize,
    /// Status the codec reports when opened (negative: the open fails).
    pub open_code: i32,
    /// Status the codec reports when its parameters are copied out.
    pub params_code: i32,
    /// Status the codec reports while draining (negative: drain fails).
    pub drain_code: i32,
    /// Whether the encoder has been opened (bound to its codec).
    pub opened: bool,
    /// Whether the container format asked for out-of-band global headers.
    pub global_header: bool,
    /// Whether end of input has been signalled.
    pub flushing: bool,
    /// Every packet produced so far, in emission order.
    pub queue: Vec<Packet>,
    /// How many of the produced packets have been handed out.
    pub emitted: usize,
}

/// Two encoders agree on everything but the submit/receive progress.
pub open spec fn same_identity(a: VideoEncoder, b: VideoEncoder) -> bool {
    &&& a.codec_id == b.codec_id
    &&& a.time_base == b.time_base
    &&& a.delay == b.delay
    &&& a.open_code == b.open_code
    &&& a.params_code == b.params_code
    &&& a.drain_code == b.drain_code
    &&& a.opened == b.opened
    &&& a.global_header == b.global_header
}

impl VideoEncoder {
    /// How many of the produced packets the encoder is willing to hand out:
    /// all but the `delay` most recent ones, or all of them once draining.
    pub open spec fn avail(self) -> int {
        if self.flushing {
            self.queue@.len() as int
        } else if self.queue@.len() >= self.delay {
            self.queue@.len() - self.delay
        } else {
            0
        }
    }

    /// How many packets a receive loop can still extract right now.
    pub open spec fn backlog(self) -> int {
        self.avail() - self.emitted
    }

    pub open spec fn wf(self) -> bool {
        self.time_base.wf() && self.emitted <= self.avail()
    }

    /// A freshly configured encoder, as a builder expects it: not yet opened,
    /// not draining, nothing produced.
    pub open spec fn fresh(self) -> bool {
        &&& self.time_base.wf()
        &&& !self.opened
        &&& !self.flushing
        &&& self.queue@.len() == 0
        &&& self.emitted == 0
    }

    /// A well-behaved encoder: every status it reports is success.
    pub fn new(codec_id: u64, time_base: Rational, delay: usize) -> (e: VideoEncoder)
        requires
            time_base.wf(),
        ensures
            e.fresh(),
            e.wf(),
            e.codec_id == codec_id,
            e.time_base == time_base,
            e.delay == delay,
            e.open_code == 0,
            e.params_code == 0,
            e.drain_code == 0,
            !e.global_header,
    {
        VideoEncoder {
            codec_id,
            time_base,
            delay,
            open_code: 0,
            params_code: 0,
            drain_code: 0,
            opened: false,
            global_header: false,
            flushing: false,
            queue: Vec::new(),
            emitted: 0,
        }
    }

    /// An encoder whose codec reports the given status codes; a negative code
    /// makes the corresponding step fail.
    pub fn with_codes(
        codec_id: u64,
        time_base: Rational,
        delay: usize,
        open_code: i32,
        params_code: i32,
        drain_code: i32,
    ) -> (e: VideoEncoder)
        requires
            time_base.wf(),
        ensures
            e.fresh(),
            e.wf(),
            e.codec_id == codec_id,
            e.time_base == time_base,
            e.delay == delay,
            e.open_code == open_code,
            e.params_code == params_code,
            e.drain_code == drain_code,
            !e.global_header,
    {
        VideoEncoder {
            codec_id,
            time_base,
            delay,
            open_code,
            params_code,
            drain_code,
            opened: false,
            global_header: false,
            flushing: false,
            queue: Vec::new(),
            emitted: 0,
        }
    }

    /// Whether the encoder declares the delay capability: it may buffer
    /// output internally and must be drained explicitly.
    pub fn has_delay(&self) -> (r: bool)
        ensures
            r == (self.delay > 0),
    {
        self.delay > 0
    }

    /// Ask the container format for out-of-band global headers; must be set
    /// before the encoder is opened.
    pub fn set_global_header(&mut self)
        requires
            old(self).wf(),
        ensures
            final(self).wf(),
            *final(self) == (VideoEncoder { global_header: true, ..*old(self) }),
    {
        self.global_header = true;
    }

    /// Bind the encoder to its codec implementation.  Fails with the codec's
    /// status code exactly when the codec reports a failure; on failure the
    /// encoder is unchanged.
    pub fn open_codec(&mut self) -> (r: Result<(), i32>)
        requires
            old(self).wf(),
            !old(self).opened,
        ensures
            final(self).wf(),
            match r {
                Ok(()) => old(self).open_code >= 0 && *final(self) == (VideoEncoder {
                    opened: true,
                    ..*old(self)
                }),
                Err(code) => code == old(self).open_code && code < 0 && *final(self) == *old(self),
            },
    {
        if self.open_code < 0 {
            Err(self.open_code)
        } else {
            self.opened = true;
            Ok(())
        }
    }

    /// Submit one raw frame.  The produced packet joins the internal queue;
    /// whether it can be received right away depends on the encoder's delay.
    pub fn submit(&mut self, frame: &VideoFrame)
        requires
            old(self).wf(),
            old(self).opened,
            !old(self).flushing,
            old(self).queue@.len() < usize::MAX,
        ensures
            final(self).wf(),
            same_identity(*final(self), *old(self)),
            !final(self).flushing,
            final(self).queue@ == old(self).queue@.push(packet_from_frame(*frame)),
            final(self).emitted == old(self).emitted,
    {
        self.queue.push(Packet { pts: frame.pts, dts: frame.pts, stream_index: 0 });
    }

    /// Signal "no more input": from now on every produced packet can be
    /// received, and once they are exhausted the encoder reports end of
    /// stream.  Idempotent.
    pub fn begin_drain(&mut self)
        requires
            old(self).wf(),
            old(self).opened,
        ensures
            final(self).wf(),
            same_identity(*final(self), *old(self)),
            final(self).flushing,
            final(self).queue@ == old(self).queue@,
            final(self).emitted == old(self).emitted,
    {
        self.flushing = true;
    }

    /// Attempt to receive one packet.
    pub fn receive(&mut self) -> (r: RecvStatus)
        requires
            old(self).wf(),
            old(self).opened,
        ensures
            final(self).wf(),
            same_identity(*final(self), *old(self)),
            final(self).flushing == old(self).flushing,
            final(self).queue@ == old(self).queue@,
            match r {
                RecvStatus::Received(p) => {
                    &&& !(old(self).flushing && old(self).drain_code < 0)
                    &&& old(self).backlog() >= 1
                    &&& p == old(self).queue@[old(self).emitted as int]
                    &&& final(self).emitted == old(self).emitted + 1
                },
                RecvStatus::TryAgain => {
                    &&& !old(self).flushing
                    &&& old(self).backlog() == 0
                    &&& final(self).emitted == old(self).emitted
                },
                RecvStatus::EndOfStream => {
                    &&& old(self).flushing
                    &&& old(self).drain_code >= 0
                    &&& old(self).backlog() == 0
                    &&& final(self).emitted == old(self).emitted
                },
                RecvStatus::Error(code) => {
                    &&& old(self).flushing
                    &&& code == old(self).drain_code
                    &&& code < 0
                    &&& final(self).emitted == old(self).emitted
                },
            },
    {
        if self.flushing {
            if self.drain_code < 0 {
                RecvStatus::Error(self.drain_code)
            } else if self.emitted < self.queue.len() {
                let p = self.queue[self.emitted];
                self.emitted = self.emitted + 1;
                RecvStatus::Received(p)
            } else {
                RecvStatus::EndOfStream
            }
        } else {
            let ready = if self.queue.len() >= self.delay {
                self.queue.len() - self.delay
            } else {
                0
            };
            if self.emitted < ready {
                let p = self.queue[self.emitted];
                self.emitted = self.emitted + 1;
                RecvStatus::Received(p)
            } else {
                RecvStatus::TryAgain
            }
        }
    }
}

} // verus!
