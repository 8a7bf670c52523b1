//! The container writer and its builder.
//!
//! A [`MuxerBuilder`] collects name hints and per-stream encoders, then a
//! single consuming `open` resolves the container format, allocates the write
//! context, opens every encoder in stream order, copies parameters, and
//! writes the container header — releasing the context on every failure path
//! before the error is returned.  The resulting [`Muxer`] owns the context,
//! the sink and the encoders: `send_frame` drives one encoder and interleaves
//! every packet it emits (rescaled to the stream time base and tagged with
//! the stream index) into the sink, and `close` drains all delay-capable
//! encoders to quiescence, writes the trailer, and frees the context while
//! the sink is still alive.

use vstd::prelude::*;

verus! {

use crate::encoder::{packet_from_frame, same_identity, RecvStatus, VideoEncoder};
use crate::engine::{ContainerFormat, MediaEngine};
use crate::packet::{Packet, VideoFrame};
use crate::rational::{rescale_spec, Rational};
use crate::sink::{same_policy, MuxSink};

/// Microseconds per second: the unit of the container-level duration field.
pub const MICROS_PER_SECOND: u64 = 1_000_000;

/// Everything the muxing pipeline can report.
#[derive(Clone, Copy, Debug, PartialEq, Eq, Structural)]
pub enum MuxerError {
    /// No container format matches the configured name hints.
    UnknownFormat,
    /// The engine could not allocate a stream slot.
    StreamAllocationFailed,
    /// An encoder's codec failed to open, with the codec's status code.
    EncoderOpenFailed(i32),
    /// Copying an encoder's parameters to its stream slot failed.
    ParameterCopyFailed(i32),
    /// The container header could not be written.
    HeaderWriteFailed,
    /// An interleaved packet write failed.
    WriteFailed,
    /// An encoder reported an unexpected status while draining.
    EncodingFailed,
    /// The container trailer could not be written.
    TrailerWriteFailed,
}

/// One container stream slot: its index (equal to its position), the time
/// base the container gives it, and the codec parameters copied from its
/// encoder at open time.
#[derive(Clone, Copy, Debug)]
pub struct StreamSlot {
    pub index: usize,
    pub time_base: Rational,
    pub codec_params: Option<u64>,
}

/// A packet as it reaches the sink: timestamps rescaled from the encoder's
/// time base to the stream's, and the stream index assigned.
pub open spec fn wire_packet(p: Packet, from: Rational, to: Rational, idx: usize) -> Packet {
    Packet {
        pts: rescale_spec(p.pts as int, from, to) as i64,
        dts: rescale_spec(p.dts as int, from, to) as i64,
        stream_index: idx,
    }
}

/// The packets `q[lo..hi]`, each rescaled and tagged for stream `idx`.
pub open spec fn wired_range(
    q: Seq<Packet>,
    from: Rational,
    to: Rational,
    idx: usize,
    lo: int,
    hi: int,
) -> Seq<Packet> {
    Seq::new(
        if hi >= lo {
            (hi - lo) as nat
        } else {
            0
        },
        |k: int| wire_packet(q[lo + k], from, to, idx),
    )
}

proof fn lemma_wired_range_extend(
    q: Seq<Packet>,
    from: Rational,
    to: Rational,
    idx: usize,
    lo: int,
    hi: int,
)
    requires
        lo <= hi,
    ensures
        wired_range(q, from, to, idx, lo, hi + 1) == wired_range(q, from, to, idx, lo, hi).push(
            wire_packet(q[hi], from, to, idx),
        ),
{
    assert(wired_range(q, from, to, idx, lo, hi + 1) =~= wired_range(
        q,
        from,
        to,
        idx,
        lo,
        hi,
    ).push(wire_packet(q[hi], from, to, idx)));
}

/// The subsequence of `s` that belongs to stream `idx`, in arrival order.
pub open spec fn stream_packets(s: Seq<Packet>, idx: usize) -> Seq<Packet>
    decreases s.len(),
{
    if s.len() == 0 {
        Seq::empty()
    } else if s.last().stream_index == idx {
        stream_packets(s.drop_last(), idx).push(s.last())
    } else {
        stream_packets(s.drop_last(), idx)
    }
}

proof fn lemma_stream_packets_push(s: Seq<Packet>, p: Packet, idx: usize)
    ensures
        stream_packets(s.push(p), idx) == if p.stream_index == idx {
            stream_packets(s, idx).push(p)
        } else {
            stream_packets(s, idx)
        },
{
    assert(s.push(p).drop_last() =~= s);
    assert(s.push(p).last() == p);
}

/// How many packets a drain would still extract from one encoder.
pub open spec fn backlog_contrib(e: VideoEncoder) -> int {
    if e.delay > 0 {
        e.queue@.len() - e.emitted
    } else {
        0
    }
}

/// How many packets a drain would still extract from all delay-capable
/// encoders together.
pub open spec fn total_backlog(encs: Seq<VideoEncoder>) -> int
    decreases encs.len(),
{
    if encs.len() == 0 {
        0
    } else {
        total_backlog(encs.drop_last()) + backlog_contrib(encs.last())
    }
}

/// Every delay-capable encoder reports a clean status while draining.
pub open spec fn drain_ok(encs: Seq<VideoEncoder>) -> bool {
    forall|i: int|
        0 <= i < encs.len() ==> ((#[trigger] encs[i]).delay > 0 ==> encs[i].drain_code >= 0)
}

proof fn lemma_total_backlog_update(s: Seq<VideoEncoder>, i: int, e: VideoEncoder)
    requires
        0 <= i < s.len(),
    ensures
        total_backlog(s.update(i, e)) == total_backlog(s) - backlog_contrib(s[i])
            + backlog_contrib(e),
    decreases s.len(),
{
    let t = s.update(i, e);
    if i == s.len() - 1 {
        assert(t.drop_last() =~= s.drop_last());
    } else {
        assert(t.drop_last() =~= s.drop_last().update(i, e));
        lemma_total_backlog_update(s.drop_last(), i, e);
    }
}

proof fn lemma_total_backlog_bounds(s: Seq<VideoEncoder>, i: int)
    requires
        0 <= i < s.len(),
        forall|j: int| 0 <= j < s.len() ==> (#[trigger] s[j]).wf(),
    ensures
        total_backlog(s) >= backlog_contrib(s[i]),
        backlog_contrib(s[i]) >= 0,
    decreases s.len(),
{
    lemma_total_backlog_nonneg(s.drop_last());
    if i < s.len() - 1 {
        lemma_total_backlog_bounds(s.drop_last(), i);
    }
}

proof fn lemma_total_backlog_nonneg(s: Seq<VideoEncoder>)
    requires
        forall|j: int| 0 <= j < s.len() ==> (#[trigger] s[j]).wf(),
    ensures
        total_backlog(s) >= 0,
    decreases s.len(),
{
    if s.len() > 0 {
        lemma_total_backlog_nonneg(s.drop_last());
    }
}

/// The packets every encoder has produced, emitted or not, over all
/// encoders.
pub open spec fn total_queued(encs: Seq<VideoEncoder>) -> int
    decreases encs.len(),
{
    if encs.len() == 0 {
        0
    } else {
        total_queued(encs.drop_last()) + encs.last().queue@.len()
    }
}

/// When every encoder declares the delay capability and none has emitted a
/// packet eagerly, the backlog that `close` drains — and, by `close`'s
/// contract, the exact number of packets it writes before the trailer — is
/// the whole of what was submitted: every buffered packet is flushed, none
/// dropped and none duplicated.
pub proof fn lemma_backlog_is_everything_buffered(encs: Seq<VideoEncoder>)
    requires
        forall|i: int|
            0 <= i < encs.len() ==> (#[trigger] encs[i]).delay > 0 && encs[i].emitted == 0,
    ensures
        total_backlog(encs) == total_queued(encs),
    decreases encs.len(),
{
    if encs.len() > 0 {
        lemma_backlog_is_everything_buffered(encs.drop_last());
    }
}

/// How many packets one successful `send_frame` writes on a steady encoder —
/// one whose earlier sends all succeeded, so that everything available had
/// been emitted (`emitted == avail()`, the state `send_frame`'s contract
/// leaves).  While the encoder holds fewer packets than its delay the call
/// writes nothing, and every later call writes exactly one: with a delay of
/// three, sends one to three write no packet and each send after that writes
/// one.
pub proof fn lemma_send_frame_steady_count(e0: VideoEncoder, e1: VideoEncoder, n: int)
    requires
        !e0.flushing,
        !e1.flushing,
        e1.delay == e0.delay,
        e1.queue@.len() == e0.queue@.len() + 1,
        e0.emitted == e0.avail(),
        e1.emitted == e1.avail(),
        n == e1.emitted - e0.emitted,
    ensures
        e0.queue@.len() + 1 <= e0.delay ==> n == 0,
        e0.queue@.len() >= e0.delay ==> n == 1,
{
}

/// The container-level duration field, in whole seconds, floored; `0` when
/// the field is unset or non-positive, saturated at the `u32` range.
pub open spec fn duration_secs_spec(ts: int) -> int {
    if ts <= 0 {
        0
    } else if ts / (MICROS_PER_SECOND as int) > u32::MAX {
        u32::MAX as int
    } else {
        ts / (MICROS_PER_SECOND as int)
    }
}

/// The container writer: the write context, the ordered stream slots and
/// their encoders, and the sink, bound together until `close`.
#[derive(Debug)]
pub struct Muxer {
    /// The resolved container format.
    pub format: ContainerFormat,
    /// The container streams; a stream's index is its position.
    pub streams: Vec<StreamSlot>,
    /// The per-stream encoders, in stream order.
    pub encoders: Vec<VideoEncoder>,
    /// The byte destination; outlives the context until close.
    pub sink: MuxSink,
    /// The container-level duration field, in microseconds; `0` while unset.
    pub duration_ts: i64,
    /// Set exactly once, by `close`.
    pub closed: bool,
}

impl Muxer {
    /// A writer is well formed while open: one encoder per stream, every
    /// encoder opened and not yet draining, and every stream slot carrying
    /// its own position and the format's stream time base.
    pub open spec fn wf(self) -> bool {
        &&& self.streams@.len() == self.encoders@.len()
        &&& self.format.stream_time_base.wf()
        &&& forall|i: int|
            0 <= i < self.encoders@.len() ==> {
                let e = #[trigger] self.encoders@[i];
                e.wf() && e.opened && !e.flushing
            }
        &&& forall|i: int|
            0 <= i < self.streams@.len() ==> (#[trigger] self.streams@[i]).index == i
                && self.streams@[i].time_base == self.format.stream_time_base
    }

    /// Start configuring a writer.
    pub fn new() -> (b: MuxerBuilder)
        ensures
            b.name is None,
            b.format_name is None,
            b.encoders@.len() == 0,
    {
        MuxerBuilder::new()
    }

    /// The number of configured streams.
    pub fn num_streams(&self) -> (n: usize)
        ensures
            n == self.streams@.len(),
    {
        self.streams.len()
    }

    /// Duration in whole seconds, floored; `0` when the container-level
    /// duration is unset or non-positive.
    pub fn duration(&self) -> (d: u32)
        ensures
            d as int == duration_secs_spec(self.duration_ts as int),
    {
        if self.duration_ts <= 0 {
            0
        } else {
            let secs = (self.duration_ts as u64) / MICROS_PER_SECOND;
            if secs > u32::MAX as u64 {
                u32::MAX
            } else {
                secs as u32
            }
        }
    }

    /// The short name of the container format.
    pub fn format_name(&self) -> (n: &String)
        ensures
            n@ == self.format.name@,
    {
        &self.format.name
    }

    /// The descriptive name of the container format.
    pub fn format_long_name(&self) -> (n: &String)
        ensures
            n@ == self.format.long_name@,
    {
        &self.format.long_name
    }

    /// The per-stream encoders, in stream order.
    pub fn encoders(&self) -> (e: &Vec<VideoEncoder>)
        ensures
            e@ == self.encoders@,
    {
        &self.encoders
    }

    /// Mutable access to the per-stream encoders.  The writer's
    /// well-formedness is a precondition of `send_frame` and `close`, so a
    /// caller that disturbs it can no longer drive the writer.
    pub fn encoders_mut(&mut self) -> (e: &mut Vec<VideoEncoder>)
        ensures
            *e == old(self).encoders,
            final(self).encoders == *final(e),
            final(self).format == old(self).format,
            final(self).streams@ == old(self).streams@,
            final(self).sink == old(self).sink,
            final(self).duration_ts == old(self).duration_ts,
            final(self).closed == old(self).closed,
    {
        &mut self.encoders
    }

    /// Submit one raw frame to the encoder of stream `stream_id` and
    /// interleave every packet the encoder emits into the sink, rescaled to
    /// the stream time base and tagged with the stream index.  Returns how
    /// many packets were written; encoders with internal buffering may emit
    /// none now and more on later calls.  A write failure aborts the call
    /// with `WriteFailed`; the packet the encoder had already handed out is
    /// then consumed but not written.  An out-of-range stream index violates
    /// the precondition: the call is rejected at verification time, so no
    /// frame is submitted, no byte written, and nothing changed.  (A caller
    /// outside verification must test the index itself, or it gets the
    /// out-of-range panic of the stream lookup.)
    pub fn send_frame(&mut self, stream_id: usize, frame: &VideoFrame) -> (r: Result<
        usize,
        MuxerError,
    >)
        requires
            old(self).wf(),
            !old(self).closed,
            stream_id < old(self).streams@.len(),
            old(self).encoders@[stream_id as int].queue@.len() < usize::MAX,
        ensures
            final(self).wf(),
            !final(self).closed,
            final(self).format == old(self).format,
            final(self).streams@ == old(self).streams@,
            final(self).duration_ts == old(self).duration_ts,
            same_policy(final(self).sink, old(self).sink),
            final(self).sink.headers_written == old(self).sink.headers_written,
            final(self).sink.trailers_written == old(self).sink.trailers_written,
            final(self).sink.trailer_mark == old(self).sink.trailer_mark,
            final(self).encoders@.len() == old(self).encoders@.len(),
            forall|j: int|
                0 <= j < old(self).encoders@.len() && j != stream_id ==> final(self).encoders@[j]
                    == old(self).encoders@[j],
            same_identity(
                final(self).encoders@[stream_id as int],
                old(self).encoders@[stream_id as int],
            ),
            !final(self).encoders@[stream_id as int].flushing,
            final(self).encoders@[stream_id as int].queue@ == old(self).encoders@[stream_id as int].queue@.push(
                packet_from_frame(*frame),
            ),
            ({
                let e0 = old(self).encoders@[stream_id as int];
                let e1 = final(self).encoders@[stream_id as int];
                let to = old(self).format.stream_time_base;
                match r {
                    Ok(n) => {
                        &&& e1.emitted == e1.avail()
                        &&& n == e1.emitted - e0.emitted
                        &&& final(self).sink.packets@ == old(self).sink.packets@ + wired_range(
                            e1.queue@,
                            e0.time_base,
                            to,
                            stream_id,
                            e0.emitted as int,
                            e1.emitted as int,
                        )
                        &&& (!old(self).sink.accept_packets ==> n == 0)
                    },
                    Err(e) => {
                        &&& e == MuxerError::WriteFailed
                        &&& !old(self).sink.accept_packets
                        &&& e1.emitted == e0.emitted + 1
                        &&& final(self).sink.packets@ == old(self).sink.packets@
                    },
                }
            }),
    {
        let tb_from = self.encoders[stream_id].time_base;
        let tb_to = self.streams[stream_id].time_base;
        self.encoders[stream_id].submit(frame);
        let mut written: usize = 0;
        loop
            invariant
                old(self).wf(),
                !old(self).closed,
                stream_id < old(self).streams@.len(),
                stream_id < self.encoders@.len(),
                self.encoders@.len() == old(self).encoders@.len(),
                self.streams@.len() == self.encoders@.len(),
                forall|j: int|
                    0 <= j < old(self).encoders@.len() && j != stream_id
                        ==> #[trigger] self.encoders@[j] == old(self).encoders@[j],
                same_identity(
                    self.encoders@[stream_id as int],
                    old(self).encoders@[stream_id as int],
                ),
                self.encoders@[stream_id as int].wf(),
                self.encoders@[stream_id as int].opened,
                !self.encoders@[stream_id as int].flushing,
                self.encoders@[stream_id as int].queue@ == old(
                    self,
                ).encoders@[stream_id as int].queue@.push(packet_from_frame(*frame)),
                old(self).encoders@[stream_id as int].emitted
                    <= self.encoders@[stream_id as int].emitted,
                written == self.encoders@[stream_id as int].emitted - old(
                    self,
                ).encoders@[stream_id as int].emitted,
                tb_from == old(self).encoders@[stream_id as int].time_base,
                tb_from.wf(),
                tb_to.wf(),
                tb_to == old(self).format.stream_time_base,
                self.sink.packets@ == old(self).sink.packets@ + wired_range(
                    self.encoders@[stream_id as int].queue@,
                    tb_from,
                    tb_to,
                    stream_id,
                    old(self).encoders@[stream_id as int].emitted as int,
                    self.encoders@[stream_id as int].emitted as int,
                ),
                written > 0 ==> self.sink.accept_packets,
                same_policy(self.sink, old(self).sink),
                self.sink.headers_written == old(self).sink.headers_written,
                self.sink.trailers_written == old(self).sink.trailers_written,
                self.sink.trailer_mark == old(self).sink.trailer_mark,
                self.streams@ == old(self).streams@,
                self.format == old(self).format,
                self.duration_ts == old(self).duration_ts,
                !self.closed,
            decreases self.encoders@[stream_id as int].backlog(),
        {
            let st = self.encoders[stream_id].receive();
            match st {
                RecvStatus::Received(p) => {
                    proof {
                        lemma_wired_range_extend(
                            self.encoders@[stream_id as int].queue@,
                            tb_from,
                            tb_to,
                            stream_id,
                            old(self).encoders@[stream_id as int].emitted as int,
                            self.encoders@[stream_id as int].emitted - 1,
                        );
                    }
                    match write_frame(&mut self.sink, p, tb_from, tb_to, stream_id) {
                        Ok(()) => {
                            written = written + 1;
                        },
                        Err(e) => {
                            return Err(e);
                        },
                    }
                },
                _ => {
                    return Ok(written);
                },
            }
        }
    }
}

impl Muxer {
    /// Consume the writer: mark it closed, drain every delay-capable encoder
    /// to quiescence, write the container trailer, and free the write
    /// context — in that order, while the sink is still alive, because
    /// finalization may still write through it.  The sink is handed back
    /// together with the outcome; teardown happens whatever the outcome is.
    /// Closing after submitting fewer frames than an encoder's delay still
    /// flushes every buffered packet before the trailer is written.
    pub fn close(self, engine: &mut MediaEngine) -> (r: (MuxSink, Result<(), MuxerError>))
        requires
            self.wf(),
            !self.closed,
            old(engine).live_contexts >= 1,
            old(engine).stream_quota + self.streams@.len() <= usize::MAX,
            self.sink.trailers_written < usize::MAX,
        ensures
            old(engine).wf() ==> final(engine).wf(),
            final(engine).formats@ == old(engine).formats@,
            final(engine).live_contexts == old(engine).live_contexts - 1,
            final(engine).stream_quota == old(engine).stream_quota + self.streams@.len(),
            same_policy(r.0, self.sink),
            r.0.headers_written == self.sink.headers_written,
            self.sink.packets@.is_prefix_of(r.0.packets@),
            (r.1 is Ok <==> (drain_ok(self.encoders@) && (self.sink.accept_packets
                || total_backlog(self.encoders@) == 0) && self.sink.accept_trailer)),
            match r.1 {
                Ok(()) => {
                    &&& r.0.packets@.len() == self.sink.packets@.len() + total_backlog(
                        self.encoders@,
                    )
                    &&& forall|i: int|
                        0 <= i < self.encoders@.len() ==> stream_packets(r.0.packets@, i as usize)
                            == stream_packets(self.sink.packets@, i as usize) + (
                        if (#[trigger] self.encoders@[i]).delay > 0 {
                            wired_range(
                                self.encoders@[i].queue@,
                                self.encoders@[i].time_base,
                                self.format.stream_time_base,
                                i as usize,
                                self.encoders@[i].emitted as int,
                                self.encoders@[i].queue@.len() as int,
                            )
                        } else {
                            Seq::empty()
                        })
                    &&& r.0.trailers_written == self.sink.trailers_written + 1
                    &&& r.0.trailer_mark == Some(r.0.packets@.len() as usize)
                },
                Err(e) => {
                    &&& r.0.trailers_written == self.sink.trailers_written
                    &&& r.0.trailer_mark == self.sink.trailer_mark
                    &&& (e == MuxerError::WriteFailed || e == MuxerError::EncodingFailed || e
                        == MuxerError::TrailerWriteFailed)
                    &&& (e == MuxerError::WriteFailed ==> !self.sink.accept_packets
                        && total_backlog(self.encoders@) >= 1)
                    &&& (e == MuxerError::EncodingFailed ==> !drain_ok(self.encoders@))
                    &&& (e == MuxerError::TrailerWriteFailed ==> !self.sink.accept_trailer
                        && r.0.packets@.len() == self.sink.packets@.len() + total_backlog(
                        self.encoders@,
                    ))
                },
            },
    {
        let mut this = self;
        this.closed = true;
        let Muxer { format, streams, encoders: mut encoders, sink: mut sink, .. } = this;
        let n = streams.len();
        let drained = drain_all(&mut encoders, &mut sink, format.stream_time_base);
        let res: Result<(), MuxerError> = match drained {
            Ok(()) => match sink.write_trailer() {
                Ok(()) => Ok(()),
                Err(()) => Err(MuxerError::TrailerWriteFailed),
            },
            Err(e) => Err(e),
        };
        engine.free_context(n);
        (sink, res)
    }
}

impl Muxer {
    /// Tear a writer down without reporting the flush outcome: the fate of a
    /// writer that is abandoned instead of explicitly closed.  The same
    /// drain, trailer and teardown sequence runs as in `close`, best-effort,
    /// but its errors are suppressed and discarded, because no caller is
    /// present to receive them.  Prefer `close`, which reports the outcome.
    pub fn abandon(self, engine: &mut MediaEngine) -> (out: MuxSink)
        requires
            self.wf(),
            !self.closed,
            old(engine).live_contexts >= 1,
            old(engine).stream_quota + self.streams@.len() <= usize::MAX,
            self.sink.trailers_written < usize::MAX,
        ensures
            old(engine).wf() ==> final(engine).wf(),
            final(engine).formats@ == old(engine).formats@,
            final(engine).live_contexts == old(engine).live_contexts - 1,
            final(engine).stream_quota == old(engine).stream_quota + self.streams@.len(),
            same_policy(out, self.sink),
            out.headers_written == self.sink.headers_written,
            self.sink.packets@.is_prefix_of(out.packets@),
            // Where nothing would have made `close` fail, the full drain ran
            // and the trailer was written, exactly as on the explicit path.
            (drain_ok(self.encoders@) && (self.sink.accept_packets || total_backlog(
                self.encoders@,
            ) == 0) && self.sink.accept_trailer) ==> {
                &&& out.packets@.len() == self.sink.packets@.len() + total_backlog(
                    self.encoders@,
                )
                &&& forall|i: int|
                    0 <= i < self.encoders@.len() ==> stream_packets(out.packets@, i as usize)
                        == stream_packets(self.sink.packets@, i as usize) + (
                    if (#[trigger] self.encoders@[i]).delay > 0 {
                        wired_range(
                            self.encoders@[i].queue@,
                            self.encoders@[i].time_base,
                            self.format.stream_time_base,
                            i as usize,
                            self.encoders@[i].emitted as int,
                            self.encoders@[i].queue@.len() as int,
                        )
                    } else {
                        Seq::empty()
                    })
                &&& out.trailers_written == self.sink.trailers_written + 1
                &&& out.trailer_mark == Some(out.packets@.len() as usize)
            },
            // Where the sequence would have failed, the error is discarded;
            // the trailer was then not written.
            !(drain_ok(self.encoders@) && (self.sink.accept_packets || total_backlog(
                self.encoders@,
            ) == 0) && self.sink.accept_trailer) ==> {
                &&& out.trailers_written == self.sink.trailers_written
                &&& out.trailer_mark == self.sink.trailer_mark
            },
    {
        let (out, _outcome) = self.close(engine);
        out
    }
}

/// What draining leaves of one encoder: delay-capable encoders keep their
/// identity and queue and are switched to flushing with their emission point
/// only advanced; encoders without the delay capability are untouched.
spec fn drained_like(e: VideoEncoder, e0: VideoEncoder) -> bool {
    if e0.delay > 0 {
        &&& same_identity(e, e0)
        &&& e.flushing
        &&& e.queue@ == e0.queue@
        &&& e0.emitted <= e.emitted
        &&& e.wf()
    } else {
        e == e0
    }
}

/// The per-stream drain guarantee: what the sink holds for stream `i` is
/// what it held before, extended by stream `i`'s packets up to its current
/// emission point, rescaled and tagged.
spec fn drained_proj(
    pk: Seq<Packet>,
    pk0: Seq<Packet>,
    e0: VideoEncoder,
    cur_emitted: int,
    to: Rational,
    i: int,
) -> bool {
    stream_packets(pk, i as usize) == stream_packets(pk0, i as usize) + (if e0.delay > 0 {
        wired_range(e0.queue@, e0.time_base, to, i as usize, e0.emitted as int, cur_emitted)
    } else {
        Seq::empty()
    })
}

proof fn lemma_total_backlog_zero(s: Seq<VideoEncoder>)
    requires
        forall|i: int| 0 <= i < s.len() ==> backlog_contrib(#[trigger] s[i]) == 0,
    ensures
        total_backlog(s) == 0,
    decreases s.len(),
{
    if s.len() > 0 {
        lemma_total_backlog_zero(s.drop_last());
    }
}

/// Drain every delay-capable encoder to quiescence: signal end of input to
/// each, then poll the streams in a fixed round-robin order, rescaling,
/// tagging and writing each received packet, releasing it after the write,
/// until a full round produces no packet from any stream.
fn drain_all(encoders: &mut Vec<VideoEncoder>, sink: &mut MuxSink, to: Rational) -> (r: Result<
    (),
    MuxerError,
>)
    requires
        to.wf(),
        forall|i: int|
            0 <= i < old(encoders)@.len() ==> {
                let e = #[trigger] old(encoders)@[i];
                e.wf() && e.opened && !e.flushing
            },
    ensures
        final(encoders)@.len() == old(encoders)@.len(),
        forall|i: int|
            0 <= i < old(encoders)@.len() ==> drained_like(
                #[trigger] final(encoders)@[i],
                old(encoders)@[i],
            ),
        same_policy(*final(sink), *old(sink)),
        final(sink).headers_written == old(sink).headers_written,
        final(sink).trailers_written == old(sink).trailers_written,
        final(sink).trailer_mark == old(sink).trailer_mark,
        old(sink).packets@.is_prefix_of(final(sink).packets@),
        match r {
            Ok(()) => {
                &&& drain_ok(old(encoders)@)
                &&& (old(sink).accept_packets || total_backlog(old(encoders)@) == 0)
                &&& forall|i: int|
                    0 <= i < old(encoders)@.len() && (#[trigger] old(encoders)@[i]).delay > 0
                        ==> final(encoders)@[i].emitted == final(encoders)@[i].queue@.len()
                &&& final(sink).packets@.len() == old(sink).packets@.len() + total_backlog(
                    old(encoders)@,
                )
                &&& forall|i: int|
                    0 <= i < old(encoders)@.len() ==> drained_proj(
                        final(sink).packets@,
                        old(sink).packets@,
                        old(encoders)@[i],
                        old(encoders)@[i].queue@.len() as int,
                        to,
                        i,
                    )
            },
            Err(e) => {
                &&& (e == MuxerError::WriteFailed || e == MuxerError::EncodingFailed)
                &&& (e == MuxerError::WriteFailed ==> !old(sink).accept_packets && total_backlog(
                    old(encoders)@,
                ) >= 1)
                &&& (e == MuxerError::EncodingFailed ==> !drain_ok(old(encoders)@))
            },
        },
{
    let n = encoders.len();
    let ghost encs0 = encoders@;
    let ghost sink0 = *sink;
    // Signal "no more input" to every encoder that may buffer internally.
    for k in 0..n
        invariant
            n == encoders@.len(),
            n == encs0.len(),
            forall|i: int|
                0 <= i < n ==> {
                    let e = #[trigger] encs0[i];
                    e.wf() && e.opened && !e.flushing
                },
            forall|i: int|
                0 <= i < k ==> drained_like(#[trigger] encoders@[i], encs0[i])
                    && encoders@[i].emitted == encs0[i].emitted,
            forall|i: int| k <= i < n ==> #[trigger] encoders@[i] == encs0[i],
    {
        if encoders[k].has_delay() {
            encoders[k].begin_drain();
        }
    }
    proof {
        lemma_total_backlog_same(encoders@, encs0);
    }
    // Poll round-robin until a full round is quiescent.
    loop
        invariant
            encs0 == old(encoders)@,
            sink0 == *old(sink),
            n == encoders@.len(),
            n == encs0.len(),
            to.wf(),
            forall|i: int|
                0 <= i < n ==> {
                    let e = #[trigger] encs0[i];
                    e.wf() && e.opened && !e.flushing
                },
            forall|i: int| 0 <= i < n ==> drained_like(#[trigger] encoders@[i], encs0[i]),
            same_policy(*sink, sink0),
            sink.headers_written == sink0.headers_written,
            sink.trailers_written == sink0.trailers_written,
            sink.trailer_mark == sink0.trailer_mark,
            sink0.packets@.is_prefix_of(sink.packets@),
            total_backlog(encoders@) + sink.packets@.len() - sink0.packets@.len()
                == total_backlog(encs0),
            sink.packets@.len() > sink0.packets@.len() ==> sink0.accept_packets,
            forall|i: int|
                0 <= i < n ==> #[trigger] drained_proj(
                    sink.packets@,
                    sink0.packets@,
                    encs0[i],
                    encoders@[i].emitted as int,
                    to,
                    i,
                ),
        ensures
            n == encoders@.len(),
            forall|i: int| 0 <= i < n ==> drained_like(#[trigger] encoders@[i], encs0[i]),
            same_policy(*sink, sink0),
            sink.headers_written == sink0.headers_written,
            sink.trailers_written == sink0.trailers_written,
            sink.trailer_mark == sink0.trailer_mark,
            sink0.packets@.is_prefix_of(sink.packets@),
            total_backlog(encoders@) + sink.packets@.len() - sink0.packets@.len()
                == total_backlog(encs0),
            sink.packets@.len() > sink0.packets@.len() ==> sink0.accept_packets,
            forall|i: int|
                0 <= i < n ==> #[trigger] drained_proj(
                    sink.packets@,
                    sink0.packets@,
                    encs0[i],
                    encoders@[i].emitted as int,
                    to,
                    i,
                ),
            forall|i: int|
                0 <= i < n && (#[trigger] encs0[i]).delay > 0 ==> encoders@[i].emitted
                    == encoders@[i].queue@.len() && encs0[i].drain_code >= 0,
        decreases total_backlog(encoders@),
    {
        let ghost round0 = encoders@;
        let mut produced = false;
        for k in 0..n
            invariant
                encs0 == old(encoders)@,
                sink0 == *old(sink),
                n == encoders@.len(),
                n == encs0.len(),
                n == round0.len(),
                to.wf(),
                forall|i: int|
                    0 <= i < n ==> {
                        let e = #[trigger] encs0[i];
                        e.wf() && e.opened && !e.flushing
                    },
                forall|i: int| 0 <= i < n ==> drained_like(#[trigger] encoders@[i], encs0[i]),
                same_policy(*sink, sink0),
                sink.headers_written == sink0.headers_written,
                sink.trailers_written == sink0.trailers_written,
                sink.trailer_mark == sink0.trailer_mark,
                sink0.packets@.is_prefix_of(sink.packets@),
                total_backlog(encoders@) + sink.packets@.len() - sink0.packets@.len()
                    == total_backlog(encs0),
                sink.packets@.len() > sink0.packets@.len() ==> sink0.accept_packets,
                forall|i: int|
                    0 <= i < n ==> #[trigger] drained_proj(
                        sink.packets@,
                        sink0.packets@,
                        encs0[i],
                        encoders@[i].emitted as int,
                        to,
                        i,
                    ),
                total_backlog(encoders@) <= total_backlog(round0),
                produced ==> total_backlog(encoders@) < total_backlog(round0),
                !produced ==> forall|i: int|
                    0 <= i < k && (#[trigger] encs0[i]).delay > 0 ==> encoders@[i].emitted
                        == encoders@[i].queue@.len() && encs0[i].drain_code >= 0,
        {
            if encoders[k].has_delay() {
                let ghost iter0 = encoders@;
                let st = encoders[k].receive();
                match st {
                    RecvStatus::Received(p) => {
                        proof {
                            lemma_total_backlog_update(iter0, k as int, encoders@[k as int]);
                            lemma_total_backlog_bounds(iter0, k as int);
                        }
                        let tbf = encoders[k].time_base;
                        let ghost pk_before = sink.packets@;
                        match write_frame(sink, p, tbf, to, k) {
                            Ok(()) => {
                                proof {
                                    let w = wire_packet(p, tbf, to, k);
                                    assert forall|i: int| 0 <= i < n implies #[trigger] drained_proj(
                                        sink.packets@,
                                        sink0.packets@,
                                        encs0[i],
                                        encoders@[i].emitted as int,
                                        to,
                                        i,
                                    ) by {
                                        lemma_stream_packets_push(pk_before, w, i as usize);
                                        assert(drained_proj(
                                            pk_before,
                                            sink0.packets@,
                                            encs0[i],
                                            iter0[i].emitted as int,
                                            to,
                                            i,
                                        ));
                                        if i == k as int {
                                            lemma_wired_range_extend(
                                                encs0[i].queue@,
                                                encs0[i].time_base,
                                                to,
                                                k,
                                                encs0[i].emitted as int,
                                                iter0[i].emitted as int,
                                            );
                                            assert((stream_packets(sink0.packets@, k) + wired_range(
                                                encs0[i].queue@,
                                                encs0[i].time_base,
                                                to,
                                                k,
                                                encs0[i].emitted as int,
                                                iter0[i].emitted as int,
                                            )).push(w) =~= stream_packets(sink0.packets@, k)
                                                + wired_range(
                                                encs0[i].queue@,
                                                encs0[i].time_base,
                                                to,
                                                k,
                                                encs0[i].emitted as int,
                                                iter0[i].emitted + 1,
                                            ));
                                        }
                                    }
                                }
                                produced = true;
                            },
                            Err(e) => {
                                return Err(e);
                            },
                        }
                    },
                    RecvStatus::TryAgain => {
                        proof {
                            lemma_total_backlog_update(iter0, k as int, encoders@[k as int]);
                        }
                    },
                    RecvStatus::EndOfStream => {
                        proof {
                            lemma_total_backlog_update(iter0, k as int, encoders@[k as int]);
                        }
                    },
                    RecvStatus::Error(_) => {
                        proof {
                            assert(encs0[k as int].delay > 0 && encs0[k as int].drain_code < 0);
                            assert(!drain_ok(encs0));
                        }
                        return Err(MuxerError::EncodingFailed);
                    },
                }
            }
        }
        if !produced {
            break;
        }
        proof {
            assert forall|i: int| 0 <= i < n implies (#[trigger] encoders@[i]).wf() by {
                assert(drained_like(encoders@[i], encs0[i]));
            }
            lemma_total_backlog_nonneg(encoders@);
        }
    }
    proof {
        assert forall|i: int| 0 <= i < n implies backlog_contrib(#[trigger] encoders@[i]) == 0 by {
            assert(drained_like(encoders@[i], encs0[i]));
        }
        lemma_total_backlog_zero(encoders@);
        assert(drain_ok(encs0));
        assert(sink.packets@.len() - sink0.packets@.len() == total_backlog(encs0));
        assert(sink0.accept_packets || total_backlog(encs0) == 0);
        assert forall|i: int| 0 <= i < n implies drained_proj(
            sink.packets@,
            sink0.packets@,
            encs0[i],
            encs0[i].queue@.len() as int,
            to,
            i,
        ) by {
            assert(drained_proj(
                sink.packets@,
                sink0.packets@,
                encs0[i],
                encoders@[i].emitted as int,
                to,
                i,
            ));
            assert(drained_like(encoders@[i], encs0[i]));
        }
    }
    Ok(())
}

proof fn lemma_total_backlog_same(s: Seq<VideoEncoder>, t: Seq<VideoEncoder>)
    requires
        s.len() == t.len(),
        forall|i: int|
            0 <= i < s.len() ==> backlog_contrib(#[trigger] s[i]) == backlog_contrib(t[i]),
    ensures
        total_backlog(s) == total_backlog(t),
    decreases s.len(),
{
    if s.len() > 0 {
        assert(s.drop_last().len() == t.drop_last().len());
        lemma_total_backlog_same(s.drop_last(), t.drop_last());
    }
}

/// Rescale a packet's timestamps from the encoder time base to the stream
/// time base, assign the stream index, and interleave it into the sink.
fn write_frame(sink: &mut MuxSink, packet: Packet, from: Rational, to: Rational, idx: usize) -> (r:
    Result<(), MuxerError>)
    requires
        from.wf(),
        to.wf(),
    ensures
        same_policy(*final(sink), *old(sink)),
        final(sink).headers_written == old(sink).headers_written,
        final(sink).trailers_written == old(sink).trailers_written,
        final(sink).trailer_mark == old(sink).trailer_mark,
        match r {
            Ok(()) => old(sink).accept_packets && final(sink).packets@ == old(sink).packets@.push(
                wire_packet(packet, from, to, idx),
            ),
            Err(e) => e == MuxerError::WriteFailed && !old(sink).accept_packets
                && final(sink).packets@ == old(sink).packets@,
        },
{
    let mut p = packet;
    p.pts = crate::rational::rescale_ts(p.pts, from, to);
    p.dts = crate::rational::rescale_ts(p.dts, from, to);
    p.stream_index = idx;
    match sink.write_packet(p) {
        Ok(()) => Ok(()),
        Err(()) => Err(MuxerError::WriteFailed),
    }
}

/// The configuration a writer is opened from: optional container and format
/// name hints, and the encoder list in stream order.  Consumed exactly once
/// by `open`.
#[derive(Debug)]
pub struct MuxerBuilder {
    pub name: Option<String>,
    pub format_name: Option<String>,
    pub encoders: Vec<VideoEncoder>,
}

/// The name hint `open` resolves the container format from: the format name
/// when set, else the container name, else nothing.
pub open spec fn builder_hint(b: MuxerBuilder) -> Option<Seq<char>> {
    if b.format_name is Some {
        Some(b.format_name.unwrap()@)
    } else if b.name is Some {
        Some(b.name.unwrap()@)
    } else {
        None
    }
}

/// Whether no registered format matches the hint.
pub open spec fn no_format_match(formats: Seq<ContainerFormat>, hint: Option<Seq<char>>) -> bool {
    match hint {
        None => true,
        Some(h) => forall|j: int| 0 <= j < formats.len() ==> (#[trigger] formats[j]).name@ != h,
    }
}

/// The outcome of the open sequence from stream `k` on: stream allocation,
/// encoder open and parameter copy for each stream in order, then the header
/// write.  `quota` is the engine's stream quota when the sequence started.
pub open spec fn open_outcome(
    encs: Seq<VideoEncoder>,
    quota: int,
    accept_header: bool,
    k: int,
) -> Result<(), MuxerError>
    decreases encs.len() - k,
{
    if k < 0 || k >= encs.len() {
        if accept_header {
            Ok(())
        } else {
            Err(MuxerError::HeaderWriteFailed)
        }
    } else if quota <= k {
        Err(MuxerError::StreamAllocationFailed)
    } else if encs[k].open_code < 0 {
        Err(MuxerError::EncoderOpenFailed(encs[k].open_code))
    } else if encs[k].params_code < 0 {
        Err(MuxerError::ParameterCopyFailed(encs[k].params_code))
    } else {
        open_outcome(encs, quota, accept_header, k + 1)
    }
}

/// A builder with no encoders owes success to every caller whose header
/// write is accepted: the open sequence reduces to the header write alone,
/// and the writer it yields has zero streams.
pub proof fn lemma_open_zero_encoders(encs: Seq<VideoEncoder>, quota: int, accept_header: bool)
    requires
        encs.len() == 0,
        accept_header,
    ensures
        open_outcome(encs, quota, accept_header, 0) is Ok,
{
}

impl MuxerBuilder {
    pub fn new() -> (b: MuxerBuilder)
        ensures
            b.name is None,
            b.format_name is None,
            b.encoders@.len() == 0,
    {
        MuxerBuilder { name: None, format_name: None, encoders: Vec::new() }
    }

    /// Set the name of the container.  If no format name is set, this name
    /// is used to resolve the format.  The name must be representable in a
    /// null-terminated encoding: no embedded terminator characters.
    pub fn name(&mut self, name: &str)
        requires
            forall|i: int| 0 <= i < name@.len() ==> name@[i] != '\0',
        ensures
            final(self).name matches Some(n) && n@ == name@,
            final(self).format_name == old(self).format_name,
            final(self).encoders@ == old(self).encoders@,
    {
        self.name = Some(name.to_owned());
    }

    /// Set the name of the container format.  If unset, the container name
    /// is used to resolve the format.  The name must be representable in a
    /// null-terminated encoding: no embedded terminator characters.
    pub fn format_name(&mut self, format: &str)
        requires
            forall|i: int| 0 <= i < format@.len() ==> format@[i] != '\0',
        ensures
            final(self).format_name matches Some(n) && n@ == format@,
            final(self).name == old(self).name,
            final(self).encoders@ == old(self).encoders@,
    {
        self.format_name = Some(format.to_owned());
    }

    /// Append an encoder; the resulting stream index equals insertion order.
    /// No validation happens at this point.
    pub fn add_encoder(&mut self, encoder: VideoEncoder)
        ensures
            final(self).encoders@ == old(self).encoders@.push(encoder),
            final(self).name == old(self).name,
            final(self).format_name == old(self).format_name,
    {
        self.encoders.push(encoder);
    }

    /// Consume the builder: resolve the container format from the name
    /// hints, allocate the write context, then for every encoder in stream
    /// order allocate a stream slot, ask for global headers where the format
    /// requires them, open the encoder, and copy its parameters to the slot;
    /// finally write the container header through the sink.  On any failure
    /// the context and every stream slot it holds are released before the
    /// error is returned, so a failed open leaks nothing; the same
    /// configuration fails the same way every time.
    pub fn open(self, engine: &mut MediaEngine, sink: MuxSink) -> (r: Result<Muxer, MuxerError>)
        requires
            old(engine).wf(),
            old(engine).live_contexts < usize::MAX,
            sink.headers_written < usize::MAX,
            forall|i: int| 0 <= i < self.encoders@.len() ==> (#[trigger] self.encoders@[i]).fresh(),
        ensures
            final(engine).wf(),
            final(engine).formats@ == old(engine).formats@,
            match r {
                Ok(m) => {
                    &&& builder_hint(self) is Some
                    &&& exists|fi: int|
                        {
                            &&& 0 <= fi < old(engine).formats@.len()
                            &&& (#[trigger] old(engine).formats@[fi]).name@ == builder_hint(
                                self,
                            ).unwrap()
                            &&& forall|j: int|
                                0 <= j < fi ==> (#[trigger] old(engine).formats@[j]).name@
                                    != builder_hint(self).unwrap()
                            &&& m.format == old(engine).formats@[fi]
                        }
                    &&& open_outcome(
                        self.encoders@,
                        old(engine).stream_quota as int,
                        sink.accept_header,
                        0,
                    ) is Ok
                    &&& m.wf()
                    &&& !m.closed
                    &&& m.duration_ts == 0
                    &&& m.streams@.len() == self.encoders@.len()
                    &&& m.encoders@.len() == self.encoders@.len()
                    &&& forall|i: int|
                        0 <= i < self.encoders@.len() ==> opened_from(
                            #[trigger] m.encoders@[i],
                            self.encoders@[i],
                            m.format.needs_global_header,
                        )
                    &&& forall|i: int|
                        0 <= i < self.encoders@.len() ==> (#[trigger] m.streams@[i]).codec_params
                            == Some(self.encoders@[i].codec_id)
                    &&& same_policy(m.sink, sink)
                    &&& m.sink.headers_written == sink.headers_written + 1
                    &&& m.sink.packets@ == sink.packets@
                    &&& m.sink.trailers_written == sink.trailers_written
                    &&& m.sink.trailer_mark == sink.trailer_mark
                    &&& final(engine).live_contexts == old(engine).live_contexts + 1
                    &&& final(engine).stream_quota == old(engine).stream_quota
                        - self.encoders@.len()
                },
                Err(e) => {
                    &&& final(engine).live_contexts == old(engine).live_contexts
                    &&& final(engine).stream_quota == old(engine).stream_quota
                    &&& if no_format_match(old(engine).formats@, builder_hint(self)) {
                        e == MuxerError::UnknownFormat
                    } else {
                        Result::<(), MuxerError>::Err(e) == open_outcome(
                            self.encoders@,
                            old(engine).stream_quota as int,
                            sink.accept_header,
                            0,
                        )
                    }
                },
            },
    {
        let MuxerBuilder { name, format_name, encoders: mut encoders } = self;
        let fi_opt: Option<usize> = match &format_name {
            Some(h) => engine.resolve_format(h),
            None => match &name {
                Some(h) => engine.resolve_format(h),
                None => None,
            },
        };
        let fi: usize = match fi_opt {
            Some(i) => i,
            None => {
                return Err(MuxerError::UnknownFormat);
            },
        };
        let fmt = engine.formats[fi].duplicate();
        engine.alloc_context();
        let ghost q0 = old(engine).stream_quota;
        let n = encoders.len();
        let mut streams: Vec<StreamSlot> = Vec::new();
        for k in 0..n
            invariant
                engine.wf(),
                engine.formats@ == old(engine).formats@,
                engine.live_contexts == old(engine).live_contexts + 1,
                old(engine).live_contexts < usize::MAX,
                k <= q0,
                engine.stream_quota == q0 - k,
                q0 == old(engine).stream_quota,
                n == self.encoders@.len(),
                encoders@.len() == n,
                streams@.len() == k,
                forall|i: int| 0 <= i < n ==> (#[trigger] self.encoders@[i]).fresh(),
                forall|i: int|
                    0 <= i < k ==> opened_from(
                        #[trigger] encoders@[i],
                        self.encoders@[i],
                        fmt.needs_global_header,
                    ),
                forall|i: int| k <= i < n ==> #[trigger] encoders@[i] == self.encoders@[i],
                forall|i: int|
                    0 <= i < k ==> {
                        let s = #[trigger] streams@[i];
                        s.index == i && s.time_base == fmt.stream_time_base && s.codec_params
                            == Some(self.encoders@[i].codec_id)
                    },
                fi < old(engine).formats@.len(),
                fmt == old(engine).formats@[fi as int],
                fmt.stream_time_base.wf(),
                builder_hint(self) is Some,
                old(engine).formats@[fi as int].name@ == builder_hint(self).unwrap(),
                forall|j: int|
                    0 <= j < fi ==> (#[trigger] old(engine).formats@[j]).name@ != builder_hint(
                        self,
                    ).unwrap(),
                open_outcome(self.encoders@, q0 as int, sink.accept_header, 0) == open_outcome(
                    self.encoders@,
                    q0 as int,
                    sink.accept_header,
                    k as int,
                ),
        {
            let ok = engine.take_stream_slot();
            if !ok {
                engine.free_context(k);
                return Err(MuxerError::StreamAllocationFailed);
            }
            if fmt.needs_global_header {
                encoders[k].set_global_header();
            }
            match encoders[k].open_codec() {
                Ok(()) => {},
                Err(code) => {
                    engine.free_context(k + 1);
                    return Err(MuxerError::EncoderOpenFailed(code));
                },
            }
            let pc = encoders[k].params_code;
            if pc < 0 {
                engine.free_context(k + 1);
                return Err(MuxerError::ParameterCopyFailed(pc));
            }
            let cid = encoders[k].codec_id;
            streams.push(StreamSlot {
                index: k,
                time_base: fmt.stream_time_base,
                codec_params: Some(cid),
            });
        }
        let mut out_sink = sink;
        match out_sink.write_header() {
            Ok(()) => {},
            Err(()) => {
                engine.free_context(n);
                return Err(MuxerError::HeaderWriteFailed);
            },
        }
        Ok(Muxer {
            format: fmt,
            streams,
            encoders,
            sink: out_sink,
            duration_ts: 0,
            closed: false,
        })
    }
}

/// The fields an encoder keeps, and the fields the open sequence sets, when
/// a builder opens encoder `e0` into `e` for a container that does or does
/// not require global headers.
pub open spec fn opened_from(e: VideoEncoder, e0: VideoEncoder, needs_global_header: bool) -> bool {
    &&& e.codec_id == e0.codec_id
    &&& e.time_base == e0.time_base
    &&& e.delay == e0.delay
    &&& e.open_code == e0.open_code
    &&& e.params_code == e0.params_code
    &&& e.drain_code == e0.drain_code
    &&& e.opened
    &&& !e.flushing
    &&& e.queue@ == e0.queue@
    &&& e.emitted == e0.emitted
    &&& e.global_header == (e0.global_header || needs_global_header)
}

} // verus!
