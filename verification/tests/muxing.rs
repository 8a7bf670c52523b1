use muxcore::encoder::VideoEncoder;
use muxcore::engine::{ContainerFormat, MediaEngine};
use muxcore::muxer::{Muxer, MuxerError};
use muxcore::packet::VideoFrame;
use muxcore::rational::Rational;
use muxcore::sink::MuxSink;

fn engine_with_mp4(stream_quota: usize) -> MediaEngine {
    let mut engine = MediaEngine::new(stream_quota);
    engine.register_format(ContainerFormat::new(
        String::from("mp4"),
        String::from("MPEG-4 container"),
        false,
        Rational::new(1, 1000),
    ));
    engine
}

#[test]
fn open_zero_encoders_yields_empty_writer() {
    let mut engine = engine_with_mp4(0);
    let mut builder = Muxer::new();
    builder.format_name("mp4");
    let muxer = builder.open(&mut engine, MuxSink::new()).unwrap();
    assert_eq!(muxer.num_streams(), 0);
    assert_eq!(muxer.sink.headers_written, 1);
    assert_eq!(engine.live_contexts, 1);
    let (sink, res) = muxer.close(&mut engine);
    assert!(res.is_ok());
    assert_eq!(sink.trailers_written, 1);
    assert_eq!(engine.live_contexts, 0);
}

#[test]
fn open_resolves_format_from_container_name() {
    let mut engine = engine_with_mp4(0);
    let mut builder = Muxer::new();
    builder.name("mp4");
    let muxer = builder.open(&mut engine, MuxSink::new()).unwrap();
    assert_eq!(muxer.format_name().as_str(), "mp4");
    assert_eq!(muxer.format_long_name().as_str(), "MPEG-4 container");
    assert_eq!(muxer.duration(), 0);
    let (_sink, res) = muxer.close(&mut engine);
    assert!(res.is_ok());
}

#[test]
fn open_without_hints_is_unknown_format() {
    let mut engine = engine_with_mp4(4);
    let builder = Muxer::new();
    let res = builder.open(&mut engine, MuxSink::new());
    assert!(matches!(res, Err(MuxerError::UnknownFormat)));
    assert_eq!(engine.live_contexts, 0);
}

#[test]
fn open_with_unmatched_hint_is_unknown_format() {
    let mut engine = engine_with_mp4(4);
    let mut builder = Muxer::new();
    builder.format_name("mkv");
    let res = builder.open(&mut engine, MuxSink::new());
    assert!(matches!(res, Err(MuxerError::UnknownFormat)));
    assert_eq!(engine.live_contexts, 0);
}

#[test]
fn open_encoder_failure_releases_the_context() {
    let mut engine = engine_with_mp4(4);
    let mut builder = Muxer::new();
    builder.format_name("mp4");
    builder.add_encoder(VideoEncoder::with_codes(1, Rational::new(1, 30), 0, -5, 0, 0));
    let res = builder.open(&mut engine, MuxSink::new());
    assert!(matches!(res, Err(MuxerError::EncoderOpenFailed(-5))));
    assert_eq!(engine.live_contexts, 0);
    assert_eq!(engine.stream_quota, 4);
}

#[test]
fn open_parameter_copy_failure_releases_the_context() {
    let mut engine = engine_with_mp4(4);
    let mut builder = Muxer::new();
    builder.format_name("mp4");
    builder.add_encoder(VideoEncoder::with_codes(1, Rational::new(1, 30), 0, 0, -3, 0));
    let res = builder.open(&mut engine, MuxSink::new());
    assert!(matches!(res, Err(MuxerError::ParameterCopyFailed(-3))));
    assert_eq!(engine.live_contexts, 0);
    assert_eq!(engine.stream_quota, 4);
}

#[test]
fn open_stream_allocation_failure_releases_the_context() {
    let mut engine = engine_with_mp4(1);
    let mut builder = Muxer::new();
    builder.format_name("mp4");
    builder.add_encoder(VideoEncoder::new(1, Rational::new(1, 30), 0));
    builder.add_encoder(VideoEncoder::new(2, Rational::new(1, 30), 0));
    let res = builder.open(&mut engine, MuxSink::new());
    assert!(matches!(res, Err(MuxerError::StreamAllocationFailed)));
    assert_eq!(engine.live_contexts, 0);
    assert_eq!(engine.stream_quota, 1);
}

#[test]
fn repeated_header_failures_leak_no_context() {
    let mut engine = engine_with_mp4(8);
    for _ in 0..3 {
        let mut builder = Muxer::new();
        builder.format_name("mp4");
        builder.add_encoder(VideoEncoder::new(1, Rational::new(1, 30), 0));
        let sink = MuxSink::with_policy(false, true, true);
        let res = builder.open(&mut engine, sink);
        assert!(matches!(res, Err(MuxerError::HeaderWriteFailed)));
        assert_eq!(engine.live_contexts, 0);
        assert_eq!(engine.stream_quota, 8);
    }
}

#[test]
fn global_header_flag_follows_the_format() {
    let mut engine = MediaEngine::new(2);
    engine.register_format(ContainerFormat::new(
        String::from("strict"),
        String::from("format with out-of-band headers"),
        true,
        Rational::new(1, 1000),
    ));
    let mut builder = Muxer::new();
    builder.format_name("strict");
    builder.add_encoder(VideoEncoder::new(1, Rational::new(1, 30), 0));
    let muxer = builder.open(&mut engine, MuxSink::new()).unwrap();
    assert!(muxer.encoders()[0].global_header);
    assert!(muxer.encoders()[0].opened);
    let (_sink, res) = muxer.close(&mut engine);
    assert!(res.is_ok());
}

#[test]
fn eager_encoder_writes_rescaled_tagged_packets() {
    let mut engine = engine_with_mp4(4);
    let mut builder = Muxer::new();
    builder.format_name("mp4");
    builder.add_encoder(VideoEncoder::new(1, Rational::new(1, 30), 0));
    builder.add_encoder(VideoEncoder::new(2, Rational::new(1, 30), 0));
    let mut muxer = builder.open(&mut engine, MuxSink::new()).unwrap();
    assert_eq!(muxer.num_streams(), 2);
    assert_eq!(muxer.send_frame(0, &VideoFrame { pts: 3 }), Ok(1));
    assert_eq!(muxer.send_frame(1, &VideoFrame { pts: 30 }), Ok(1));
    assert_eq!(muxer.sink.packets.len(), 2);
    // 3 in 1/30 is 100 in 1/1000; 30 in 1/30 is 1000 in 1/1000.
    assert_eq!(muxer.sink.packets[0].pts, 100);
    assert_eq!(muxer.sink.packets[0].dts, 100);
    assert_eq!(muxer.sink.packets[0].stream_index, 0);
    assert_eq!(muxer.sink.packets[1].pts, 1000);
    assert_eq!(muxer.sink.packets[1].stream_index, 1);
    let (sink, res) = muxer.close(&mut engine);
    assert!(res.is_ok());
    assert_eq!(sink.packets.len(), 2);
    assert_eq!(sink.trailers_written, 1);
    assert_eq!(engine.live_contexts, 0);
}

#[test]
fn closing_before_the_delay_still_flushes_everything() {
    // An encoder that buffers three frames; fewer frames than that are
    // submitted, so nothing is emitted eagerly and close must drain it all.
    let mut engine = engine_with_mp4(4);
    let mut builder = Muxer::new();
    builder.format_name("mp4");
    builder.add_encoder(VideoEncoder::new(1, Rational::new(1, 30), 3));
    let mut muxer = builder.open(&mut engine, MuxSink::new()).unwrap();
    assert_eq!(muxer.send_frame(0, &VideoFrame { pts: 0 }), Ok(0));
    assert_eq!(muxer.send_frame(0, &VideoFrame { pts: 3 }), Ok(0));
    assert_eq!(muxer.sink.packets.len(), 0);
    let (sink, res) = muxer.close(&mut engine);
    assert!(res.is_ok());
    assert_eq!(sink.packets.len(), 2);
    assert_eq!(sink.packets[0].pts, 0);
    assert_eq!(sink.packets[1].pts, 100);
    assert_eq!(sink.trailers_written, 1);
    // Both buffered packets precede the trailer.
    assert_eq!(sink.trailer_mark, Some(2));
}

#[test]
fn delayed_encoder_end_to_end() {
    // One encoder with a deterministic three-packet output delay; five
    // frames go in, the first three calls write nothing, the next two write
    // one packet each, and close drains the remaining three before the one
    // and only trailer write.
    let mut engine = engine_with_mp4(4);
    let mut builder = Muxer::new();
    builder.format_name("mp4");
    builder.add_encoder(VideoEncoder::new(1, Rational::new(1, 30), 3));
    let mut muxer = builder.open(&mut engine, MuxSink::new()).unwrap();
    let pts_in: [i64; 5] = [0, 3, 6, 9, 12];
    let mut written: Vec<usize> = Vec::new();
    for t in pts_in {
        written.push(muxer.send_frame(0, &VideoFrame { pts: t }).unwrap());
    }
    assert_eq!(written, vec![0, 0, 0, 1, 1]);
    assert_eq!(muxer.sink.packets.len(), 2);
    let (sink, res) = muxer.close(&mut engine);
    assert!(res.is_ok());
    assert_eq!(sink.packets.len(), 5);
    let pts_out: Vec<i64> = sink.packets.iter().map(|p| p.pts).collect();
    assert_eq!(pts_out, vec![0, 100, 200, 300, 400]);
    assert_eq!(sink.headers_written, 1);
    assert_eq!(sink.trailers_written, 1);
    assert_eq!(sink.trailer_mark, Some(5));
    assert_eq!(engine.live_contexts, 0);
}

#[test]
fn write_failure_aborts_send_frame() {
    let mut engine = engine_with_mp4(4);
    let mut builder = Muxer::new();
    builder.format_name("mp4");
    builder.add_encoder(VideoEncoder::new(1, Rational::new(1, 30), 0));
    let sink = MuxSink::with_policy(true, false, true);
    let mut muxer = builder.open(&mut engine, sink).unwrap();
    let res = muxer.send_frame(0, &VideoFrame { pts: 3 });
    assert_eq!(res, Err(MuxerError::WriteFailed));
    assert_eq!(muxer.sink.packets.len(), 0);
    let (_sink, _res) = muxer.close(&mut engine);
    assert_eq!(engine.live_contexts, 0);
}

#[test]
fn write_failure_during_drain_fails_the_close() {
    let mut engine = engine_with_mp4(4);
    let mut builder = Muxer::new();
    builder.format_name("mp4");
    builder.add_encoder(VideoEncoder::new(1, Rational::new(1, 30), 2));
    let sink = MuxSink::with_policy(true, false, true);
    let mut muxer = builder.open(&mut engine, sink).unwrap();
    assert_eq!(muxer.send_frame(0, &VideoFrame { pts: 0 }), Ok(0));
    let (sink, res) = muxer.close(&mut engine);
    assert_eq!(res, Err(MuxerError::WriteFailed));
    assert_eq!(sink.trailers_written, 0);
    assert_eq!(engine.live_contexts, 0);
}

#[test]
fn encoder_error_during_drain_is_encoding_failed() {
    let mut engine = engine_with_mp4(4);
    let mut builder = Muxer::new();
    builder.format_name("mp4");
    builder.add_encoder(VideoEncoder::with_codes(1, Rational::new(1, 30), 2, 0, 0, -9));
    let mut muxer = builder.open(&mut engine, MuxSink::new()).unwrap();
    assert_eq!(muxer.send_frame(0, &VideoFrame { pts: 0 }), Ok(0));
    let (sink, res) = muxer.close(&mut engine);
    assert_eq!(res, Err(MuxerError::EncodingFailed));
    assert_eq!(sink.trailers_written, 0);
    assert_eq!(engine.live_contexts, 0);
}

#[test]
fn trailer_failure_is_reported_after_a_full_drain() {
    let mut engine = engine_with_mp4(4);
    let mut builder = Muxer::new();
    builder.format_name("mp4");
    builder.add_encoder(VideoEncoder::new(1, Rational::new(1, 30), 1));
    let sink = MuxSink::with_policy(true, true, false);
    let mut muxer = builder.open(&mut engine, sink).unwrap();
    assert_eq!(muxer.send_frame(0, &VideoFrame { pts: 3 }), Ok(0));
    let (sink, res) = muxer.close(&mut engine);
    assert_eq!(res, Err(MuxerError::TrailerWriteFailed));
    // The drain itself completed: the buffered packet was written.
    assert_eq!(sink.packets.len(), 1);
    assert_eq!(sink.trailers_written, 0);
    assert_eq!(engine.live_contexts, 0);
}

#[test]
fn round_robin_drain_interleaves_two_delayed_streams() {
    let mut engine = engine_with_mp4(4);
    let mut builder = Muxer::new();
    builder.format_name("mp4");
    builder.add_encoder(VideoEncoder::new(1, Rational::new(1, 30), 2));
    builder.add_encoder(VideoEncoder::new(2, Rational::new(1, 25), 2));
    let mut muxer = builder.open(&mut engine, MuxSink::new()).unwrap();
    assert_eq!(muxer.send_frame(0, &VideoFrame { pts: 3 }), Ok(0));
    assert_eq!(muxer.send_frame(0, &VideoFrame { pts: 6 }), Ok(0));
    assert_eq!(muxer.send_frame(1, &VideoFrame { pts: 5 }), Ok(0));
    let (sink, res) = muxer.close(&mut engine);
    assert!(res.is_ok());
    assert_eq!(sink.packets.len(), 3);
    // Per-stream emission order is preserved: stream zero's packets appear
    // in submission order, one packet per stream per round.
    let stream0: Vec<i64> =
        sink.packets.iter().filter(|p| p.stream_index == 0).map(|p| p.pts).collect();
    let stream1: Vec<i64> =
        sink.packets.iter().filter(|p| p.stream_index == 1).map(|p| p.pts).collect();
    assert_eq!(stream0, vec![100, 200]);
    // 5 in 1/25 is 200 in 1/1000.
    assert_eq!(stream1, vec![200]);
    assert_eq!(sink.trailer_mark, Some(3));
}

#[test]
fn abandoning_a_writer_still_drains_and_frees_the_context() {
    let mut engine = engine_with_mp4(4);
    let mut builder = Muxer::new();
    builder.format_name("mp4");
    builder.add_encoder(VideoEncoder::new(1, Rational::new(1, 30), 2));
    let mut muxer = builder.open(&mut engine, MuxSink::new()).unwrap();
    assert_eq!(muxer.send_frame(0, &VideoFrame { pts: 3 }), Ok(0));
    assert_eq!(engine.live_contexts, 1);
    let sink = muxer.abandon(&mut engine);
    // The same drain and trailer sequence ran, its outcome discarded.
    assert_eq!(sink.packets.len(), 1);
    assert_eq!(sink.packets[0].pts, 100);
    assert_eq!(sink.trailers_written, 1);
    assert_eq!(sink.trailer_mark, Some(1));
    assert_eq!(engine.live_contexts, 0);
    assert_eq!(engine.stream_quota, 4);
}

#[test]
fn abandoning_a_writer_discards_the_flush_error() {
    let mut engine = engine_with_mp4(4);
    let mut builder = Muxer::new();
    builder.format_name("mp4");
    builder.add_encoder(VideoEncoder::new(1, Rational::new(1, 30), 2));
    let sink = MuxSink::with_policy(true, false, true);
    let mut muxer = builder.open(&mut engine, sink).unwrap();
    assert_eq!(muxer.send_frame(0, &VideoFrame { pts: 3 }), Ok(0));
    let sink = muxer.abandon(&mut engine);
    // The drain's write failure was suppressed; no trailer was written, and
    // the context was freed all the same.
    assert_eq!(sink.packets.len(), 0);
    assert_eq!(sink.trailers_written, 0);
    assert_eq!(engine.live_contexts, 0);
}
