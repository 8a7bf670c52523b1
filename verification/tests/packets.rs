use muxcore::packet::Packet;
use muxcore::rc_packet::{PacketArena, RcPacket};

fn sample_packet(pts: i64) -> Packet {
    Packet { pts, dts: pts, stream_index: 0 }
}

#[test]
fn rc_share_release_in_order() {
    let mut arena = PacketArena::new();
    let a = RcPacket::acquire(&mut arena, sample_packet(7));
    let b = a.share(&mut arena);
    let c = b.share(&mut arena);
    assert_eq!(arena.slots[0].refcount, 3);
    assert_eq!(arena.slots[0].frees, 0);
    a.release(&mut arena);
    assert_eq!(arena.slots[0].refcount, 2);
    assert_eq!(arena.slots[0].frees, 0);
    b.release(&mut arena);
    assert_eq!(arena.slots[0].frees, 0);
    c.release(&mut arena);
    assert_eq!(arena.slots[0].refcount, 0);
    assert_eq!(arena.slots[0].frees, 1);
}

#[test]
fn rc_share_release_interleaved() {
    let mut arena = PacketArena::new();
    let a = RcPacket::acquire(&mut arena, sample_packet(1));
    let b = a.share(&mut arena);
    b.release(&mut arena);
    let c = a.share(&mut arena);
    let d = c.share(&mut arena);
    c.release(&mut arena);
    a.release(&mut arena);
    assert_eq!(arena.slots[0].frees, 0);
    d.release(&mut arena);
    assert_eq!(arena.slots[0].refcount, 0);
    assert_eq!(arena.slots[0].frees, 1);
}

#[test]
fn rc_two_buffers_are_independent() {
    let mut arena = PacketArena::new();
    let a = RcPacket::acquire(&mut arena, sample_packet(1));
    let b = RcPacket::acquire(&mut arena, sample_packet(2));
    a.release(&mut arena);
    assert_eq!(arena.slots[0].frees, 1);
    assert_eq!(arena.slots[1].frees, 0);
    b.release(&mut arena);
    assert_eq!(arena.slots[1].frees, 1);
}

#[test]
fn rc_into_ref_reads_and_releases() {
    let mut arena = PacketArena::new();
    let a = RcPacket::acquire(&mut arena, sample_packet(42));
    let b = a.share(&mut arena);
    let p = a.into_ref(&mut arena);
    assert_eq!(p.pts, 42);
    assert_eq!(arena.slots[0].refcount, 1);
    assert_eq!(arena.slots[0].frees, 0);
    b.release(&mut arena);
    assert_eq!(arena.slots[0].frees, 1);
}

#[test]
fn rc_peek_does_not_release() {
    let mut arena = PacketArena::new();
    let a = RcPacket::acquire(&mut arena, sample_packet(9));
    let p = a.peek(&arena);
    assert_eq!(p.dts, 9);
    assert_eq!(arena.slots[0].refcount, 1);
    a.release(&mut arena);
    assert_eq!(arena.slots[0].frees, 1);
}
