//! Reference-counted packet handles.
//!
//! Compressed packets are expensive to copy, so several logical owners (the
//! encoder, the drain loop, the writer) hold counted handles to one shared
//! buffer.  The buffers live in a [`PacketArena`]; a [`RcPacket`] is a counted
//! handle to one of its slots.  Sharing a handle bumps the count, releasing a
//! handle drops it, and the buffer is freed exactly when the count reaches
//! zero.  Each slot records how many times its buffer has been freed, so that
//! the single-free discipline is both stated and observable.

use vstd::prelude::*;

verus! {

use crate::packet::Packet;

/// One shared packet buffer: its payload, the number of live handles, and how
/// many times it has been freed.
#[derive(Clone, Copy, Debug, PartialEq, Eq, Structural)]
pub struct PacketSlot {
    pub data: Packet,
    pub refcount: usize,
    pub frees: usize,
}

/// The store of shared packet buffers.
#[derive(Debug)]
pub struct PacketArena {
    pub slots: Vec<PacketSlot>,
}

/// The counted state of one buffer: how many handles exist and how many times
/// the buffer has been freed.
pub struct RcState {
    pub handles: nat,
    pub frees: nat,
}

/// The state of a freshly acquired buffer: one handle, never freed.
pub open spec fn rc_init() -> RcState {
    RcState { handles: 1, frees: 0 }
}

/// An operation on one buffer: share an existing handle, or release one.
#[derive(Clone, Copy, Debug, PartialEq, Eq, Structural)]
pub enum RcOp {
    Share,
    Release,
}

/// How one operation moves the counted state: sharing adds a handle; a
/// release drops one, and the release of the last handle frees the buffer.
pub open spec fn rc_step(s: RcState, op: RcOp) -> RcState {
    match op {
        RcOp::Share => RcState { handles: s.handles + 1, frees: s.frees },
        RcOp::Release => if s.handles == 1 {
            RcState { handles: 0, frees: s.frees + 1 }
        } else {
            RcState { handles: (s.handles - 1) as nat, frees: s.frees }
        },
    }
}

/// The counted state after a whole sequence of operations.
pub open spec fn rc_run(s: RcState, ops: Seq<RcOp>) -> RcState
    decreases ops.len(),
{
    if ops.len() == 0 {
        s
    } else {
        rc_run(rc_step(s, ops[0]), ops.drop_first())
    }
}

/// A sequence of operations is valid when every operation acts on a live
/// handle (one cannot share or release a handle that no longer exists).
pub open spec fn rc_ops_valid(s: RcState, ops: Seq<RcOp>) -> bool
    decreases ops.len(),
{
    ops.len() == 0 || (s.handles >= 1 && rc_ops_valid(rc_step(s, ops[0]), ops.drop_first()))
}

/// The reference-count invariant of one buffer: it has been freed at most
/// once, and it has been freed exactly when no handle is left.
pub open spec fn rc_inv(s: RcState) -> bool {
    s.frees <= 1 && ((s.frees == 1) <==> (s.handles == 0))
}

proof fn lemma_rc_inv_preserved(s: RcState, ops: Seq<RcOp>)
    requires
        rc_inv(s),
        rc_ops_valid(s, ops),
    ensures
        rc_inv(rc_run(s, ops)),
    decreases ops.len(),
{
    if ops.len() > 0 {
        lemma_rc_inv_preserved(rc_step(s, ops[0]), ops.drop_first());
    }
}

/// For every valid sequence of share/release operations on a buffer, the
/// buffer is freed at most once, and it has been freed exactly when the last
/// handle has been released — regardless of the order of the operations.
pub proof fn lemma_freed_exactly_once(ops: Seq<RcOp>)
    requires
        rc_ops_valid(rc_init(), ops),
    ensures
        rc_run(rc_init(), ops).frees <= 1,
        (rc_run(rc_init(), ops).frees == 1) <==> (rc_run(rc_init(), ops).handles == 0),
{
    lemma_rc_inv_preserved(rc_init(), ops);
}

/// The counted state a slot is in.
pub open spec fn slot_state(s: PacketSlot) -> RcState {
    RcState { handles: s.refcount as nat, frees: s.frees as nat }
}

impl PacketArena {
    /// Every slot of the arena obeys the reference-count invariant.
    pub open spec fn wf(self) -> bool {
        forall|i: int| 0 <= i < self.slots@.len() ==> rc_inv(slot_state(#[trigger] self.slots@[i]))
    }

    pub fn new() -> (a: PacketArena)
        ensures
            a.wf(),
            a.slots@.len() == 0,
    {
        PacketArena { slots: Vec::new() }
    }
}

/// A reference-counted handle to one packet buffer of an arena.
#[derive(Clone, Copy, Debug, PartialEq, Eq, Structural)]
pub struct RcPacket {
    pub slot: usize,
}

impl RcPacket {
    /// The handle points at a slot that still has live handles.
    pub open spec fn valid(self, arena: PacketArena) -> bool {
        self.slot < arena.slots@.len() && arena.slots@[self.slot as int].refcount >= 1
    }

    /// Take unique ownership of a freshly produced packet: a new buffer with
    /// a single handle.
    pub fn acquire(arena: &mut PacketArena, data: Packet) -> (h: RcPacket)
        requires
            old(arena).wf(),
            old(arena).slots@.len() < usize::MAX,
        ensures
            final(arena).wf(),
            h.slot == old(arena).slots@.len(),
            h.valid(*final(arena)),
            final(arena).slots@ == old(arena).slots@.push(
                (PacketSlot { data, refcount: 1, frees: 0 }),
            ),
            slot_state(final(arena).slots@[h.slot as int]) == rc_init(),
    {
        let slot = arena.slots.len();
        arena.slots.push(PacketSlot { data, refcount: 1, frees: 0 });
        RcPacket { slot }
    }

    /// Produce a second handle to the same buffer, bumping the reference
    /// count; the buffer itself is shared, not copied.
    pub fn share(&self, arena: &mut PacketArena) -> (h: RcPacket)
        requires
            old(arena).wf(),
            self.valid(*old(arena)),
            old(arena).slots@[self.slot as int].refcount < usize::MAX,
        ensures
            final(arena).wf(),
            h.slot == self.slot,
            h.valid(*final(arena)),
            self.valid(*final(arena)),
            final(arena).slots@.len() == old(arena).slots@.len(),
            forall|j: int|
                0 <= j < old(arena).slots@.len() && j != self.slot ==> final(arena).slots@[j]
                    == old(arena).slots@[j],
            final(arena).slots@[self.slot as int].data == old(arena).slots@[self.slot as int].data,
            slot_state(final(arena).slots@[self.slot as int]) == rc_step(
                slot_state(old(arena).slots@[self.slot as int]),
                RcOp::Share,
            ),
    {
        arena.slots[self.slot].refcount = arena.slots[self.slot].refcount + 1;
        RcPacket { slot: self.slot }
    }

    /// Release this handle, dropping the reference count; the release of the
    /// last handle frees the buffer (exactly once).
    pub fn release(self, arena: &mut PacketArena)
        requires
            old(arena).wf(),
            self.valid(*old(arena)),
        ensures
            final(arena).wf(),
            final(arena).slots@.len() == old(arena).slots@.len(),
            forall|j: int|
                0 <= j < old(arena).slots@.len() && j != self.slot ==> final(arena).slots@[j]
                    == old(arena).slots@[j],
            final(arena).slots@[self.slot as int].data == old(arena).slots@[self.slot as int].data,
            slot_state(final(arena).slots@[self.slot as int]) == rc_step(
                slot_state(old(arena).slots@[self.slot as int]),
                RcOp::Release,
            ),
    {
        let rc = arena.slots[self.slot].refcount;
        if rc == 1 {
            arena.slots[self.slot].refcount = 0;
            arena.slots[self.slot].frees = arena.slots[self.slot].frees + 1;
        } else {
            arena.slots[self.slot].refcount = rc - 1;
        }
    }

    /// Read the packet this handle owns, consuming the handle: a non-owning
    /// view of the buffer for read-only inspection.  The handle's reference
    /// is released once the value has been read out.
    pub fn into_ref(self, arena: &mut PacketArena) -> (p: Packet)
        requires
            old(arena).wf(),
            self.valid(*old(arena)),
        ensures
            final(arena).wf(),
            p == old(arena).slots@[self.slot as int].data,
            final(arena).slots@.len() == old(arena).slots@.len(),
            forall|j: int|
                0 <= j < old(arena).slots@.len() && j != self.slot ==> final(arena).slots@[j]
                    == old(arena).slots@[j],
            slot_state(final(arena).slots@[self.slot as int]) == rc_step(
                slot_state(old(arena).slots@[self.slot as int]),
                RcOp::Release,
            ),
    {
        let p = arena.slots[self.slot].data;
        self.release(arena);
        p
    }

    /// Read the packet without consuming the handle.
    pub fn peek(&self, arena: &PacketArena) -> (p: Packet)
        requires
            self.valid(*arena),
        ensures
            p == arena.slots@[self.slot as int].data,
    {
        arena.slots[self.slot].data
    }
}

} // verus!
