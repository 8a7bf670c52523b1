//! The output sink model.
//!
//! A [`MuxSink`] stands for the byte-accepting destination (a file, a socket,
//! a memory buffer) that the container writer is bound to at open time.  The
//! container byte layout is an external collaborator, so the sink records the
//! container-level events — header, interleaved packets, trailer — rather
//! than bytes.  Each kind of write either succeeds or fails immediately,
//! according to the sink's fixed acceptance policy; a failed write records
//! nothing.

use vstd::prelude::*;

verus! {

use crate::packet::Packet;

/// The destination the muxer writes into.
#[derive(Debug)]
pub struct MuxSink {
    /// Whether a header write is accepted.
    pub accept_header: bool,
    /// Whether an interleaved packet write is accepted.
    pub accept_packets: bool,
    /// Whether a trailer write is accepted.
    pub accept_trailer: bool,
    /// How many headers have been written.
    pub headers_written: usize,
    /// Every packet written, in arrival order.
    pub packets: Vec<Packet>,
    /// How many trailers have been written.
    pub trailers_written: usize,
    /// How many packets had been written when the last trailer was accepted.
    pub trailer_mark: Option<usize>,
}

/// Two sinks agree on their acceptance policy.
pub open spec fn same_policy(a: MuxSink, b: MuxSink) -> bool {
    &&& a.accept_header == b.accept_header
    &&& a.accept_packets == b.accept_packets
    &&& a.accept_trailer == b.accept_trailer
}

impl MuxSink {
    /// A sink that accepts every write.
    pub fn new() -> (s: MuxSink)
        ensures
            s.accept_header,
            s.accept_packets,
            s.accept_trailer,
            s.headers_written == 0,
            s.packets@.len() == 0,
            s.trailers_written == 0,
            s.trailer_mark is None,
    {
        MuxSink {
            accept_header: true,
            accept_packets: true,
            accept_trailer: true,
            headers_written: 0,
            packets: Vec::new(),
            trailers_written: 0,
            trailer_mark: None,
        }
    }

    /// A sink with the given acceptance policy, for destinations that refuse
    /// some kinds of write.
    pub fn with_policy(accept_header: bool, accept_packets: bool, accept_trailer: bool) -> (s:
        MuxSink)
        ensures
            s.accept_header == accept_header,
            s.accept_packets == accept_packets,
            s.accept_trailer == accept_trailer,
            s.headers_written == 0,
            s.packets@.len() == 0,
            s.trailers_written == 0,
            s.trailer_mark is None,
    {
        MuxSink {
            accept_header,
            accept_packets,
            accept_trailer,
            headers_written: 0,
            packets: Vec::new(),
            trailers_written: 0,
            trailer_mark: None,
        }
    }

    /// Write the container header.
    pub fn write_header(&mut self) -> (r: Result<(), ()>)
        requires
            old(self).headers_written < usize::MAX,
        ensures
            same_policy(*final(self), *old(self)),
            final(self).packets@ == old(self).packets@,
            final(self).trailers_written == old(self).trailers_written,
            final(self).trailer_mark == old(self).trailer_mark,
            match r {
                Ok(()) => old(self).accept_header && final(self).headers_written == old(
                    self,
                ).headers_written + 1,
                Err(()) => !old(self).accept_header && final(self).headers_written == old(
                    self,
                ).headers_written,
            },
    {
        if self.accept_header {
            self.headers_written = self.headers_written + 1;
            Ok(())
        } else {
            Err(())
        }
    }

    /// Write one interleaved packet.
    pub fn write_packet(&mut self, p: Packet) -> (r: Result<(), ()>)
        ensures
            same_policy(*final(self), *old(self)),
            final(self).headers_written == old(self).headers_written,
            final(self).trailers_written == old(self).trailers_written,
            final(self).trailer_mark == old(self).trailer_mark,
            match r {
                Ok(()) => old(self).accept_packets && final(self).packets@ == old(
                    self,
                ).packets@.push(p),
                Err(()) => !old(self).accept_packets && final(self).packets@ == old(
                    self,
                ).packets@,
            },
    {
        if self.accept_packets {
            self.packets.push(p);
            Ok(())
        } else {
            Err(())
        }
    }

    /// Write the container trailer; on success, remember how many packets
    /// preceded it.
    pub fn write_trailer(&mut self) -> (r: Result<(), ()>)
        requires
            old(self).trailers_written < usize::MAX,
        ensures
            same_policy(*final(self), *old(self)),
            final(self).headers_written == old(self).headers_written,
            final(self).packets@ == old(self).packets@,
            match r {
                Ok(()) => {
                    &&& old(self).accept_trailer
                    &&& final(self).trailers_written == old(self).trailers_written + 1
                    &&& final(self).trailer_mark == Some(old(self).packets@.len() as usize)
                },
                Err(()) => {
                    &&& !old(self).accept_trailer
                    &&& final(self).trailers_written == old(self).trailers_written
                    &&& final(self).trailer_mark == old(self).trailer_mark
                },
            },
    {
        if self.accept_trailer {
            self.trailers_written = self.trailers_written + 1;
            let n = self.packets.len();
            self.trailer_mark = Some(n);
            Ok(())
        } else {
            Err(())
        }
    }
}

} // verus!
