//! The media-engine collaborator model.
//!
//! The engine owns what the muxer only orchestrates: the registry of
//! container format implementations, the allocation of container write
//! contexts, and the allocation of per-context stream slots.  Context and
//! stream-slot allocation are counted so that the resource discipline of the
//! builder and the writer — no context outlives a failed open, every stream
//! slot is returned when its context is freed — is stated in contracts and
//! observable in tests.

use vstd::prelude::*;

verus! {

use crate::rational::Rational;

/// One container format implementation: its names, whether it wants codec
/// configuration out of band in the container header, and the time base it
/// gives to its streams.
#[derive(Debug)]
pub struct ContainerFormat {
    pub name: String,
    pub long_name: String,
    /// The format stores codec configuration once in the container header
    /// rather than repeating it in every packet.
    pub needs_global_header: bool,
    /// The time base assigned to every stream of this container.
    pub stream_time_base: Rational,
}

impl ContainerFormat {
    pub fn new(name: String, long_name: String, needs_global_header: bool, stream_time_base:
        Rational) -> (f: ContainerFormat)
        requires
            stream_time_base.wf(),
        ensures
            f.name@ == name@,
            f.long_name@ == long_name@,
            f.needs_global_header == needs_global_header,
            f.stream_time_base == stream_time_base,
    {
        ContainerFormat { name, long_name, needs_global_header, stream_time_base }
    }

    /// An exact copy of the format descriptor.
    pub fn duplicate(&self) -> (f: ContainerFormat)
        ensures
            f == *self,
    {
        ContainerFormat {
            name: self.name.clone(),
            long_name: self.long_name.clone(),
            needs_global_header: self.needs_global_header,
            stream_time_base: self.stream_time_base,
        }
    }
}

/// The media engine: format registry and allocation counters.
#[derive(Debug)]
pub struct MediaEngine {
    /// The registered container formats.
    pub formats: Vec<ContainerFormat>,
    /// How many container write contexts are currently allocated.
    pub live_contexts: usize,
    /// How many stream slots the engine can still allocate.
    pub stream_quota: usize,
}

impl MediaEngine {
    /// Every registered format carries a well-formed stream time base.
    pub open spec fn wf(self) -> bool {
        forall|i: int|
            0 <= i < self.formats@.len() ==> (#[trigger] self.formats@[i]).stream_time_base.wf()
    }

    pub fn new(stream_quota: usize) -> (e: MediaEngine)
        ensures
            e.wf(),
            e.formats@.len() == 0,
            e.live_contexts == 0,
            e.stream_quota == stream_quota,
    {
        MediaEngine { formats: Vec::new(), live_contexts: 0, stream_quota }
    }

    /// Make a container format available for resolution.
    pub fn register_format(&mut self, f: ContainerFormat)
        requires
            old(self).wf(),
            f.stream_time_base.wf(),
        ensures
            final(self).wf(),
            final(self).formats@ == old(self).formats@.push(f),
            final(self).live_contexts == old(self).live_contexts,
            final(self).stream_quota == old(self).stream_quota,
    {
        self.formats.push(f);
    }

    /// Resolve a name hint against the registry: the first format whose name
    /// matches, if any.
    pub fn resolve_format(&self, hint: &String) -> (r: Option<usize>)
        ensures
            match r {
                Some(i) => {
                    &&& i < self.formats@.len()
                    &&& self.formats@[i as int].name@ == hint@
                    &&& forall|j: int| 0 <= j < i ==> (#[trigger] self.formats@[j]).name@ != hint@
                },
                None => forall|j: int|
                    0 <= j < self.formats@.len() ==> (#[trigger] self.formats@[j]).name@ != hint@,
            },
    {
        let n = self.formats.len();
        for i in 0..n
            invariant
                n == self.formats@.len(),
                forall|j: int| 0 <= j < i ==> (#[trigger] self.formats@[j]).name@ != hint@,
        {
            if self.formats[i].name == *hint {
                return Some(i);
            }
        }
        None
    }

    /// Allocate one container write context.
    pub fn alloc_context(&mut self)
        requires
            old(self).live_contexts < usize::MAX,
        ensures
            old(self).wf() ==> final(self).wf(),
            final(self).formats@ == old(self).formats@,
            final(self).live_contexts == old(self).live_contexts + 1,
            final(self).stream_quota == old(self).stream_quota,
    {
        self.live_contexts = self.live_contexts + 1;
    }

    /// Free one container write context, returning the stream slots it held.
    pub fn free_context(&mut self, stream_slots: usize)
        requires
            old(self).live_contexts >= 1,
            old(self).stream_quota + stream_slots <= usize::MAX,
        ensures
            old(self).wf() ==> final(self).wf(),
            final(self).formats@ == old(self).formats@,
            final(self).live_contexts == old(self).live_contexts - 1,
            final(self).stream_quota == old(self).stream_quota + stream_slots,
    {
        self.live_contexts = self.live_contexts - 1;
        self.stream_quota = self.stream_quota + stream_slots;
    }

    /// Try to allocate one stream slot.
    pub fn take_stream_slot(&mut self) -> (ok: bool)
        ensures
            old(self).wf() ==> final(self).wf(),
            final(self).formats@ == old(self).formats@,
            final(self).live_contexts == old(self).live_contexts,
            ok ==> old(self).stream_quota >= 1 && final(self).stream_quota == old(
                self,
            ).stream_quota - 1,
            !ok ==> old(self).stream_quota == 0 && final(self).stream_quota == 0,
    {
        if self.stream_quota >= 1 {
            self.stream_quota = self.stream_quota - 1;
            true
        } else {
            false
        }
    }
}

} // verus!
