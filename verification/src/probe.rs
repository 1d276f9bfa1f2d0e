//! Whether a `UnityEngine.Object` field of a managed object still refers to a
//! live native object.
//!
//! The splitter tells a victory from a game over by the manager's `video`
//! field: its native object is alive on a victory, and null or destroyed on a
//! game over.
use crate::layout::{at, offset_address, PointerSize, UNITY_OBJECT_CACHED_PTR};
use crate::memory::{
    native_alive, native_alive_from, pointer_of, pointer_value, read_pointer, unity_native_alive,
    MemoryImage, ReadRequest, ReadResponse, ResponseView,
};
use vstd::prelude::*;

verus! {

/// Whether the object referred to by the field at `owner + field_offset` is
/// alive: `Some(false)` when the reference is null or its native object is
/// gone, `Some(true)` when the native object exists, `None` when a read failed.
pub open spec fn unity_reference_alive(
    mem: MemoryImage,
    owner: u64,
    field_offset: u32,
    size: PointerSize,
) -> Option<bool> {
    match read_pointer(mem, at(owner, field_offset as u64), size) {
        Some(reference) => if reference == 0 {
            Some(false)
        } else {
            unity_native_alive(mem, reference, size)
        },
        None => None,
    }
}

#[derive(Clone, Copy)]
enum ProbePhase {
    Reference,
    Native { reference: u64 },
    Done { alive: Option<bool> },
}

/// The check of one reference field, performed one read at a time.
pub struct AliveProbe {
    owner: u64,
    field_offset: u32,
    size: PointerSize,
    phase: ProbePhase,
}

impl AliveProbe {
    pub closed spec fn initial(owner: u64, field_offset: u32, size: PointerSize) -> AliveProbe {
        AliveProbe { owner, field_offset, size, phase: ProbePhase::Reference }
    }

    /// The read the check needs next; none once it is done.
    pub closed spec fn request(self) -> Option<ReadRequest> {
        match self.phase {
            ProbePhase::Reference => Some(
                ReadRequest::Pointer { address: at(self.owner, self.field_offset as u64), size: self.size },
            ),
            ProbePhase::Native { reference } => Some(
                ReadRequest::Pointer { address: at(reference, UNITY_OBJECT_CACHED_PTR), size: self.size },
            ),
            ProbePhase::Done { .. } => None,
        }
    }

    /// The state after the answer `r` to [`Self::request`].
    pub closed spec fn step(self, r: ResponseView) -> AliveProbe {
        let phase = match self.phase {
            ProbePhase::Reference => match pointer_of(r) {
                Some(reference) => if reference == 0 {
                    ProbePhase::Done { alive: Some(false) }
                } else {
                    ProbePhase::Native { reference }
                },
                None => ProbePhase::Done { alive: None },
            },
            ProbePhase::Native { .. } => ProbePhase::Done { alive: native_alive(pointer_of(r)) },
            ProbePhase::Done { alive } => ProbePhase::Done { alive },
        };
        AliveProbe { phase, ..self }
    }

    /// The result the check will reach when every answer handed to it from
    /// now on comes from `mem`.
    pub closed spec fn outcome(self, mem: MemoryImage) -> Option<bool> {
        match self.phase {
            ProbePhase::Reference => unity_reference_alive(mem, self.owner, self.field_offset, self.size),
            ProbePhase::Native { reference } => unity_native_alive(mem, reference, self.size),
            ProbePhase::Done { alive } => alive,
        }
    }

    /// The reads the check still makes: two at its start, one after the
    /// reference was read, none once done.
    pub closed spec fn measure(self) -> nat {
        match self.phase {
            ProbePhase::Reference => 2,
            ProbePhase::Native { .. } => 1,
            ProbePhase::Done { .. } => 0,
        }
    }

    /// The result of the check once it is done.
    pub closed spec fn result(self) -> Option<Option<bool>> {
        match self.phase {
            ProbePhase::Done { alive } => Some(alive),
            _ => None,
        }
    }

    /// The state after the answers that `mem` gives to `fuel` requests in turn.
    pub closed spec fn run(self, mem: MemoryImage, fuel: nat) -> AliveProbe
        decreases fuel,
    {
        if fuel == 0 {
            self
        } else {
            match self.request() {
                Some(req) => self.step(mem(req)).run(mem, (fuel - 1) as nat),
                None => self,
            }
        }
    }

    /// Starts the check of the reference field at `owner + field_offset`.
    pub fn new(owner: u64, field_offset: u32, size: PointerSize) -> (p: Self)
        ensures
            p == Self::initial(owner, field_offset, size),
            p.measure() == 2,
            forall|mem: MemoryImage| #[trigger] p.outcome(mem) == unity_reference_alive(mem, owner, field_offset, size),
    {
        AliveProbe { owner, field_offset, size, phase: ProbePhase::Reference }
    }

    /// The read the check needs next; none once it is done.
    pub fn next_request(&self) -> (q: Option<ReadRequest>)
        ensures
            q == self.request(),
    {
        match self.phase {
            ProbePhase::Reference => Some(
                ReadRequest::Pointer {
                    address: offset_address(self.owner, self.field_offset as u64),
                    size: self.size,
                },
            ),
            ProbePhase::Native { reference } => Some(
                ReadRequest::Pointer { address: offset_address(reference, UNITY_OBJECT_CACHED_PTR), size: self.size },
            ),
            ProbePhase::Done { .. } => None,
        }
    }

    /// Takes the answer to the read that [`Self::next_request`] named.
    pub fn feed(&mut self, response: &ReadResponse)
        ensures
            *final(self) == old(self).step(response@),
            old(self).request() is Some ==> final(self).measure() < old(self).measure(),
            (final(self).request() is None) == (final(self).measure() == 0),
            forall|mem: MemoryImage|
                old(self).request() matches Some(q) && mem(q) == response@ ==> #[trigger] final(self).outcome(mem)
                    == old(self).outcome(mem),
    {
        let phase = match self.phase {
            ProbePhase::Reference => match pointer_value(response) {
                Some(reference) => if reference == 0 {
                    ProbePhase::Done { alive: Some(false) }
                } else {
                    ProbePhase::Native { reference }
                },
                None => ProbePhase::Done { alive: None },
            },
            ProbePhase::Native { .. } => ProbePhase::Done { alive: native_alive_from(pointer_value(response)) },
            ProbePhase::Done { alive } => ProbePhase::Done { alive },
        };
        self.phase = phase;
    }

    /// The result, once the check is done.
    pub fn finished(&self) -> (r: Option<Option<bool>>)
        ensures
            r == self.result(),
            (r is Some) == (self.request() is None),
            r matches Some(alive) ==> forall|mem: MemoryImage| #[trigger] self.outcome(mem) == alive,
    {
        match self.phase {
            ProbePhase::Done { alive } => Some(alive),
            _ => None,
        }
    }
}

/// Driven with the answers of one memory image, a new check is done within
/// two reads, and its result is whether the referenced object is alive in
/// that image.
pub proof fn lemma_probe_resolves(owner: u64, field_offset: u32, size: PointerSize, mem: MemoryImage)
    ensures
        AliveProbe::initial(owner, field_offset, size).run(mem, 2).result() == Some(
            unity_reference_alive(mem, owner, field_offset, size),
        ),
{
    let p0 = AliveProbe::initial(owner, field_offset, size);
    let p1 = p0.step(mem(p0.request()->0));
    assert(p0.run(mem, 2) == p1.run(mem, 1));
    match p1.request() {
        Some(q) => {
            let p2 = p1.step(mem(q));
            assert(p1.run(mem, 1) == p2.run(mem, 0));
        },
        None => {
            assert(p1.run(mem, 1) == p1);
        },
    }
}

} // verus!
