//! The backend capability: the operations that realize virtual devices,
//! stated abstractly enough that a kernel-driver implementation and the
//! in-memory simulation both fit.

use vstd::prelude::*;
use crate::decimal::{spec_u64_dec, u64_to_dec};
use crate::device::{DeviceKind, PadState};

verus! {

/// Why a backend call failed.
#[derive(Clone, Copy, Debug, PartialEq, Eq, Structural)]
pub enum BackendError {
    /// The handle names no live device.
    InvalidHandle(u64),
    /// No further handle can be allocated.
    Exhausted,
    /// The kernel device rejected the call with this status code.
    Device(u32),
}

/// The message text of an invalid-handle failure, as sent to clients.
pub open spec fn spec_invalid_handle_message(h: u64) -> Seq<char> {
    "invalid handle: "@ + spec_u64_dec(h)
}

impl BackendError {
    /// What `message` returns for each failure.
    pub open spec fn spec_message(self) -> Seq<char> {
        match self {
            BackendError::InvalidHandle(h) => spec_invalid_handle_message(h),
            BackendError::Exhausted => "device handles exhausted"@,
            BackendError::Device(code) => "device error: "@ + spec_u64_dec(code as u64),
        }
    }

    /// Describes this failure for a client-facing `Err` response.
    pub fn message(&self) -> (r: String)
        ensures
            r@ == self.spec_message(),
    {
        match self {
            BackendError::InvalidHandle(h) => {
                let r = String::from_str("invalid handle: ").concat(u64_to_dec(*h).as_str());
                r
            },
            BackendError::Exhausted => String::from_str("device handles exhausted"),
            BackendError::Device(code) => {
                let r = String::from_str("device error: ").concat(
                    u64_to_dec(*code as u64).as_str(),
                );
                r
            },
        }
    }
}

/// The capability of realizing virtual devices: create, destroy, and
/// update, each fallible.
///
/// The spec functions describe the backend's own bookkeeping: which
/// handles are live, every handle it ever issued, and the sequence of
/// states it has delivered to devices. The contracts tie each operation to
/// that model; the broker above is verified against nothing else.
pub trait Backend: Sized {
    /// The handles of the devices that currently exist in the backend.
    spec fn live(&self) -> Set<u64>;

    /// Every handle this backend ever returned from `create`.
    spec fn issued(&self) -> Set<u64>;

    /// The states delivered so far, in delivery order, each with the
    /// handle it was delivered to.
    spec fn delivered(&self) -> Seq<(u64, PadState)>;

    /// The backend's own well-formedness.
    spec fn inv(&self) -> bool;

    /// Allocates a device of the given kind. A fresh handle never repeats
    /// an earlier one and exceeds them all; a failure changes nothing.
    fn create(&mut self, kind: DeviceKind, features: u32) -> (r: Result<u64, BackendError>)
        requires
            old(self).inv(),
        ensures
            final(self).inv(),
            final(self).delivered() == old(self).delivered(),
            match r {
                Ok(h) => {
                    &&& !old(self).issued().contains(h)
                    &&& !old(self).live().contains(h)
                    &&& forall|g: u64| old(self).issued().contains(g) ==> g < h
                    &&& final(self).issued() == old(self).issued().insert(h)
                    &&& final(self).live() == old(self).live().insert(h)
                },
                Err(_) => {
                    &&& final(self).issued() == old(self).issued()
                    &&& final(self).live() == old(self).live()
                },
            },
    ;

    /// Destroys a live device. On success the handle is gone; on failure
    /// the device is still there.
    fn destroy(&mut self, handle: u64) -> (r: Result<(), BackendError>)
        requires
            old(self).inv(),
            old(self).live().contains(handle),
        ensures
            final(self).inv(),
            final(self).issued() == old(self).issued(),
            final(self).delivered() == old(self).delivered(),
            match r {
                Ok(()) => final(self).live() == old(self).live().remove(handle),
                Err(_) => final(self).live() == old(self).live(),
            },
    ;

    /// Delivers the newest pad state for a device. A state reaches a
    /// device only if its handle is live, and an unknown handle is
    /// reported as exactly that, with nothing delivered.
    fn update(&mut self, handle: u64, state: PadState) -> (r: Result<(), BackendError>)
        requires
            old(self).inv(),
        ensures
            final(self).inv(),
            final(self).live() == old(self).live(),
            final(self).issued() == old(self).issued(),
            match r {
                Ok(()) => {
                    &&& old(self).live().contains(handle)
                    &&& final(self).delivered() == old(self).delivered().push((handle, state))
                },
                Err(_) => final(self).delivered() == old(self).delivered(),
            },
            !old(self).live().contains(handle) ==> r == Err::<(), BackendError>(
                BackendError::InvalidHandle(handle),
            ),
    ;
}

/// A run of successful creates, as `create`'s contract describes them:
/// `issued` lists the backend's issued-handle set before and after each
/// call, and `hs` the handles the calls returned. Each call returns a
/// handle not issued before, larger than everything issued before, and
/// adds it to the issued set.
pub open spec fn spec_create_run(issued: Seq<Set<u64>>, hs: Seq<u64>) -> bool {
    &&& issued.len() == hs.len() + 1
    &&& forall|i: int|
        0 <= i < hs.len() ==> {
            &&& !(#[trigger] issued[i]).contains(hs[i])
            &&& (forall|g: u64| issued[i].contains(g) ==> g < hs[i])
            &&& issued[i + 1] == issued[i].insert(hs[i])
        }
}

/// Along a run of creates, the issued set only grows.
proof fn lemma_create_run_monotone(issued: Seq<Set<u64>>, hs: Seq<u64>, i: int, j: int, g: u64)
    requires
        spec_create_run(issued, hs),
        0 <= i <= j <= hs.len(),
        issued[i].contains(g),
    ensures
        issued[j].contains(g),
    decreases j - i,
{
    if i < j {
        assert(issued[i + 1] == issued[i].insert(hs[i]));
        lemma_create_run_monotone(issued, hs, i + 1, j, g);
    }
}

/// Handles are never reused: over any run of sequential creates, the
/// returned handles are strictly increasing, and so pairwise distinct.
pub proof fn lemma_handles_strictly_increase(issued: Seq<Set<u64>>, hs: Seq<u64>, i: int, j: int)
    requires
        spec_create_run(issued, hs),
        0 <= i < j < hs.len(),
    ensures
        hs[i] < hs[j],
{
    assert(issued[i + 1] == issued[i].insert(hs[i]));
    assert(issued[i + 1].contains(hs[i]));
    lemma_create_run_monotone(issued, hs, i + 1, j, hs[i]);
    assert(issued[j].contains(hs[i]));
}

} // verus!
