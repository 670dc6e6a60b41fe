//! The simulated backend: in-memory bookkeeping only, no external side
//! effects. It allocates handles from a monotone counter, keeps its live
//! devices in a concurrent map, and records every delivered state instead
//! of calling a driver. Used for testing and for hosts without the
//! privileged bus device.

use vstd::prelude::*;
use dashmap::DashMap;
use crate::backend::{Backend, BackendError};
use crate::device::{DeviceKind, PadState};
use crate::registry::{
    entry_map_get, entry_map_insert, entry_map_new, entry_map_remove, entry_map_view, DeviceEntry,
};
use crate::report::{pack_report, spec_pack_report};

verus! {

/// The simulated backend.
pub struct Mock {
    next: u64,
    live: DashMap<u64, DeviceEntry>,
    delivered: Vec<(u64, PadState)>,
    last_report: Option<Vec<u8>>,
}

impl Mock {
    /// The next handle the counter would issue.
    pub closed spec fn spec_next(self) -> u64 {
        self.next
    }

    /// The kind and features recorded for each live handle.
    pub closed spec fn entries(self) -> Map<u64, DeviceEntry> {
        entry_map_view(self.live)
    }

    /// The bytes of the report packed for the most recent delivery, if the
    /// delivered device's kind has a defined layout.
    pub closed spec fn spec_last_report(self) -> Option<Seq<u8>> {
        match self.last_report {
            Some(v) => Some(v@),
            None => None,
        }
    }

    /// A fresh simulated backend: no devices, nothing delivered, counting
    /// handles from 1.
    pub fn new() -> (r: Mock)
        ensures
            r.inv(),
            r.spec_next() == 1,
            r.live() == Set::<u64>::empty(),
            r.issued() == Set::<u64>::empty(),
            r.delivered() == Seq::<(u64, PadState)>::empty(),
    {
        let r = Mock {
            next: 1,
            live: entry_map_new(),
            delivered: Vec::new(),
            last_report: None,
        };
        proof {
            assert(r.issued() =~= Set::<u64>::empty());
            assert(r.live() =~= Set::<u64>::empty());
        }
        r
    }

    /// The kind and features a live handle was created with.
    pub fn entry(&self, handle: u64) -> (r: Option<DeviceEntry>)
        ensures
            r == if self.entries().dom().contains(handle) {
                Some(self.entries()[handle])
            } else {
                None::<DeviceEntry>
            },
    {
        entry_map_get(&self.live, handle)
    }

    /// The deliveries recorded so far, oldest first.
    pub fn deliveries(&self) -> (r: &Vec<(u64, PadState)>)
        ensures
            r@ == self.delivered(),
    {
        &self.delivered
    }

    /// The packed report of the most recent delivery, if its kind has a
    /// defined layout.
    pub fn last_report(&self) -> (r: &Option<Vec<u8>>)
        ensures
            match r {
                Some(v) => self.spec_last_report() == Some(v@),
                None => self.spec_last_report() is None,
            },
    {
        &self.last_report
    }
}

impl Backend for Mock {
    closed spec fn live(&self) -> Set<u64> {
        entry_map_view(self.live).dom()
    }

    closed spec fn issued(&self) -> Set<u64> {
        Set::new(|g: u64| 1 <= g < self.next)
    }

    closed spec fn delivered(&self) -> Seq<(u64, PadState)> {
        self.delivered@
    }

    closed spec fn inv(&self) -> bool {
        &&& self.next >= 1
        &&& forall|h: u64|
            entry_map_view(self.live).dom().contains(h) ==> 1 <= h && h < self.next
    }

    fn create(&mut self, kind: DeviceKind, features: u32) -> (r: Result<u64, BackendError>)
        ensures
            match r {
                Ok(h) => {
                    &&& h == old(self).spec_next()
                    &&& final(self).spec_next() == old(self).spec_next() + 1
                    &&& final(self).entries() == old(self).entries().insert(
                        h,
                        DeviceEntry { kind, features },
                    )
                },
                Err(e) => {
                    &&& e == BackendError::Exhausted
                    &&& old(self).spec_next() == u64::MAX
                    &&& *final(self) == *old(self)
                },
            },
    {
        if self.next == u64::MAX {
            return Err(BackendError::Exhausted);
        }
        let h = self.next;
        self.next = self.next + 1;
        entry_map_insert(&mut self.live, h, DeviceEntry { kind, features });
        proof {
            assert(self.issued() =~= old(self).issued().insert(h));
            assert(self.live() =~= old(self).live().insert(h));
        }
        Ok(h)
    }

    fn destroy(&mut self, handle: u64) -> (r: Result<(), BackendError>)
        ensures
            r == Ok::<(), BackendError>(()),
            final(self).entries() == old(self).entries().remove(handle),
            final(self).spec_next() == old(self).spec_next(),
    {
        let _ = entry_map_remove(&mut self.live, handle);
        proof {
            assert(self.live() =~= old(self).live().remove(handle));
        }
        Ok(())
    }

    fn update(&mut self, handle: u64, state: PadState) -> (r: Result<(), BackendError>)
        ensures
            old(self).live().contains(handle) ==> {
                &&& r == Ok::<(), BackendError>(())
                &&& final(self).spec_last_report() == (match spec_pack_report(
                    old(self).entries()[handle].kind,
                    state,
                ) {
                    Ok(b) => Some(b),
                    Err(_) => None::<Seq<u8>>,
                })
            },
            final(self).entries() == old(self).entries(),
            final(self).spec_next() == old(self).spec_next(),
    {
        match entry_map_get(&self.live, handle) {
            Some(entry) => {
                match pack_report(entry.kind, &state) {
                    Ok(bytes) => {
                        self.last_report = Some(bytes);
                    },
                    Err(_) => {
                        // The kind has no defined layout; the simulation
                        // records the delivery all the same.
                        self.last_report = None;
                    },
                }
                self.delivered.push((handle, state));
                Ok(())
            },
            None => Err(BackendError::InvalidHandle(handle)),
        }
    }
}

} // verus!
