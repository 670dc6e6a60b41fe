//! The shared registries. The broker and its backends keep their handle
//! bookkeeping in `dashmap::DashMap`, a concurrent map safe for use from
//! many sessions and pump tasks at once. Verus sees each map through an
//! abstract `Map` of its contents and through small trusted wrappers whose
//! contracts state what the crate's documented operations do to it.

use vstd::prelude::*;
use dashmap::DashMap;
use crate::device::DeviceKind;
use crate::pump::PumpState;

verus! {

#[verifier::external_type_specification]
#[verifier::external_body]
#[verifier::reject_recursive_types(K)]
#[verifier::reject_recursive_types(V)]
#[verifier::reject_recursive_types(S)]
pub struct ExDashMap<K, V, S>(DashMap<K, V, S>);

/// One live device as a backend records it: its kind and the advisory
/// feature bits it was created with.
#[derive(Clone, Copy, Debug, PartialEq, Eq, Structural)]
pub struct DeviceEntry {
    pub kind: DeviceKind,
    pub features: u32,
}

/// The contents of a device-entry registry.
pub uninterp spec fn entry_map_view(m: DashMap<u64, DeviceEntry>) -> Map<u64, DeviceEntry>;

/// The contents of a handle-to-kind registry.
pub uninterp spec fn kind_map_view(m: DashMap<u64, DeviceKind>) -> Map<u64, DeviceKind>;

/// The contents of a pump registry.
pub uninterp spec fn pump_map_view(m: DashMap<u64, PumpState>) -> Map<u64, PumpState>;

/// Relies on dashmap::DashMap::new: the fresh map is empty.
#[verifier::external_body]
pub(crate) fn entry_map_new() -> (r: DashMap<u64, DeviceEntry>)
    ensures
        (entry_map_view(r) == Map::<u64, DeviceEntry>::empty()),
{
    DashMap::new()
}

/// Relies on dashmap::DashMap::insert: the key now maps to the value.
#[verifier::external_body]
pub(crate) fn entry_map_insert(m: &mut DashMap<u64, DeviceEntry>, k: u64, v: DeviceEntry)
    ensures
        entry_map_view(*final(m)) == entry_map_view(*old(m)).insert(k, v),
{
    let _ = m.insert(k, v);
}

/// Relies on dashmap::DashMap::remove: the key is gone, and the removed
/// value comes back if the key was present.
#[verifier::external_body]
pub(crate) fn entry_map_remove(m: &mut DashMap<u64, DeviceEntry>, k: u64) -> (r: Option<DeviceEntry>)
    ensures
        entry_map_view(*final(m)) == entry_map_view(*old(m)).remove(k),
        r == if entry_map_view(*old(m)).dom().contains(k) {
            Some(entry_map_view(*old(m))[k])
        } else {
            None::<DeviceEntry>
        },
{
    match m.remove(&k) {
        Some((_, v)) => Some(v),
        None => None,
    }
}

/// Relies on dashmap::DashMap::get: the value under the key, if any.
#[verifier::external_body]
pub(crate) fn entry_map_get(m: &DashMap<u64, DeviceEntry>, k: u64) -> (r: Option<DeviceEntry>)
    ensures
        r == if entry_map_view(*m).dom().contains(k) {
            Some(entry_map_view(*m)[k])
        } else {
            None::<DeviceEntry>
        },
{
    match m.get(&k) {
        Some(entry) => Some(*entry.value()),
        None => None,
    }
}

/// Relies on dashmap::DashMap::new: the fresh map is empty.
#[verifier::external_body]
pub(crate) fn kind_map_new() -> (r: DashMap<u64, DeviceKind>)
    ensures
        (kind_map_view(r) == Map::<u64, DeviceKind>::empty()),
{
    DashMap::new()
}

/// Relies on dashmap::DashMap::insert: the key now maps to the value.
#[verifier::external_body]
pub(crate) fn kind_map_insert(m: &mut DashMap<u64, DeviceKind>, k: u64, v: DeviceKind)
    ensures
        kind_map_view(*final(m)) == kind_map_view(*old(m)).insert(k, v),
{
    let _ = m.insert(k, v);
}

/// Relies on dashmap::DashMap::remove: the key is gone, and the removed
/// value comes back if the key was present.
#[verifier::external_body]
pub(crate) fn kind_map_remove(m: &mut DashMap<u64, DeviceKind>, k: u64) -> (r: Option<DeviceKind>)
    ensures
        kind_map_view(*final(m)) == kind_map_view(*old(m)).remove(k),
        r == if kind_map_view(*old(m)).dom().contains(k) {
            Some(kind_map_view(*old(m))[k])
        } else {
            None::<DeviceKind>
        },
{
    match m.remove(&k) {
        Some((_, v)) => Some(v),
        None => None,
    }
}

/// Relies on dashmap::DashMap::get: the value under the key, if any.
#[verifier::external_body]
pub(crate) fn kind_map_get(m: &DashMap<u64, DeviceKind>, k: u64) -> (r: Option<DeviceKind>)
    ensures
        r == if kind_map_view(*m).dom().contains(k) {
            Some(kind_map_view(*m)[k])
        } else {
            None::<DeviceKind>
        },
{
    match m.get(&k) {
        Some(entry) => Some(*entry.value()),
        None => None,
    }
}

/// Relies on dashmap::DashMap::new: the fresh map is empty.
#[verifier::external_body]
pub(crate) fn pump_map_new() -> (r: DashMap<u64, PumpState>)
    ensures
        (pump_map_view(r) == Map::<u64, PumpState>::empty()),
{
    DashMap::new()
}

/// Relies on dashmap::DashMap::insert: the key now maps to the value.
#[verifier::external_body]
pub(crate) fn pump_map_insert(m: &mut DashMap<u64, PumpState>, k: u64, v: PumpState)
    ensures
        pump_map_view(*final(m)) == pump_map_view(*old(m)).insert(k, v),
{
    let _ = m.insert(k, v);
}

/// Relies on dashmap::DashMap::remove: the key is gone, and the removed
/// value comes back if the key was present.
#[verifier::external_body]
pub(crate) fn pump_map_remove(m: &mut DashMap<u64, PumpState>, k: u64) -> (r: Option<PumpState>)
    ensures
        pump_map_view(*final(m)) == pump_map_view(*old(m)).remove(k),
        r == if pump_map_view(*old(m)).dom().contains(k) {
            Some(pump_map_view(*old(m))[k])
        } else {
            None::<PumpState>
        },
{
    match m.remove(&k) {
        Some((_, v)) => Some(v),
        None => None,
    }
}

/// Relies on dashmap::DashMap::get: the value under the key, if any.
#[verifier::external_body]
pub(crate) fn pump_map_get(m: &DashMap<u64, PumpState>, k: u64) -> (r: Option<PumpState>)
    ensures
        r == if pump_map_view(*m).dom().contains(k) {
            Some(pump_map_view(*m)[k])
        } else {
            None::<PumpState>
        },
{
    match m.get(&k) {
        Some(entry) => Some(*entry.value()),
        None => None,
    }
}

} // verus!
