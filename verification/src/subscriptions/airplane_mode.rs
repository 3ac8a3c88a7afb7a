//! Airplane mode as a function of the rfkill device table.

use std::collections::HashMap;
use vstd::prelude::*;
use vstd::std_specs::iter::IteratorSpec;

pub mod rfkill;

use rfkill::DeviceState;

verus! {

/// A device counts as blocked when either its hardware or its software kill
/// switch is engaged.
pub open spec fn device_blocked(d: DeviceState) -> bool {
    d.hard || d.soft
}

/// Airplane mode holds when there is at least one radio device and every
/// device is blocked.
pub open spec fn airplane_mode_of(devices: Map<u32, DeviceState>) -> bool {
    &&& devices.dom().len() > 0
    &&& forall|idx: u32| #[trigger] devices.dom().contains(idx) ==> device_blocked(devices[idx])
}

/// Decides whether the device table describes airplane mode.
pub fn is_airplane_mode(rfkill_state: &HashMap<u32, DeviceState>) -> (on: bool)
    ensures
        on == airplane_mode_of(rfkill_state@),
{
    broadcast use vstd::std_specs::hash::group_hash_axioms;

    if rfkill_state.is_empty() {
        return false;
    }
    let ghost values = rfkill_state.values().remaining();
    let mut all: bool = true;
    for d in it: rfkill_state.values()
        invariant
            it.seq() == values,
            all <==> (forall|i: int| 0 <= i < it.index() ==> device_blocked(*#[trigger] values[i])),
    {
        if !(d.hard || d.soft) {
            all = false;
        }
    }
    proof {
        let held = values.unref();
        assert(held.to_set() == rfkill_state@.values());
        assert forall|i: int| 0 <= i < held.len() implies held[i] == *values[i] by {}
        if all {
            assert forall|idx: u32| #[trigger]
                rfkill_state@.dom().contains(idx) implies device_blocked(rfkill_state@[idx]) by {
                assert(rfkill_state@.values().contains(rfkill_state@[idx]));
                assert(held.to_set().contains(rfkill_state@[idx]));
                let i = choose|i: int| 0 <= i < held.len() && held[i] == rfkill_state@[idx];
                assert(device_blocked(*values[i]));
            }
        } else {
            let i = choose|i: int| 0 <= i < values.len() && !device_blocked(*#[trigger] values[i]);
            assert(held.to_set().contains(held[i]));
            assert(rfkill_state@.values().contains(held[i]));
        }
    }
    all
}

/// What a reading of the device table is reported as: the airplane mode it
/// shows, and nothing where the table could not be read.
pub fn subscription(state: Option<&HashMap<u32, DeviceState>>) -> (report: Option<bool>)
    ensures
        report == (match state {
            Some(devices) => Some(airplane_mode_of(devices@)),
            None => None,
        }),
{
    match state {
        Some(devices) => Some(is_airplane_mode(devices)),
        None => None,
    }
}

} // verus!
