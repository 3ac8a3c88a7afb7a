//! The kernel's rfkill event record and the device table built from it.

use std::collections::HashMap;
use vstd::prelude::*;

verus! {

pub const RFKILL_OP_ADD: u8 = 0;

pub const RFKILL_OP_DEL: u8 = 1;

pub const RFKILL_OP_CHANGE: u8 = 2;

/// One record as read from the rfkill device node.
#[allow(non_camel_case_types)]
#[derive(Debug, Copy, Clone, Default)]
pub struct rfkill_event {
    pub idx: u32,
    pub type_: u8,
    pub op: u8,
    pub soft: u8,
    pub hard: u8,
}

/// What is remembered of one radio device.
#[derive(Debug, Copy, Clone)]
pub struct DeviceState {
    pub type_: u8,
    pub soft: bool,
    pub hard: bool,
}

/// What a device record says of its device.
pub open spec fn state_of(event: rfkill_event) -> DeviceState {
    DeviceState { type_: event.type_, soft: event.soft != 0, hard: event.hard != 0 }
}

/// The device table after one record: an added or changed device is filed
/// under its index, a removed one is struck, and a record of any other
/// operation changes nothing.
pub open spec fn table_after(devices: Map<u32, DeviceState>, event: rfkill_event) -> Map<
    u32,
    DeviceState,
> {
    if event.op == RFKILL_OP_ADD || event.op == RFKILL_OP_CHANGE {
        devices.insert(event.idx, state_of(event))
    } else if event.op == RFKILL_OP_DEL {
        devices.remove(event.idx)
    } else {
        devices
    }
}

/// Applies one record to the device table.
pub fn apply_event(devices: &mut HashMap<u32, DeviceState>, event: &rfkill_event)
    ensures
        final(devices)@ == table_after(old(devices)@, *event),
{
    broadcast use vstd::std_specs::hash::group_hash_axioms;

    if event.op == RFKILL_OP_ADD || event.op == RFKILL_OP_CHANGE {
        devices.insert(
            event.idx,
            DeviceState { type_: event.type_, soft: event.soft != 0, hard: event.hard != 0 },
        );
    } else if event.op == RFKILL_OP_DEL {
        devices.remove(&event.idx);
    }
}

/// The device table after a run of records, applied in order.
pub open spec fn table_after_all(devices: Map<u32, DeviceState>, events: Seq<rfkill_event>) -> Map<
    u32,
    DeviceState,
>
    decreases events.len(),
{
    if events.len() == 0 {
        devices
    } else {
        table_after(table_after_all(devices, events.drop_last()), events.last())
    }
}

/// Applies every record of one wake-up, in the order read.
pub fn apply_events(devices: &mut HashMap<u32, DeviceState>, events: &[rfkill_event])
    ensures
        final(devices)@ == table_after_all(old(devices)@, events@),
{
    let mut i: usize = 0;
    assert(events@.subrange(0, 0) =~= Seq::<rfkill_event>::empty());
    while i < events.len()
        invariant
            i <= events.len(),
            devices@ == table_after_all(old(devices)@, events@.subrange(0, i as int)),
        decreases events.len() - i,
    {
        proof {
            let upto = events@.subrange(0, i + 1);
            assert(upto.drop_last() =~= events@.subrange(0, i as int));
            assert(upto.last() == events@[i as int]);
        }
        apply_event(devices, &events[i]);
        i += 1;
    }
    assert(events@.subrange(0, i as int) =~= events@);
}

/// A removed device is gone from the table, and a device added or changed
/// is in it with what the record said, whatever the table held before.
pub proof fn law_last_record_wins(devices: Map<u32, DeviceState>, event: rfkill_event)
    ensures
        event.op == RFKILL_OP_DEL ==> !table_after(devices, event).dom().contains(event.idx),
        event.op == RFKILL_OP_ADD || event.op == RFKILL_OP_CHANGE ==> table_after(
            devices,
            event,
        ).dom().contains(event.idx) && table_after(devices, event)[event.idx] == state_of(event),
        forall|idx: u32|
            idx != event.idx ==> (table_after(devices, event).dom().contains(idx)
                <==> devices.dom().contains(idx)),
        forall|idx: u32|
            idx != event.idx && devices.dom().contains(idx) ==> table_after(devices, event)[idx]
                == devices[idx],
{
}

} // verus!
