//! Choice of the physical device and of its compute queue family.

use vstd::prelude::*;
use crate::flags::{has_flags, queue_flags_contain};

verus! {

/// Capability bit: the queue family accepts compute dispatches.
pub const QUEUE_COMPUTE: u32 = 0x2;

/// One queue family of a physical device, as plain values.
#[derive(Clone, Copy, Debug, PartialEq, Eq, Structural)]
pub struct QueueFamily {
    /// Raw capability flag word.
    pub queue_flags: u32,
    /// Number of queues the family offers.
    pub queue_count: u32,
}

/// The device and queue family that the context is built on.
#[derive(Clone, Copy, Debug, PartialEq, Eq, Structural)]
pub struct DeviceChoice {
    /// Position of the device in the enumeration.
    pub device_index: usize,
    /// Index of the queue family on that device.
    pub queue_family_index: u32,
}

/// Whether a family can run the kernel: it reports compute capability and
/// offers at least one queue.
pub open spec fn compute_capable(family: QueueFamily) -> bool {
    has_flags(family.queue_flags, QUEUE_COMPUTE) && family.queue_count > 0
}

/// Whether `index` names a compute-capable family of `families`. Family
/// indices are 32-bit, so later positions are never candidates.
pub open spec fn usable_family(families: Seq<QueueFamily>, index: int) -> bool {
    0 <= index < families.len() && index <= u32::MAX && compute_capable(families[index])
}

/// Whether `index` is the first usable family.
pub open spec fn is_first_usable_family(families: Seq<QueueFamily>, index: int) -> bool {
    &&& usable_family(families, index)
    &&& forall|j: int| 0 <= j < index ==> !usable_family(families, j)
}

/// The queue family chosen on one device: the first usable one, if any.
pub open spec fn selected_family(families: Seq<QueueFamily>) -> Option<u32> {
    if exists|i: int| is_first_usable_family(families, i) {
        Some((choose|i: int| is_first_usable_family(families, i)) as u32)
    } else {
        None
    }
}

/// The queue families of every enumerated device, device by device.
pub open spec fn family_table(devices: Seq<Vec<QueueFamily>>) -> Seq<Seq<QueueFamily>> {
    Seq::new(devices.len(), |d: int| devices[d]@)
}

/// Whether device `index` has a usable queue family.
pub open spec fn usable_device(table: Seq<Seq<QueueFamily>>, index: int) -> bool {
    0 <= index < table.len() && selected_family(table[index]) is Some
}

/// Whether `index` is the first device with a usable family.
pub open spec fn is_first_usable_device(table: Seq<Seq<QueueFamily>>, index: int) -> bool {
    &&& usable_device(table, index)
    &&& forall|d: int| 0 <= d < index ==> !usable_device(table, d)
}

/// The device the context is built on: the first one with a usable family,
/// together with that family. No device is scored against another.
pub open spec fn selected_device(table: Seq<Seq<QueueFamily>>) -> Option<DeviceChoice> {
    if exists|d: int| is_first_usable_device(table, d) {
        let d = choose|d: int| is_first_usable_device(table, d);
        Some(
            (DeviceChoice {
                device_index: d as usize,
                queue_family_index: selected_family(table[d])->Some_0,
            }),
        )
    } else {
        None
    }
}

/// At most one family index is the first usable one.
pub proof fn first_usable_family_is_unique(families: Seq<QueueFamily>, a: int, b: int)
    requires
        is_first_usable_family(families, a),
        is_first_usable_family(families, b),
    ensures
        a == b,
{
}

/// At most one device index is the first usable one.
pub proof fn first_usable_device_is_unique(table: Seq<Seq<QueueFamily>>, a: int, b: int)
    requires
        is_first_usable_device(table, a),
        is_first_usable_device(table, b),
    ensures
        a == b,
{
}

/// What is selected is usable and first: the chosen device is the first
/// one with a usable family, and the chosen family is the first on that
/// device that reports compute capability and offers a queue. Nothing is
/// selected only when no device has such a family.
pub proof fn selection_is_first_match(table: Seq<Seq<QueueFamily>>)
    requires
        table.len() <= usize::MAX,
    ensures
        match selected_device(table) {
            Some(choice) => {
                &&& is_first_usable_device(table, choice.device_index as int)
                &&& is_first_usable_family(
                    table[choice.device_index as int],
                    choice.queue_family_index as int,
                )
                &&& compute_capable(
                    table[choice.device_index as int][choice.queue_family_index as int],
                )
            },
            None => forall|d: int, f: int|
                0 <= d < table.len() ==> !#[trigger] usable_family(table[d], f),
        },
{
    if !exists|d: int| is_first_usable_device(table, d) {
        assert forall|d: int, f: int| 0 <= d < table.len() implies !#[trigger] usable_family(
            table[d],
            f,
        ) by {
            if usable_family(table[d], f) {
                first_usable_exists(table[d], f);
                first_usable_device_exists(table, d);
            }
        }
    }
}

/// If some family is usable, a first usable family exists.
proof fn first_usable_exists(families: Seq<QueueFamily>, index: int)
    requires
        usable_family(families, index),
    ensures
        exists|i: int| is_first_usable_family(families, i),
    decreases index,
{
    if exists|j: int| 0 <= j < index && usable_family(families, j) {
        let j = choose|j: int| 0 <= j < index && usable_family(families, j);
        first_usable_exists(families, j);
    } else {
        assert(is_first_usable_family(families, index));
    }
}

/// If some device is usable, a first usable device exists.
proof fn first_usable_device_exists(table: Seq<Seq<QueueFamily>>, index: int)
    requires
        usable_device(table, index),
    ensures
        exists|d: int| is_first_usable_device(table, d),
    decreases index,
{
    if exists|j: int| 0 <= j < index && usable_device(table, j) {
        let j = choose|j: int| 0 <= j < index && usable_device(table, j);
        first_usable_device_exists(table, j);
    } else {
        assert(is_first_usable_device(table, index));
    }
}

/// Finds the first queue family that reports compute capability and has at
/// least one queue.
pub fn find_compute_family(families: &Vec<QueueFamily>) -> (found: Option<u32>)
    ensures
        found == selected_family(families@),
        match found {
            Some(index) => is_first_usable_family(families@, index as int),
            None => forall|j: int| !usable_family(families@, j),
        },
{
    let mut index: usize = 0;
    while index < families.len() && index <= 0xffff_ffff
        invariant
            index <= families.len(),
            index <= 0x1_0000_0000,
            forall|j: int| 0 <= j < index ==> !usable_family(families@, j),
        decreases families.len() - index,
    {
        let family: QueueFamily = families[index];
        if queue_flags_contain(family.queue_flags, QUEUE_COMPUTE) && family.queue_count > 0 {
            proof {
                assert(is_first_usable_family(families@, index as int));
                let chosen = choose|i: int| is_first_usable_family(families@, i);
                first_usable_family_is_unique(families@, index as int, chosen);
            }
            return Some(index as u32);
        }
        index = index + 1;
    }
    proof {
        assert forall|j: int| !usable_family(families@, j) by {
            if 0 <= j < families@.len() && j >= index {
            }
        }
    }
    None
}

/// Picks the first enumerated device that has a usable queue family, and
/// that family. `None` when no device can run compute work.
pub fn pick_physical_device(devices: &Vec<Vec<QueueFamily>>) -> (found: Option<DeviceChoice>)
    ensures
        found == selected_device(family_table(devices@)),
        match found {
            Some(choice) => {
                &&& is_first_usable_device(family_table(devices@), choice.device_index as int)
                &&& is_first_usable_family(
                    devices@[choice.device_index as int]@,
                    choice.queue_family_index as int,
                )
            },
            None => forall|d: int| !usable_device(family_table(devices@), d),
        },
{
    let ghost table = family_table(devices@);
    let mut index: usize = 0;
    while index < devices.len()
        invariant
            index <= devices.len(),
            table == family_table(devices@),
            forall|d: int| 0 <= d < index ==> !usable_device(table, d),
        decreases devices.len() - index,
    {
        match find_compute_family(&devices[index]) {
            Some(family) => {
                proof {
                    let chosen = choose|d: int| is_first_usable_device(table, d);
                    first_usable_device_is_unique(table, index as int, chosen);
                }
                return Some(DeviceChoice { device_index: index, queue_family_index: family });
            },
            None => {},
        }
        index = index + 1;
    }
    None
}

} // verus!
