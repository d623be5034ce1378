//! Choice of the memory type that backs a buffer.

use vstd::prelude::*;
use crate::flags::{has_flags, memory_flags_contain};

verus! {

/// Property bit: the host can map the memory.
pub const HOST_VISIBLE: u32 = 0x2;

/// Property bit: host writes and reads need no explicit flush.
pub const HOST_COHERENT: u32 = 0x4;

/// The properties every buffer of the pipeline needs: host visible and host
/// coherent.
pub const HOST_VISIBLE_COHERENT: u32 = 0x6;

/// Number of bits in a memory requirement's type mask.
pub const TYPE_MASK_BITS: usize = 32;

/// One memory type of a physical device, as plain values.
#[derive(Clone, Copy, Debug, PartialEq, Eq, Structural)]
pub struct MemoryType {
    /// Raw property flag word.
    pub property_flags: u32,
    /// Heap the type allocates from.
    pub heap_index: u32,
}

/// Whether bit `index` of the requirement mask `type_bits` is set. Indices
/// beyond the mask's width are never allowed.
pub open spec fn type_allowed(type_bits: u32, index: int) -> bool {
    0 <= index < TYPE_MASK_BITS && (type_bits & (1u32 << (index as u32))) != 0
}

/// Whether the memory type at `index` satisfies both the requirement mask
/// and the required property flags.
pub open spec fn suitable(type_bits: u32, types: Seq<MemoryType>, required: u32, index: int) -> bool {
    &&& 0 <= index < types.len()
    &&& type_allowed(type_bits, index)
    &&& has_flags(types[index].property_flags, required)
}

/// Whether `index` is suitable and no lower index is.
pub open spec fn is_lowest_suitable(
    type_bits: u32,
    types: Seq<MemoryType>,
    required: u32,
    index: int,
) -> bool {
    &&& suitable(type_bits, types, required, index)
    &&& forall|j: int| 0 <= j < index ==> !suitable(type_bits, types, required, j)
}

/// The memory type the pipeline selects: the lowest suitable index, if any.
pub open spec fn selected_memory_type(type_bits: u32, types: Seq<MemoryType>, required: u32) -> Option<
    u32,
> {
    if exists|i: int| is_lowest_suitable(type_bits, types, required, i) {
        Some((choose|i: int| is_lowest_suitable(type_bits, types, required, i)) as u32)
    } else {
        None
    }
}

/// At most one index is the lowest suitable one.
pub proof fn lowest_suitable_is_unique(
    type_bits: u32,
    types: Seq<MemoryType>,
    required: u32,
    a: int,
    b: int,
)
    requires
        is_lowest_suitable(type_bits, types, required, a),
        is_lowest_suitable(type_bits, types, required, b),
    ensures
        a == b,
{
}

/// If some index is suitable, a lowest suitable index exists.
proof fn lowest_suitable_exists(type_bits: u32, types: Seq<MemoryType>, required: u32, index: int)
    requires
        suitable(type_bits, types, required, index),
    ensures
        exists|i: int| is_lowest_suitable(type_bits, types, required, i),
    decreases index,
{
    if exists|j: int| 0 <= j < index && suitable(type_bits, types, required, j) {
        let j = choose|j: int| 0 <= j < index && suitable(type_bits, types, required, j);
        lowest_suitable_exists(type_bits, types, required, j);
    } else {
        assert(is_lowest_suitable(type_bits, types, required, index));
    }
}

/// Memory-type selection: the selected index is the lowest one that
/// satisfies both the requirement mask and the required properties, and
/// nothing is selected exactly when no index satisfies both. The
/// selection depends on the mask, the types and the required properties
/// alone.
pub proof fn selection_is_lowest_match(type_bits: u32, types: Seq<MemoryType>, required: u32)
    ensures
        match selected_memory_type(type_bits, types, required) {
            Some(index) => is_lowest_suitable(type_bits, types, required, index as int),
            None => forall|j: int| !suitable(type_bits, types, required, j),
        },
{
    if !exists|i: int| is_lowest_suitable(type_bits, types, required, i) {
        assert forall|j: int| !suitable(type_bits, types, required, j) by {
            if suitable(type_bits, types, required, j) {
                lowest_suitable_exists(type_bits, types, required, j);
            }
        }
    }
}

/// Selects the first memory type that the requirement mask allows and whose
/// properties include `required`. First match wins: no later type is
/// preferred, whatever its other properties.
pub fn find_memory_type(type_bits: u32, types: &Vec<MemoryType>, required: u32) -> (found: Option<u32>)
    ensures
        found == selected_memory_type(type_bits, types@, required),
        match found {
            Some(index) => is_lowest_suitable(type_bits, types@, required, index as int),
            None => forall|j: int| !suitable(type_bits, types@, required, j),
        },
{
    let mut index: usize = 0;
    while index < types.len() && index < TYPE_MASK_BITS
        invariant
            index <= types.len(),
            index <= TYPE_MASK_BITS,
            forall|j: int| 0 <= j < index ==> !suitable(type_bits, types@, required, j),
        decreases types.len() - index,
    {
        let bit: u32 = 1u32 << (index as u32);
        if (type_bits & bit) != 0 && memory_flags_contain(types[index].property_flags, required) {
            proof {
                assert(is_lowest_suitable(type_bits, types@, required, index as int));
                let chosen = choose|i: int| is_lowest_suitable(type_bits, types@, required, i);
                lowest_suitable_is_unique(type_bits, types@, required, index as int, chosen);
            }
            return Some(index as u32);
        }
        index = index + 1;
    }
    proof {
        assert forall|j: int| !suitable(type_bits, types@, required, j) by {
            if 0 <= j < types@.len() && j >= index {
            }
        }
    }
    None
}

} // verus!
