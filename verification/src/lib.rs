//! The resource chain of a hardware ray tracer, verified: buffer and
//! memory-type selection, mesh upload, bottom- and top-level
//! acceleration-structure builds with their one-shot command sequences,
//! instance-record packing, pipeline assembly, and the shader-binding
//! table's region layout.  Sizes, addresses and handles live in a
//! device-context model; a thin driver mirrors each decision onto the
//! real device.

use vstd::prelude::*;

pub mod buffer;
pub mod bytes;
pub mod commands;
pub mod device;
pub mod error;
pub mod flags;
pub mod mesh_buffer;
pub mod pipelines;
pub mod queue_family_indices;
pub mod scene;
pub mod shader_binding_table;
pub mod top_level_acceleration_structures;
pub mod triangle_bottom_level_acceleration_structure;

verus! {

use crate::flags::flags_contain;
use crate::flags::contains_flags;

/// Memory type `i` of the device's memory-type list can back an allocation
/// when its index bit is set in the requirements mask `type_filter` and its
/// property flags are a superset of the requested `property_flags`.
pub open spec fn memory_type_matches(
    memory_types: Seq<u32>,
    type_filter: u32,
    property_flags: u32,
    i: int,
) -> bool {
    &&& 0 <= i < memory_types.len()
    &&& (type_filter >> (i as u32)) & 1 == 1
    &&& flags_contain(memory_types[i], property_flags)
}

/// Scans the device's memory-type list (one property-flag word per type) for
/// the first type whose index bit is set in `type_filter` and whose property
/// flags are a superset of `property_flags`; `None` when no type matches.
pub fn get_memory_type_index(
    memory_types: &Vec<u32>,
    type_filter: u32,
    property_flags: u32,
) -> (r: Option<u32>)
    requires
        memory_types@.len() <= 32,
    ensures
        match r {
            Some(i) => {
                &&& memory_type_matches(memory_types@, type_filter, property_flags, i as int)
                &&& forall|j: int|
                    0 <= j < i ==> !memory_type_matches(
                        memory_types@,
                        type_filter,
                        property_flags,
                        j,
                    )
            },
            None => forall|j: int|
                0 <= j < memory_types@.len() ==> !memory_type_matches(
                    memory_types@,
                    type_filter,
                    property_flags,
                    j,
                ),
        },
{
    let n = memory_types.len();
    let mut i: usize = 0;
    while i < n
        invariant
            n == memory_types@.len() <= 32,
            0 <= i <= n,
            forall|j: int|
                0 <= j < i ==> !memory_type_matches(memory_types@, type_filter, property_flags, j),
        decreases n - i,
    {
        if (type_filter >> (i as u32)) & 1 == 1 && contains_flags(memory_types[i], property_flags) {
            return Some(i as u32);
        }
        i = i + 1;
    }
    None
}

} // verus!
