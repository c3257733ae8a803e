//! Memory-type selection against the device's reported capability bitmasks.
//!
//! An image's memory requirements name a size and a bitmask of compatible
//! memory-type indices; the device reports a table of memory types, each with
//! its property flags. The allocator picks the first index that both the
//! requirement bitmask admits and whose properties include everything
//! requested.

use vstd::prelude::*;

use crate::ExternalSurfaceError;

verus! {

/// Property bit of a device-local memory type (`VK_MEMORY_PROPERTY_DEVICE_LOCAL_BIT`).
pub const MEMORY_PROPERTY_DEVICE_LOCAL: u32 = 1;

/// The most memory types a device can report (`VK_MAX_MEMORY_TYPES`).
pub const MAX_MEMORY_TYPES: usize = 32;

/// Index `i` of the memory-type table qualifies: the requirement bitmask has
/// bit `i` set, and the type's property flags include every requested
/// property bit.
pub open spec fn memory_type_qualifies(
    memory_type_flags: Seq<u32>,
    type_filter: u32,
    required_properties: u32,
    i: int,
) -> bool {
    &&& 0 <= i < memory_type_flags.len()
    &&& type_filter & (1u32 << (i as u32)) != 0
    &&& memory_type_flags[i] & required_properties == required_properties
}

/// Selects the memory type to allocate from: the smallest index of the table
/// that the requirement bitmask admits and whose property flags include every
/// bit of `required_properties`. Fails with `MemoryExportFailed` exactly when
/// no index qualifies.
///
/// `memory_type_flags[i]` is the property-flag word of memory type `i`, as
/// the device reports it.
pub fn find_memory_type(
    memory_type_flags: &Vec<u32>,
    type_filter: u32,
    required_properties: u32,
) -> (r: Result<u32, ExternalSurfaceError>)
    requires
        memory_type_flags@.len() <= MAX_MEMORY_TYPES,
    ensures
        match r {
            Ok(i) => {
                &&& memory_type_qualifies(
                    memory_type_flags@,
                    type_filter,
                    required_properties,
                    i as int,
                )
                &&& forall|j: int|
                    0 <= j < i ==> !memory_type_qualifies(
                        memory_type_flags@,
                        type_filter,
                        required_properties,
                        j,
                    )
            },
            Err(e) => {
                &&& e == ExternalSurfaceError::MemoryExportFailed
                &&& forall|j: int|
                    !memory_type_qualifies(
                        memory_type_flags@,
                        type_filter,
                        required_properties,
                        j,
                    )
            },
        },
{
    let count = memory_type_flags.len();
    let mut i: usize = 0;
    while i < count
        invariant
            i <= count,
            count == memory_type_flags@.len(),
            count <= MAX_MEMORY_TYPES,
            forall|j: int|
                0 <= j < i ==> !memory_type_qualifies(
                    memory_type_flags@,
                    type_filter,
                    required_properties,
                    j,
                ),
        decreases count - i,
    {
        if type_filter & (1u32 << (i as u32)) != 0 && memory_type_flags[i] & required_properties
            == required_properties {
            return Ok(i as u32);
        }
        i = i + 1;
    }
    Err(ExternalSurfaceError::MemoryExportFailed)
}

} // verus!
