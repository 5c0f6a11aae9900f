//! Device memory type selection.
//!
//! A device advertises up to 32 memory types, each with a set of property
//! flags. A resource's memory requirements name the acceptable types as a
//! bitmask. The allocator scans the type list in index order and picks the
//! first type whose bit is set in the mask and whose property flags are a
//! superset of the required flags. Failure to find one is a fatal
//! configuration error, reported as `None` and not retried.

use vstd::prelude::*;

verus! {

/// Memory type `i` (with property flags `flags`) satisfies a request with
/// allowed-type mask `type_bits` and required property flags `required`:
/// its bit is set in the mask and its flags are a superset of `required`.
pub open spec fn memory_type_suitable(type_bits: u32, flags: u32, required: u32, i: int) -> bool {
    &&& 0 <= i < 32
    &&& (type_bits >> (i as u32)) & 1u32 == 1u32
    &&& flags & required == required
}

/// Scan the device's memory types in index order and return the first one
/// suitable for the request, or `None` when no type matches.
///
/// `memory_types` holds the property flags of each memory type, in device
/// order; a device has at most 32 types, the width of the allowed-type mask.
pub fn find_memory_type(type_bits: u32, memory_types: &Vec<u32>, required: u32) -> (r: Option<
    usize,
>)
    requires
        memory_types@.len() <= 32,
    ensures
        match r {
            Some(i) => {
                &&& i < memory_types@.len()
                &&& memory_type_suitable(type_bits, memory_types@[i as int], required, i as int)
                &&& forall|j: int|
                    0 <= j < i ==> !memory_type_suitable(
                        type_bits,
                        memory_types@[j],
                        required,
                        j,
                    )
            },
            None => forall|j: int|
                0 <= j < memory_types@.len() ==> !memory_type_suitable(
                    type_bits,
                    memory_types@[j],
                    required,
                    j,
                ),
        },
{
    let n = memory_types.len();
    let mut i: usize = 0;
    while i < n
        invariant
            n == memory_types@.len(),
            n <= 32,
            i <= n,
            forall|j: int|
                0 <= j < i ==> !memory_type_suitable(type_bits, memory_types@[j], required, j),
        decreases n - i,
    {
        let flags = memory_types[i];
        if (type_bits >> (i as u32)) & 1u32 == 1u32 && flags & required == required {
            return Some(i);
        }
        i = i + 1;
    }
    None
}

} // verus!
