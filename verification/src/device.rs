//! Physical device and queue family selection.
//!
//! At startup the devices the instance enumerates are scanned in order for
//! the first of the wanted type that offers a graphics-capable queue
//! family; within that device the first such family is taken. No match is
//! a fatal setup error, reported as `None`: there is no degraded mode.

use vstd::prelude::*;

verus! {

/// Queue capability bit: graphics. Matches the Vulkan value.
pub const QUEUE_GRAPHICS: u32 = 0x1;

/// Device type code of a discrete GPU. Matches the Vulkan value.
pub const DEVICE_TYPE_DISCRETE: u32 = 2;

/// Device type code of an integrated GPU. Matches the Vulkan value.
pub const DEVICE_TYPE_INTEGRATED: u32 = 1;

/// What selection reads of one enumerated physical device: its type code
/// and the capability flags of each of its queue families, in family
/// order.
#[derive(Clone, Debug)]
pub struct PhysicalDeviceInfo {
    /// The device's type code.
    pub device_type: u32,
    /// Capability flags of each queue family, in family order.
    pub queue_family_flags: Vec<u32>,
}

/// The queue family's flags include the graphics capability.
pub open spec fn family_has_graphics(flags: u32) -> bool {
    flags & QUEUE_GRAPHICS == QUEUE_GRAPHICS
}

/// The device is of the wanted type and some queue family of it has the
/// graphics capability.
pub open spec fn device_suitable(d: PhysicalDeviceInfo, wanted_type: u32) -> bool {
    &&& d.device_type == wanted_type
    &&& exists|j: int|
        0 <= j < d.queue_family_flags@.len() && family_has_graphics(d.queue_family_flags@[j])
}

/// Scan a device's queue families in order for the first with the
/// graphics capability.
fn find_graphics_family(flags: &Vec<u32>) -> (r: Option<usize>)
    ensures
        match r {
            Some(j) => j < flags@.len() && family_has_graphics(flags@[j as int]) && forall|k: int|
                0 <= k < j ==> !family_has_graphics(flags@[k]),
            None => forall|k: int| 0 <= k < flags@.len() ==> !family_has_graphics(flags@[k]),
        },
{
    let n = flags.len();
    let mut j: usize = 0;
    while j < n
        invariant
            n == flags@.len(),
            j <= n,
            forall|k: int| 0 <= k < j ==> !family_has_graphics(flags@[k]),
        decreases n - j,
    {
        if flags[j] & QUEUE_GRAPHICS == QUEUE_GRAPHICS {
            return Some(j);
        }
        j = j + 1;
    }
    None
}

/// Select the physical device and queue family to create the device on:
/// the first enumerated device of the wanted type with a graphics-capable
/// queue family, and within it the first such family. `None` when no
/// device qualifies, which is fatal at setup.
pub fn select_physical_device(devices: &Vec<PhysicalDeviceInfo>, wanted_type: u32) -> (r: Option<
    (usize, usize),
>)
    ensures
        match r {
            Some((d, q)) => {
                &&& d < devices@.len()
                &&& device_suitable(devices@[d as int], wanted_type)
                &&& forall|i: int| 0 <= i < d ==> !device_suitable(devices@[i], wanted_type)
                &&& q < devices@[d as int].queue_family_flags@.len()
                &&& family_has_graphics(devices@[d as int].queue_family_flags@[q as int])
                &&& forall|k: int|
                    0 <= k < q ==> !family_has_graphics(
                        devices@[d as int].queue_family_flags@[k],
                    )
            },
            None => forall|i: int|
                0 <= i < devices@.len() ==> !device_suitable(devices@[i], wanted_type),
        },
{
    let n = devices.len();
    let mut i: usize = 0;
    while i < n
        invariant
            n == devices@.len(),
            i <= n,
            forall|k: int| 0 <= k < i ==> !device_suitable(devices@[k], wanted_type),
        decreases n - i,
    {
        if devices[i].device_type == wanted_type {
            match find_graphics_family(&devices[i].queue_family_flags) {
                Some(q) => {
                    return Some((i, q));
                },
                None => {},
            }
        }
        i = i + 1;
    }
    None
}

} // verus!
