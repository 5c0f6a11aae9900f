use gambier::find_memory_type;
use gambier::device::{
    select_physical_device, PhysicalDeviceInfo, DEVICE_TYPE_DISCRETE, DEVICE_TYPE_INTEGRATED,
    QUEUE_GRAPHICS,
};

#[test]
fn first_suitable_memory_type_wins() {
    // Type 0 lacks the required flags, type 1 and 2 both qualify: the scan
    // must return the first, index 1.
    let types = vec![0x1, 0x7, 0x7];
    assert_eq!(find_memory_type(0b111, &types, 0x6), Some(1));
}

#[test]
fn memory_type_mask_excludes_types() {
    // Type 1 has the flags but its bit is cleared in the mask; type 2 wins.
    let types = vec![0x1, 0x7, 0x7];
    assert_eq!(find_memory_type(0b101, &types, 0x6), Some(2));
}

#[test]
fn required_flags_must_be_subset_not_equal() {
    // Flags are a strict superset of the requirement: still suitable.
    let types = vec![0xF];
    assert_eq!(find_memory_type(0b1, &types, 0x5), Some(0));
}

#[test]
fn no_suitable_memory_type_is_none() {
    let types = vec![0x1, 0x2];
    assert_eq!(find_memory_type(0b11, &types, 0x4), None);
    assert_eq!(find_memory_type(0b00, &types, 0x1), None);
    assert_eq!(find_memory_type(0b11, &Vec::new(), 0x0), None);
}

#[test]
fn first_discrete_gpu_with_graphics_queue_wins() {
    let devices = vec![
        // Integrated: wrong type.
        PhysicalDeviceInfo { device_type: DEVICE_TYPE_INTEGRATED, queue_family_flags: vec![QUEUE_GRAPHICS] },
        // Discrete but no graphics family.
        PhysicalDeviceInfo { device_type: DEVICE_TYPE_DISCRETE, queue_family_flags: vec![0x2, 0x4] },
        // Discrete, second family has graphics.
        PhysicalDeviceInfo {
            device_type: DEVICE_TYPE_DISCRETE,
            queue_family_flags: vec![0x4, QUEUE_GRAPHICS | 0x2],
        },
    ];
    assert_eq!(select_physical_device(&devices, DEVICE_TYPE_DISCRETE), Some((2, 1)));
}

#[test]
fn wanted_integrated_gpu_is_honoured() {
    let devices = vec![
        PhysicalDeviceInfo { device_type: DEVICE_TYPE_DISCRETE, queue_family_flags: vec![QUEUE_GRAPHICS] },
        PhysicalDeviceInfo { device_type: DEVICE_TYPE_INTEGRATED, queue_family_flags: vec![QUEUE_GRAPHICS] },
    ];
    assert_eq!(select_physical_device(&devices, DEVICE_TYPE_INTEGRATED), Some((1, 0)));
}

#[test]
fn no_suitable_device_is_none() {
    let devices = vec![PhysicalDeviceInfo {
        device_type: DEVICE_TYPE_INTEGRATED,
        queue_family_flags: vec![0x2],
    }];
    assert_eq!(select_physical_device(&devices, DEVICE_TYPE_DISCRETE), None);
    assert_eq!(select_physical_device(&Vec::new(), DEVICE_TYPE_DISCRETE), None);
}
