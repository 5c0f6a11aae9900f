use gambier::descriptor::{
    DescriptorRegistry, RegistryError, BINDING_INDIRECT, BINDING_MATERIALS, MAX_TEXTURES,
    STORAGE_BINDING_COUNT,
};

#[test]
fn fresh_registry_has_no_bindings_and_default_slots() {
    let r = DescriptorRegistry::new();
    for b in 0..STORAGE_BINDING_COUNT {
        assert_eq!(r.storage_binding(b), None);
    }
    assert_eq!(r.texture_count(), 0);
    assert_eq!(r.texture_slot(0), None);
    assert_eq!(r.texture_slot(MAX_TEXTURES - 1), None);
}

#[test]
fn registering_zero_textures_leaves_all_slots_default() {
    let mut r = DescriptorRegistry::new();
    assert!(r.register_textures(&vec![]).is_ok());
    assert_eq!(r.texture_count(), 0);
    for i in [0, 1, 499, MAX_TEXTURES - 1] {
        assert_eq!(r.texture_slot(i), None);
    }
}

#[test]
fn registering_k_textures_fills_prefix_and_leaves_rest_default() {
    let mut r = DescriptorRegistry::new();
    assert!(r.register_textures(&vec![11, 22, 33]).is_ok());
    assert_eq!(r.texture_count(), 3);
    assert_eq!(r.texture_slot(0), Some(11));
    assert_eq!(r.texture_slot(1), Some(22));
    assert_eq!(r.texture_slot(2), Some(33));
    assert_eq!(r.texture_slot(3), None);
    assert_eq!(r.texture_slot(MAX_TEXTURES - 1), None);
}

#[test]
fn reregistering_smaller_count_leaves_no_stale_slot_reachable() {
    let mut r = DescriptorRegistry::new();
    assert!(r.register_textures(&vec![11, 22, 33]).is_ok());
    assert!(r.register_textures(&vec![44]).is_ok());
    // The declared count shrank with the write: slots past it read
    // default, never the previously registered images.
    assert_eq!(r.texture_count(), 1);
    assert_eq!(r.texture_slot(0), Some(44));
    assert_eq!(r.texture_slot(1), None);
    assert_eq!(r.texture_slot(2), None);
}

#[test]
fn registering_over_capacity_fails_and_changes_nothing() {
    let mut r = DescriptorRegistry::new();
    assert!(r.register_textures(&vec![7]).is_ok());
    let too_many: Vec<u64> = (0..(MAX_TEXTURES as u64 + 1)).collect();
    assert_eq!(r.register_textures(&too_many), Err(RegistryError::TooManyTextures));
    assert_eq!(r.texture_count(), 1);
    assert_eq!(r.texture_slot(0), Some(7));
}

#[test]
fn storage_buffer_registration_writes_one_binding() {
    let mut r = DescriptorRegistry::new();
    assert!(r.register_storage_buffer(BINDING_MATERIALS, 5).is_ok());
    assert_eq!(r.storage_binding(BINDING_MATERIALS), Some(5));
    assert_eq!(r.storage_binding(BINDING_INDIRECT), None);
    // Re-registration overwrites.
    assert!(r.register_storage_buffer(BINDING_MATERIALS, 9).is_ok());
    assert_eq!(r.storage_binding(BINDING_MATERIALS), Some(9));
}

#[test]
fn storage_buffer_registration_rejects_bad_binding() {
    let mut r = DescriptorRegistry::new();
    assert_eq!(
        r.register_storage_buffer(STORAGE_BINDING_COUNT, 5),
        Err(RegistryError::InvalidBinding)
    );
}
