use gambier::image::{
    aspect_for_format, transition_masks, BarrierMasks, Extent3d, GpuImage, ImageLayout,
    TextureUpload, UnsupportedTransition, ACCESS_SHADER_READ, ACCESS_TRANSFER_WRITE, ASPECT_COLOR,
    ASPECT_DEPTH, DEPTH_FORMAT, RGBA8_SRGB_FORMAT, STAGE_FRAGMENT_SHADER, STAGE_TOP_OF_PIPE,
    STAGE_TRANSFER,
};

#[test]
fn undefined_to_transfer_dst_masks() {
    let masks = transition_masks(ImageLayout::Undefined, ImageLayout::TransferDst).unwrap();
    assert_eq!(
        masks,
        BarrierMasks {
            src_access: 0,
            dst_access: ACCESS_TRANSFER_WRITE,
            src_stage: STAGE_TOP_OF_PIPE,
            dst_stage: STAGE_TRANSFER,
        }
    );
}

#[test]
fn transfer_dst_to_shader_read_masks() {
    let masks = transition_masks(ImageLayout::TransferDst, ImageLayout::ShaderReadOnly).unwrap();
    assert_eq!(
        masks,
        BarrierMasks {
            src_access: ACCESS_TRANSFER_WRITE,
            dst_access: ACCESS_SHADER_READ,
            src_stage: STAGE_TRANSFER,
            dst_stage: STAGE_FRAGMENT_SHADER,
        }
    );
}

#[test]
fn any_other_transition_pair_fails_fast() {
    let r = transition_masks(ImageLayout::Undefined, ImageLayout::ShaderReadOnly);
    assert_eq!(
        r,
        Err(UnsupportedTransition {
            old_layout: ImageLayout::Undefined,
            new_layout: ImageLayout::ShaderReadOnly,
        })
    );
    assert!(transition_masks(ImageLayout::ShaderReadOnly, ImageLayout::TransferDst).is_err());
    assert!(transition_masks(ImageLayout::TransferDst, ImageLayout::Undefined).is_err());
    assert!(transition_masks(ImageLayout::Undefined, ImageLayout::Undefined).is_err());
}

#[test]
fn aspect_is_inferred_from_format() {
    assert_eq!(aspect_for_format(DEPTH_FORMAT), ASPECT_DEPTH);
    assert_eq!(aspect_for_format(RGBA8_SRGB_FORMAT), ASPECT_COLOR);
    assert_eq!(aspect_for_format(0), ASPECT_COLOR);
}

#[test]
fn texture_upload_walks_the_three_step_protocol() {
    let extent = Extent3d { width: 2, height: 2, depth: 1 };
    let image = GpuImage { format: RGBA8_SRGB_FORMAT, usage: 0, extent };
    let mut upload = TextureUpload::new(image);
    let first = upload.begin_transfer();
    assert_eq!(first.dst_access, ACCESS_TRANSFER_WRITE);
    // 2 x 2 x 1 texels, 4 bytes each: a 16-byte staging region suffices.
    let copy_extent = upload.record_copy(16);
    assert_eq!(copy_extent, extent);
    let last = upload.finish();
    assert_eq!(last.src_access, ACCESS_TRANSFER_WRITE);
    assert_eq!(last.dst_access, ACCESS_SHADER_READ);
}
