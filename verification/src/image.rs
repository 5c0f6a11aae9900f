//! Images and the layout transition protocol.
//!
//! A texture is populated in three separately submitted, fence-waited
//! steps: transition from the undefined layout to the transfer destination
//! layout, copy the staging buffer into the image over its full extent,
//! transition from transfer destination to shader-read-only. The barrier
//! masks of a transition are a function of the `(old, new)` layout pair
//! alone; exactly two pairs are supported and every other pair fails fast.

use vstd::prelude::*;

verus! {

/// Access mask bit: transfer writes. Matches the Vulkan value.
pub const ACCESS_TRANSFER_WRITE: u32 = 0x1000;

/// Access mask bit: shader reads. Matches the Vulkan value.
pub const ACCESS_SHADER_READ: u32 = 0x20;

/// Pipeline stage bit: top of pipe. Matches the Vulkan value.
pub const STAGE_TOP_OF_PIPE: u32 = 0x1;

/// Pipeline stage bit: transfer. Matches the Vulkan value.
pub const STAGE_TRANSFER: u32 = 0x1000;

/// Pipeline stage bit: fragment shader. Matches the Vulkan value.
pub const STAGE_FRAGMENT_SHADER: u32 = 0x80;

/// Image format code for the 32-bit depth format. Matches the Vulkan value.
pub const DEPTH_FORMAT: u32 = 126;

/// Image format code for 8-bit sRGB RGBA. Matches the Vulkan value.
pub const RGBA8_SRGB_FORMAT: u32 = 43;

/// Aspect bit for colour images. Matches the Vulkan value.
pub const ASPECT_COLOR: u32 = 0x1;

/// Aspect bit for depth images. Matches the Vulkan value.
pub const ASPECT_DEPTH: u32 = 0x2;

/// The image layouts the upload protocol moves between.
#[derive(Clone, Copy, Debug, PartialEq, Eq, Structural)]
pub enum ImageLayout {
    /// Initial layout of a freshly created image.
    Undefined,
    /// Layout for receiving transfer writes.
    TransferDst,
    /// Layout for sampling from shaders.
    ShaderReadOnly,
}

/// Barrier parameters of a layout transition: source and destination
/// access masks and pipeline stages.
#[derive(Clone, Copy, Debug, PartialEq, Eq, Structural)]
pub struct BarrierMasks {
    /// Accesses that must complete before the transition.
    pub src_access: u32,
    /// Accesses that wait for the transition.
    pub dst_access: u32,
    /// Pipeline stage the transition waits on.
    pub src_stage: u32,
    /// Pipeline stage that waits for the transition.
    pub dst_stage: u32,
}

/// The error for a layout pair outside the two supported transitions.
#[derive(Clone, Copy, Debug, PartialEq, Eq, Structural)]
pub struct UnsupportedTransition {
    /// The layout the image was in.
    pub old_layout: ImageLayout,
    /// The layout that was requested.
    pub new_layout: ImageLayout,
}

/// The layout pair of the upload protocol's first transition.
pub open spec fn is_upload_transition(old_layout: ImageLayout, new_layout: ImageLayout) -> bool {
    old_layout is Undefined && new_layout is TransferDst
}

/// The layout pair of the upload protocol's final transition.
pub open spec fn is_sample_transition(old_layout: ImageLayout, new_layout: ImageLayout) -> bool {
    old_layout is TransferDst && new_layout is ShaderReadOnly
}

/// Barrier masks of the undefined-to-transfer-destination transition.
pub open spec fn upload_masks() -> BarrierMasks {
    BarrierMasks {
        src_access: 0,
        dst_access: ACCESS_TRANSFER_WRITE,
        src_stage: STAGE_TOP_OF_PIPE,
        dst_stage: STAGE_TRANSFER,
    }
}

/// Barrier masks of the transfer-destination-to-shader-read transition.
pub open spec fn sample_masks() -> BarrierMasks {
    BarrierMasks {
        src_access: ACCESS_TRANSFER_WRITE,
        dst_access: ACCESS_SHADER_READ,
        src_stage: STAGE_TRANSFER,
        dst_stage: STAGE_FRAGMENT_SHADER,
    }
}

/// Barrier masks for a layout transition, determined by the layout pair
/// alone. Exactly two pairs are supported; any other pair is out of the
/// protocol and fails.
pub fn transition_masks(old_layout: ImageLayout, new_layout: ImageLayout) -> (r: Result<
    BarrierMasks,
    UnsupportedTransition,
>)
    ensures
        is_upload_transition(old_layout, new_layout) ==> r == Ok::<_, UnsupportedTransition>(
            upload_masks(),
        ),
        is_sample_transition(old_layout, new_layout) ==> r == Ok::<_, UnsupportedTransition>(
            sample_masks(),
        ),
        !is_upload_transition(old_layout, new_layout) && !is_sample_transition(
            old_layout,
            new_layout,
        ) ==> r == Err::<BarrierMasks, _>(UnsupportedTransition { old_layout, new_layout }),
{
    match (old_layout, new_layout) {
        (ImageLayout::Undefined, ImageLayout::TransferDst) => Ok(
            BarrierMasks {
                src_access: 0,
                dst_access: ACCESS_TRANSFER_WRITE,
                src_stage: STAGE_TOP_OF_PIPE,
                dst_stage: STAGE_TRANSFER,
            },
        ),
        (ImageLayout::TransferDst, ImageLayout::ShaderReadOnly) => Ok(
            BarrierMasks {
                src_access: ACCESS_TRANSFER_WRITE,
                dst_access: ACCESS_SHADER_READ,
                src_stage: STAGE_TRANSFER,
                dst_stage: STAGE_FRAGMENT_SHADER,
            },
        ),
        _ => Err(UnsupportedTransition { old_layout, new_layout }),
    }
}

/// The aspect a view of an image must select, inferred from the format:
/// the depth format gets the depth aspect, every other format colour.
pub fn aspect_for_format(format: u32) -> (r: u32)
    ensures
        format == DEPTH_FORMAT ==> r == ASPECT_DEPTH,
        format != DEPTH_FORMAT ==> r == ASPECT_COLOR,
{
    if format == DEPTH_FORMAT {
        ASPECT_DEPTH
    } else {
        ASPECT_COLOR
    }
}

/// Width, height and depth of an image, in texels.
#[derive(Clone, Copy, Debug, PartialEq, Eq, Structural)]
pub struct Extent3d {
    /// Width in texels.
    pub width: u32,
    /// Height in texels.
    pub height: u32,
    /// Depth in texels; 1 for 2D images.
    pub depth: u32,
}

/// A device-local image: format, usage and extent, one mip level and one
/// array layer. The layout is not stored; the upload protocol serializes
/// transitions through [`TextureUpload`].
#[derive(Clone, Copy, Debug, PartialEq, Eq, Structural)]
pub struct GpuImage {
    /// Format code of the image.
    pub format: u32,
    /// Usage flags of the image.
    pub usage: u32,
    /// Full extent of the single mip level.
    pub extent: Extent3d,
}

/// Bytes one texel occupies in the staging buffer for an RGBA8 upload.
pub const RGBA8_BYTES_PER_TEXEL: u64 = 4;

/// Bytes a full-extent RGBA8 copy reads from the staging buffer.
pub open spec fn upload_byte_len(extent: Extent3d) -> int {
    extent.width * extent.height * extent.depth * RGBA8_BYTES_PER_TEXEL
}

/// Phases of the three-step texture upload protocol, in order.
#[derive(Clone, Copy, Debug, PartialEq, Eq, Structural)]
pub enum UploadPhase {
    /// Image created, layout undefined.
    Created,
    /// First transition recorded: image is a transfer destination.
    TransferReady,
    /// Staging bytes copied over the full extent.
    Copied,
    /// Final transition recorded: image is shader-readable.
    ShaderReady,
}

/// The upload protocol for one texture. Each step is a separately
/// submitted, fence-waited command sequence; the phase field forces the
/// steps into their one valid order.
pub struct TextureUpload {
    image: GpuImage,
    phase: UploadPhase,
}

impl TextureUpload {
    /// The image being populated.
    pub closed spec fn spec_image(&self) -> GpuImage {
        self.image
    }

    /// The protocol phase reached so far.
    pub closed spec fn spec_phase(&self) -> UploadPhase {
        self.phase
    }

    /// Start the protocol for a freshly created image.
    pub fn new(image: GpuImage) -> (u: TextureUpload)
        ensures
            u.spec_image() == image,
            u.spec_phase() is Created,
    {
        TextureUpload { image, phase: UploadPhase::Created }
    }

    /// First step: transition from undefined to transfer destination.
    /// Returns the barrier masks to record.
    pub fn begin_transfer(&mut self) -> (masks: BarrierMasks)
        requires
            old(self).spec_phase() is Created,
        ensures
            final(self).spec_image() == old(self).spec_image(),
            final(self).spec_phase() is TransferReady,
            masks == upload_masks(),
    {
        self.phase = UploadPhase::TransferReady;
        BarrierMasks {
            src_access: 0,
            dst_access: ACCESS_TRANSFER_WRITE,
            src_stage: STAGE_TOP_OF_PIPE,
            dst_stage: STAGE_TRANSFER,
        }
    }

    /// Second step: copy the staging buffer into the image over its full
    /// extent. Returns the copy extent; the staging buffer must hold at
    /// least the bytes the full-extent copy reads.
    pub fn record_copy(&mut self, staging_byte_len: u64) -> (extent: Extent3d)
        requires
            old(self).spec_phase() is TransferReady,
            staging_byte_len >= upload_byte_len(old(self).spec_image().extent),
        ensures
            final(self).spec_image() == old(self).spec_image(),
            final(self).spec_phase() is Copied,
            extent == old(self).spec_image().extent,
    {
        self.phase = UploadPhase::Copied;
        self.image.extent
    }

    /// Final step: transition from transfer destination to shader read.
    /// Returns the barrier masks to record.
    pub fn finish(&mut self) -> (masks: BarrierMasks)
        requires
            old(self).spec_phase() is Copied,
        ensures
            final(self).spec_image() == old(self).spec_image(),
            final(self).spec_phase() is ShaderReady,
            masks == sample_masks(),
    {
        self.phase = UploadPhase::ShaderReady;
        BarrierMasks {
            src_access: ACCESS_TRANSFER_WRITE,
            dst_access: ACCESS_SHADER_READ,
            src_stage: STAGE_TRANSFER,
            dst_stage: STAGE_FRAGMENT_SHADER,
        }
    }
}

} // verus!
