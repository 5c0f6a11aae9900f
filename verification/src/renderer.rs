//! The renderer's per-frame orchestration state.
//!
//! The renderer owns the frame ring, the descriptor registry, and the GPU
//! buffers the scene is uploaded into, each with a capacity fixed at
//! construction. Import fills the vertex, index and material buffers once;
//! every displayed frame rebuilds the draw streams whole, uploads them,
//! and dispatches culling with one workgroup per command before the
//! graphics submission draws the indirect stream.

use vstd::prelude::*;

use crate::buffer::{Buffer, USAGE_INDEX, USAGE_INDIRECT, USAGE_STORAGE, USAGE_VERTEX};
use crate::cull::DispatchDimensions;
use crate::descriptor::{DescriptorRegistry, MAX_TEXTURES, STORAGE_BINDING_COUNT};
use crate::draw::{DrawCommand, DrawMetadata, DrawBuildError};
use crate::draw::{build_draws, scene_commands, scene_metadata, scene_prims, scene_resolves};
use crate::frame::{FrameRing, FRAMES_IN_FLIGHT};
use crate::model::{Material, Mesh, Model, ModelData, Vertex};

verus! {

/// The graphics pipeline drawing the scene.
#[derive(Clone, Copy, Debug, PartialEq, Eq, Structural)]
pub enum SelectedPipeline {
    /// The colored forward pipeline.
    Colored,
}

impl Default for SelectedPipeline {
    /// The colored pipeline is the default.
    fn default() -> (s: SelectedPipeline)
        ensures
            s is Colored,
    {
        SelectedPipeline::Colored
    }
}

/// Element capacities of the renderer's buffers, fixed at construction.
/// The importer and the per-frame rebuild must stay within them.
#[derive(Clone, Copy, Debug, PartialEq, Eq, Structural)]
pub struct RendererCapacities {
    /// Vertex buffer capacity, in vertices.
    pub vertices: usize,
    /// Index buffer capacity, in indices.
    pub indices: usize,
    /// Material buffer capacity, in material records.
    pub materials: usize,
    /// Transform buffer capacity, in per-object records.
    pub objects: usize,
    /// Capacity of the indirect-command and draw-metadata buffers, in
    /// draws.
    pub draws: usize,
}

/// Why a scene upload was rejected. Rejection changes nothing: every
/// bound is checked before any buffer is written.
#[derive(Clone, Copy, Debug, PartialEq, Eq, Structural)]
pub enum UploadError {
    /// More vertices than the vertex buffer's capacity.
    VertexCapacity,
    /// More indices than the index buffer's capacity.
    IndexCapacity,
    /// More materials than the material buffer's capacity.
    MaterialCapacity,
    /// More textures than the descriptor array's capacity.
    TextureCapacity,
}

/// Why a frame rebuild was rejected. Rejection changes nothing: every
/// bound is checked before any buffer is written.
#[derive(Clone, Copy, Debug, PartialEq, Eq, Structural)]
pub enum PrepareError {
    /// More models than a metadata record's model id can number.
    TooManyModels,
    /// A model's mesh id does not resolve in the given arena.
    UnresolvedMesh,
    /// More draws than an indirect draw call's count can carry.
    TooManyDraws,
    /// More draws than the indirect-command buffer's capacity.
    CommandCapacity,
    /// More draws than the draw-metadata buffer's capacity.
    MetadataCapacity,
}

/// What a prepared frame hands the recording of GPU work: how many draws
/// stand in the indirect buffer and the culling dispatch that covers
/// them, one workgroup per draw.
#[derive(Clone, Copy, Debug, PartialEq, Eq, Structural)]
pub struct FramePlan {
    /// Number of commands the indirect draw call issues.
    pub command_count: u32,
    /// Workgroup counts of the culling dispatch.
    pub dispatch: DispatchDimensions,
}

/// The renderer: frame ring, descriptor registry, and the scene's GPU
/// buffers.
pub struct Renderer {
    /// The ring bounding frames in flight.
    pub ring: FrameRing,
    /// The single bindless descriptor set.
    pub registry: DescriptorRegistry,
    /// The shared vertex buffer.
    pub vertex_buffer: Buffer<Vertex>,
    /// The shared index buffer.
    pub index_buffer: Buffer<u32>,
    /// The material storage buffer.
    pub material_buffer: Buffer<Material>,
    /// The per-object transform-and-bounds storage buffer, rebuilt every
    /// frame.
    pub transform_buffer: Buffer<ModelData>,
    /// The draw-metadata storage buffer, rebuilt every frame.
    pub metadata_buffer: Buffer<DrawMetadata>,
    /// The indirect-command buffer the culling pass rewrites and the
    /// indirect draw consumes, rebuilt every frame.
    pub indirect_buffer: Buffer<DrawCommand>,
}

impl Renderer {
    /// Every component well-formed and every buffer host-visible.
    pub open spec fn wf(&self) -> bool {
        &&& self.ring.wf()
        &&& self.registry.wf()
        &&& self.vertex_buffer.wf() && self.vertex_buffer.spec_host_visible()
        &&& self.index_buffer.wf() && self.index_buffer.spec_host_visible()
        &&& self.material_buffer.wf() && self.material_buffer.spec_host_visible()
        &&& self.transform_buffer.wf() && self.transform_buffer.spec_host_visible()
        &&& self.metadata_buffer.wf() && self.metadata_buffer.spec_host_visible()
        &&& self.indirect_buffer.wf() && self.indirect_buffer.spec_host_visible()
    }

    /// The buffer capacities as fixed at construction.
    pub open spec fn spec_capacities(&self) -> RendererCapacities {
        RendererCapacities {
            vertices: self.vertex_buffer.spec_capacity(),
            indices: self.index_buffer.spec_capacity(),
            materials: self.material_buffer.spec_capacity(),
            objects: self.transform_buffer.spec_capacity(),
            draws: self.indirect_buffer.spec_capacity(),
        }
    }

    /// Build a renderer with the given fixed buffer capacities: a fresh
    /// frame ring on slot 0, an empty registry, and empty host-visible
    /// buffers. The indirect-command and draw-metadata buffers share the
    /// draw capacity, keeping the two streams rebuildable in step.
    pub fn new(caps: RendererCapacities) -> (r: Renderer)
        ensures
            r.wf(),
            r.spec_capacities() == caps,
            r.metadata_buffer.spec_capacity() == caps.draws,
            r.ring.spec_frame_index() == 0,
            forall|i: int| 0 <= i < FRAMES_IN_FLIGHT ==> r.ring@[i].phase is Idle,
            forall|b: int| 0 <= b < STORAGE_BINDING_COUNT ==> r.registry.spec_storage()[b] is None,
            r.registry.spec_texture_count() == 0,
            r.vertex_buffer@.len() == 0,
            r.index_buffer@.len() == 0,
            r.material_buffer@.len() == 0,
            r.transform_buffer@.len() == 0,
            r.metadata_buffer@.len() == 0,
            r.indirect_buffer@.len() == 0,
    {
        Renderer {
            ring: FrameRing::new(),
            registry: DescriptorRegistry::new(),
            vertex_buffer: Buffer::new(caps.vertices, USAGE_VERTEX, true),
            index_buffer: Buffer::new(caps.indices, USAGE_INDEX, true),
            material_buffer: Buffer::new(caps.materials, USAGE_STORAGE, true),
            transform_buffer: Buffer::new(caps.objects, USAGE_STORAGE, true),
            metadata_buffer: Buffer::new(caps.draws, USAGE_STORAGE, true),
            indirect_buffer: Buffer::new(caps.draws, USAGE_STORAGE | USAGE_INDIRECT, true),
        }
    }

    /// Upload an imported scene: vertices, indices and materials into
    /// their buffers whole, and the decoded textures into the descriptor
    /// array. Every bound is checked before anything is written, so a
    /// rejected upload leaves the renderer exactly as it was.
    pub fn upload_scene(
        &mut self,
        vertices: &Vec<Vertex>,
        indices: &Vec<u32>,
        materials: &Vec<Material>,
        texture_ids: &Vec<u64>,
    ) -> (r: Result<(), UploadError>)
        requires
            old(self).wf(),
        ensures
            final(self).wf(),
            final(self).spec_capacities() == old(self).spec_capacities(),
            r is Ok <==> vertices@.len() <= old(self).vertex_buffer.spec_capacity() && indices@.len()
                <= old(self).index_buffer.spec_capacity() && materials@.len() <= old(
                self,
            ).material_buffer.spec_capacity() && texture_ids@.len() <= MAX_TEXTURES,
            r is Ok ==> {
                &&& final(self).vertex_buffer@ == vertices@
                &&& final(self).index_buffer@ == indices@
                &&& final(self).material_buffer@ == materials@
                &&& final(self).registry.spec_textures() == texture_ids@
                &&& final(self).registry.spec_storage() == old(self).registry.spec_storage()
                &&& final(self).ring == old(self).ring
                &&& final(self).transform_buffer == old(self).transform_buffer
                &&& final(self).metadata_buffer == old(self).metadata_buffer
                &&& final(self).indirect_buffer == old(self).indirect_buffer
            },
            r is Err ==> *final(self) == *old(self),
            r == Err::<(), UploadError>(UploadError::VertexCapacity) <==> vertices@.len() > old(
                self,
            ).vertex_buffer.spec_capacity(),
            r == Err::<(), UploadError>(UploadError::IndexCapacity) <==> vertices@.len() <= old(
                self,
            ).vertex_buffer.spec_capacity() && indices@.len() > old(
                self,
            ).index_buffer.spec_capacity(),
            r == Err::<(), UploadError>(UploadError::MaterialCapacity) <==> vertices@.len() <= old(
                self,
            ).vertex_buffer.spec_capacity() && indices@.len() <= old(
                self,
            ).index_buffer.spec_capacity() && materials@.len() > old(
                self,
            ).material_buffer.spec_capacity(),
            r == Err::<(), UploadError>(UploadError::TextureCapacity) <==> vertices@.len() <= old(
                self,
            ).vertex_buffer.spec_capacity() && indices@.len() <= old(
                self,
            ).index_buffer.spec_capacity() && materials@.len() <= old(
                self,
            ).material_buffer.spec_capacity() && texture_ids@.len() > MAX_TEXTURES,
    {
        if vertices.len() > self.vertex_buffer.capacity() {
            return Err(UploadError::VertexCapacity);
        }
        if indices.len() > self.index_buffer.capacity() {
            return Err(UploadError::IndexCapacity);
        }
        if materials.len() > self.material_buffer.capacity() {
            return Err(UploadError::MaterialCapacity);
        }
        if texture_ids.len() > MAX_TEXTURES {
            return Err(UploadError::TextureCapacity);
        }
        let _ = self.vertex_buffer.overwrite(vertices);
        let _ = self.index_buffer.overwrite(indices);
        let _ = self.material_buffer.overwrite(materials);
        let _ = self.registry.register_textures(texture_ids);
        Ok(())
    }

    /// Upload the per-frame transform-and-bounds records whole, bounded
    /// by the transform buffer's capacity.
    pub fn upload_transforms(&mut self, records: &Vec<ModelData>) -> (r: Result<
        (),
        crate::buffer::CapacityError,
    >)
        requires
            old(self).wf(),
        ensures
            final(self).wf(),
            final(self).spec_capacities() == old(self).spec_capacities(),
            r is Ok <==> records@.len() <= old(self).transform_buffer.spec_capacity(),
            r is Ok ==> final(self).transform_buffer@ == records@,
            r is Err ==> *final(self) == *old(self),
            final(self).ring == old(self).ring,
            final(self).registry == old(self).registry,
            final(self).vertex_buffer == old(self).vertex_buffer,
            final(self).index_buffer == old(self).index_buffer,
            final(self).material_buffer == old(self).material_buffer,
            final(self).metadata_buffer == old(self).metadata_buffer,
            final(self).indirect_buffer == old(self).indirect_buffer,
    {
        self.transform_buffer.overwrite(records)
    }

    /// Rebuild and upload the frame's draw streams, whole: one command
    /// and one metadata record per primitive, index-aligned, into the
    /// indirect-command and draw-metadata buffers. Succeeds exactly when
    /// the scene resolves and fits; every bound is checked before either
    /// buffer is written, so a rejected frame leaves the renderer as it
    /// was. The returned plan carries the draw count and the culling
    /// dispatch, one workgroup per command.
    pub fn prepare_frame(&mut self, models: &Vec<Model>, meshes: &id_arena::Arena<Mesh>) -> (r:
        Result<FramePlan, PrepareError>)
        requires
            old(self).wf(),
        ensures
            final(self).wf(),
            final(self).spec_capacities() == old(self).spec_capacities(),
            r is Ok <==> models@.len() <= u32::MAX && scene_resolves(models@, *meshes)
                && scene_prims(models@, *meshes).len() <= u32::MAX && scene_prims(
                models@,
                *meshes,
            ).len() <= old(self).indirect_buffer.spec_capacity() && scene_prims(
                models@,
                *meshes,
            ).len() <= old(self).metadata_buffer.spec_capacity(),
            r matches Ok(plan) ==> {
                &&& final(self).indirect_buffer@ == scene_commands(models@, *meshes)
                &&& final(self).metadata_buffer@ == scene_metadata(models@, *meshes)
                &&& plan.command_count == scene_prims(models@, *meshes).len()
                &&& plan.dispatch == (DispatchDimensions {
                    x: plan.command_count,
                    y: 1,
                    z: 1,
                })
                &&& final(self).ring == old(self).ring
                &&& final(self).registry == old(self).registry
                &&& final(self).vertex_buffer == old(self).vertex_buffer
                &&& final(self).index_buffer == old(self).index_buffer
                &&& final(self).material_buffer == old(self).material_buffer
                &&& final(self).transform_buffer == old(self).transform_buffer
            },
            r is Err ==> *final(self) == *old(self),
            r == Err::<FramePlan, _>(PrepareError::TooManyModels) <==> models@.len() > u32::MAX,
            r == Err::<FramePlan, _>(PrepareError::UnresolvedMesh) <==> models@.len() <= u32::MAX
                && !scene_resolves(models@, *meshes),
            r == Err::<FramePlan, _>(PrepareError::TooManyDraws) <==> models@.len() <= u32::MAX
                && scene_resolves(models@, *meshes) && scene_prims(models@, *meshes).len()
                > u32::MAX,
            r == Err::<FramePlan, _>(PrepareError::CommandCapacity) <==> models@.len() <= u32::MAX
                && scene_resolves(models@, *meshes) && scene_prims(models@, *meshes).len()
                <= u32::MAX && scene_prims(models@, *meshes).len() > old(
                self,
            ).indirect_buffer.spec_capacity(),
            r == Err::<FramePlan, _>(PrepareError::MetadataCapacity) <==> models@.len() <= u32::MAX
                && scene_resolves(models@, *meshes) && scene_prims(models@, *meshes).len()
                <= u32::MAX && scene_prims(models@, *meshes).len() <= old(
                self,
            ).indirect_buffer.spec_capacity() && scene_prims(models@, *meshes).len() > old(
                self,
            ).metadata_buffer.spec_capacity(),
    {
        let built = match build_draws(models, meshes) {
            Ok(streams) => streams,
            Err(DrawBuildError::TooManyModels) => {
                return Err(PrepareError::TooManyModels);
            },
            Err(DrawBuildError::UnresolvedMesh) => {
                return Err(PrepareError::UnresolvedMesh);
            },
        };
        let (cmds, metas) = built;
        if cmds.len() > u32::MAX as usize {
            return Err(PrepareError::TooManyDraws);
        }
        if cmds.len() > self.indirect_buffer.capacity() {
            return Err(PrepareError::CommandCapacity);
        }
        if metas.len() > self.metadata_buffer.capacity() {
            return Err(PrepareError::MetadataCapacity);
        }
        let count = cmds.len() as u32;
        let _ = self.indirect_buffer.overwrite(&cmds);
        let _ = self.metadata_buffer.overwrite(&metas);
        Ok(FramePlan { command_count: count, dispatch: DispatchDimensions { x: count, y: 1, z: 1 } })
    }
}

} // verus!
