//! Building the indirect draw stream from the scene.
//!
//! A rebuild walks the scene's models in order and, for every primitive of
//! each model's mesh, appends one indexed-indirect draw command and one
//! draw-metadata record. The two arrays are rebuilt whole every frame and
//! are index-aligned: position `i` of both describes the same primitive of
//! the same model, the command carrying the primitive's geometry offsets
//! and the metadata carrying the model and material ids the culling and
//! shading passes look up.

use vstd::prelude::*;

use crate::model::{Mesh, Model, Primitive};
use crate::model::{mesh_arena_items, mesh_for_id, mesh_id_resolves};
use crate::model::get_mesh;

verus! {

/// One indexed-indirect draw command, laid out as the indirect draw
/// consumes it. Commands are built with one instance; the culling pass
/// zeroes the instance count of culled commands in place.
#[derive(Clone, Copy, Debug, PartialEq, Eq, Structural)]
pub struct DrawCommand {
    /// Number of indices to draw.
    pub index_count: u32,
    /// Number of instances; 1 when built, 0 once culled.
    pub instance_count: u32,
    /// First index in the shared index buffer.
    pub first_index: u32,
    /// Vertex offset added to each index.
    pub base_vertex: u32,
    /// First instance id.
    pub first_instance: u32,
}

/// Per-draw metadata, index-aligned with the command stream; the culling
/// compute pass and the fragment-stage material lookup consume it.
#[derive(Clone, Copy, Debug, PartialEq, Eq, Structural)]
pub struct DrawMetadata {
    /// Position of the drawing model in the scene's model list.
    pub model_id: u32,
    /// Material of the drawn primitive.
    pub material_id: u32,
}

/// The draw command a primitive turns into: its geometry offsets, one
/// instance, instance id 0.
pub open spec fn cmd_of_primitive(p: Primitive) -> DrawCommand {
    DrawCommand {
        index_count: p.num_indices,
        instance_count: 1,
        first_index: p.index_offset,
        base_vertex: p.vertex_offset,
        first_instance: 0,
    }
}

/// The metadata record a primitive of model `model_id` turns into.
pub open spec fn meta_of_primitive(model_id: int, p: Primitive) -> DrawMetadata {
    DrawMetadata { model_id: model_id as u32, material_id: p.material_id as u32 }
}

/// The (model index, primitive) pairs one model contributes, in the order
/// of its mesh's primitives.
pub open spec fn prims_of_model(model_id: int, mesh: Mesh) -> Seq<(int, Primitive)> {
    Seq::new(mesh.primitives@.len(), |i: int| (model_id, mesh.primitives@[i]))
}

/// Every model's mesh id resolves in the arena.
pub open spec fn scene_resolves(models: Seq<Model>, meshes: id_arena::Arena<Mesh>) -> bool {
    forall|i: int| 0 <= i < models.len() ==> mesh_id_resolves(meshes, models[i].mesh)
}

/// The scene's (model index, primitive) pairs, flattened in draw order:
/// models in list order, each model's primitives in mesh order.
pub open spec fn scene_prims(models: Seq<Model>, meshes: id_arena::Arena<Mesh>) -> Seq<
    (int, Primitive),
>
    decreases models.len(),
{
    if models.len() == 0 {
        Seq::empty()
    } else {
        scene_prims(models.drop_last(), meshes) + prims_of_model(
            models.len() - 1,
            mesh_for_id(meshes, models.last().mesh),
        )
    }
}

/// The command stream a rebuild of the scene produces.
pub open spec fn scene_commands(models: Seq<Model>, meshes: id_arena::Arena<Mesh>) -> Seq<
    DrawCommand,
> {
    Seq::new(scene_prims(models, meshes).len(), |i: int| cmd_of_primitive(scene_prims(models, meshes)[i].1))
}

/// The metadata stream a rebuild of the scene produces.
pub open spec fn scene_metadata(models: Seq<Model>, meshes: id_arena::Arena<Mesh>) -> Seq<
    DrawMetadata,
> {
    Seq::new(
        scene_prims(models, meshes).len(),
        |i: int| meta_of_primitive(scene_prims(models, meshes)[i].0, scene_prims(models, meshes)[i].1),
    )
}

/// Why a rebuild failed; nothing was produced.
#[derive(Clone, Copy, Debug, PartialEq, Eq, Structural)]
pub enum DrawBuildError {
    /// A model's mesh id does not resolve in the given arena.
    UnresolvedMesh,
    /// More models than a metadata record's model id can number.
    TooManyModels,
}

/// Extending the scene by one model appends exactly that model's
/// primitive pairs to the flattened stream.
proof fn lemma_scene_prims_step(models: Seq<Model>, meshes: id_arena::Arena<Mesh>, m: int)
    requires
        0 <= m < models.len(),
    ensures
        scene_prims(models.take(m + 1), meshes) == scene_prims(models.take(m), meshes)
            + prims_of_model(m, mesh_for_id(meshes, models[m].mesh)),
{
    assert(models.take(m + 1).drop_last() =~= models.take(m));
    assert(models.take(m + 1).last() == models[m]);
}

/// Rebuild the draw streams for the scene: one command and one metadata
/// record per primitive, index-aligned, models in list order and each
/// model's primitives in mesh order. Succeeds exactly when every model's
/// mesh id resolves in the arena and the model count fits a metadata
/// record's model id.
pub fn build_draws(models: &Vec<Model>, meshes: &id_arena::Arena<Mesh>) -> (r: Result<
    (Vec<DrawCommand>, Vec<DrawMetadata>),
    DrawBuildError,
>)
    ensures
        r is Ok <==> models@.len() <= u32::MAX && scene_resolves(models@, *meshes),
        r matches Ok(out) ==> out.0@ == scene_commands(models@, *meshes) && out.1@
            == scene_metadata(models@, *meshes),
        r == Err::<(Vec<DrawCommand>, Vec<DrawMetadata>), _>(DrawBuildError::TooManyModels)
            <==> models@.len() > u32::MAX,
        r == Err::<(Vec<DrawCommand>, Vec<DrawMetadata>), _>(DrawBuildError::UnresolvedMesh)
            <==> models@.len() <= u32::MAX && !scene_resolves(models@, *meshes),
{
    if models.len() > u32::MAX as usize {
        return Err(DrawBuildError::TooManyModels);
    }
    let mut cmds: Vec<DrawCommand> = Vec::new();
    let mut metas: Vec<DrawMetadata> = Vec::new();
    let n = models.len();
    let mut m: usize = 0;
    while m < n
        invariant
            n == models@.len(),
            n <= u32::MAX,
            m <= n,
            scene_resolves(models@.take(m as int), *meshes),
            cmds@.len() == scene_prims(models@.take(m as int), *meshes).len(),
            metas@.len() == cmds@.len(),
            forall|i: int|
                0 <= i < cmds@.len() ==> cmds@[i] == cmd_of_primitive(
                    scene_prims(models@.take(m as int), *meshes)[i].1,
                ),
            forall|i: int|
                0 <= i < metas@.len() ==> metas@[i] == meta_of_primitive(
                    scene_prims(models@.take(m as int), *meshes)[i].0,
                    scene_prims(models@.take(m as int), *meshes)[i].1,
                ),
        decreases n - m,
    {
        let ghost prior = scene_prims(models@.take(m as int), *meshes);
        match get_mesh(meshes, models[m].mesh) {
            None => {
                proof {
                    assert(models@[m as int] == models@.take(m as int + 1)[m as int]);
                    assert(!mesh_id_resolves(*meshes, models@[m as int].mesh));
                }
                return Err(DrawBuildError::UnresolvedMesh);
            },
            Some(mesh) => {
                proof {
                    assert(models@.take(m + 1).drop_last() =~= models@.take(m as int));
                    assert(forall|i: int|
                        0 <= i < m + 1 ==> mesh_id_resolves(
                            *meshes,
                            #[trigger] models@.take(m + 1)[i].mesh,
                        ));
                    lemma_scene_prims_step(models@, *meshes, m as int);
                    assert(models@.take(m + 1) =~= models@.take(m as int).push(models@[m as int]));
                    assert(scene_prims(models@.take(m + 1), *meshes) == prior + prims_of_model(
                        m as int,
                        mesh_for_id(*meshes, models@[m as int].mesh),
                    ));
                }
                let k = mesh.primitives.len();
                let mut j: usize = 0;
                while j < k
                    invariant
                        n == models@.len(),
                        n <= u32::MAX,
                        m < n,
                        k == mesh.primitives@.len(),
                        j <= k,
                        *mesh == mesh_for_id(*meshes, models@[m as int].mesh),
                        prior == scene_prims(models@.take(m as int), *meshes),
                        cmds@.len() == prior.len() + j,
                        metas@.len() == cmds@.len(),
                        forall|i: int|
                            0 <= i < prior.len() ==> cmds@[i] == cmd_of_primitive(prior[i].1),
                        forall|i: int|
                            0 <= i < prior.len() ==> metas@[i] == meta_of_primitive(
                                prior[i].0,
                                prior[i].1,
                            ),
                        forall|i: int|
                            prior.len() <= i < cmds@.len() ==> cmds@[i] == cmd_of_primitive(
                                mesh.primitives@[i - prior.len()],
                            ),
                        forall|i: int|
                            prior.len() <= i < metas@.len() ==> metas@[i] == meta_of_primitive(
                                m as int,
                                mesh.primitives@[i - prior.len()],
                            ),
                    decreases k - j,
                {
                    let p = mesh.primitives[j];
                    cmds.push(
                        DrawCommand {
                            index_count: p.num_indices,
                            instance_count: 1,
                            first_index: p.index_offset,
                            base_vertex: p.vertex_offset,
                            first_instance: 0,
                        },
                    );
                    metas.push(
                        DrawMetadata {
                            model_id: m as u32,
                            material_id: p.material_id as u32,
                        },
                    );
                    j = j + 1;
                }
                proof {
                    let stepped = scene_prims(models@.take(m + 1), *meshes);
                    assert(stepped.len() == prior.len() + k);
                    assert(forall|i: int|
                        0 <= i < prior.len() ==> stepped[i] == prior[i]);
                    assert(forall|i: int|
                        prior.len() <= i < stepped.len() ==> stepped[i] == (
                        m as int,
                        mesh.primitives@[i - prior.len()],
                        ));
                }
            },
        }
        m = m + 1;
    }
    proof {
        assert(models@.take(n as int) =~= models@);
        assert(cmds@ =~= scene_commands(models@, *meshes));
        assert(metas@ =~= scene_metadata(models@, *meshes));
    }
    Ok((cmds, metas))
}

/// After any rebuild the command and metadata streams are equal in length
/// and element `i` of each describes the same primitive of the same
/// model, for every scene, the empty one included.
pub proof fn lemma_draws_index_aligned(models: Seq<Model>, meshes: id_arena::Arena<Mesh>)
    ensures
        scene_commands(models, meshes).len() == scene_metadata(models, meshes).len(),
        forall|i: int|
            0 <= i < scene_commands(models, meshes).len() ==> scene_commands(models, meshes)[i]
                == cmd_of_primitive(scene_prims(models, meshes)[i].1) && scene_metadata(
                models,
                meshes,
            )[i] == meta_of_primitive(
                scene_prims(models, meshes)[i].0,
                scene_prims(models, meshes)[i].1,
            ),
{
}

} // verus!
