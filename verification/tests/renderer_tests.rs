use gambier::buffer::CapacityError;
use gambier::cull::DispatchDimensions;
use gambier::model::{
    alloc_mesh, new_mesh_arena, Material, Mesh, Model, ModelContext, ModelData, Primitive, Vertex,
};
use gambier::renderer::{
    PrepareError, Renderer, RendererCapacities, SelectedPipeline, UploadError,
};

fn caps() -> RendererCapacities {
    RendererCapacities { vertices: 8, indices: 16, materials: 4, objects: 4, draws: 4 }
}

fn vertex(n: u32) -> Vertex {
    Vertex {
        position_x: n,
        position_y: n,
        position_z: n,
        normal_x: 0,
        normal_y: 0,
        normal_z: 0,
        uv_u: 0,
        uv_v: 0,
    }
}

#[test]
fn upload_scene_fills_buffers_and_texture_slots() {
    let mut r = Renderer::new(caps());
    let vertices = vec![vertex(1), vertex(2), vertex(3)];
    let indices = vec![0u32, 1, 2];
    let materials = vec![Material::default()];
    let textures = vec![42u64];
    assert!(r.upload_scene(&vertices, &indices, &materials, &textures).is_ok());
    assert_eq!(r.vertex_buffer.len(), 3);
    assert_eq!(r.index_buffer.len(), 3);
    assert_eq!(r.index_buffer.get(2), 2);
    assert_eq!(r.material_buffer.len(), 1);
    assert_eq!(r.registry.texture_count(), 1);
    assert_eq!(r.registry.texture_slot(0), Some(42));
}

#[test]
fn upload_scene_rejects_each_capacity_violation_atomically() {
    let mut r = Renderer::new(caps());
    let ok_vertices = vec![vertex(0)];
    let ok_indices = vec![0u32];
    let ok_materials = vec![Material::default()];
    let big_vertices: Vec<Vertex> = (0..9).map(vertex).collect();
    let big_indices: Vec<u32> = (0..17).collect();
    let big_materials: Vec<Material> = (0..5).map(|_| Material::default()).collect();

    assert_eq!(
        r.upload_scene(&big_vertices, &big_indices, &ok_materials, &Vec::new()),
        Err(UploadError::VertexCapacity)
    );
    assert_eq!(
        r.upload_scene(&ok_vertices, &big_indices, &ok_materials, &Vec::new()),
        Err(UploadError::IndexCapacity)
    );
    assert_eq!(
        r.upload_scene(&ok_vertices, &ok_indices, &big_materials, &Vec::new()),
        Err(UploadError::MaterialCapacity)
    );
    // Nothing was written by any rejected upload.
    assert_eq!(r.vertex_buffer.len(), 0);
    assert_eq!(r.index_buffer.len(), 0);
    assert_eq!(r.material_buffer.len(), 0);
    assert_eq!(r.registry.texture_count(), 0);
}

#[test]
fn upload_scene_rejects_too_many_textures_atomically() {
    let mut r = Renderer::new(caps());
    let textures: Vec<u64> = (0..(gambier::descriptor::MAX_TEXTURES as u64 + 1)).collect();
    assert_eq!(
        r.upload_scene(&vec![vertex(0)], &vec![0u32], &vec![Material::default()], &textures),
        Err(UploadError::TextureCapacity)
    );
    assert_eq!(r.vertex_buffer.len(), 0);
    assert_eq!(r.registry.texture_count(), 0);
}

#[test]
fn upload_transforms_is_bounded_by_object_capacity() {
    let mut r = Renderer::new(caps());
    let record = ModelData { transform: [0; 16], sphere_centre: [0; 3], sphere_radius: 0 };
    assert!(r.upload_transforms(&vec![record; 4]).is_ok());
    assert_eq!(r.transform_buffer.len(), 4);
    assert_eq!(
        r.upload_transforms(&vec![record; 5]),
        Err(CapacityError { requested: 5, capacity: 4 })
    );
    assert_eq!(r.transform_buffer.len(), 4);
}

#[test]
fn prepare_frame_uploads_aligned_streams_and_plans_dispatch() {
    let mut r = Renderer::new(caps());
    let mut arena = new_mesh_arena();
    let p0 = Primitive { index_offset: 0, vertex_offset: 0, num_indices: 3, material_id: 1 };
    let p1 = Primitive { index_offset: 3, vertex_offset: 3, num_indices: 6, material_id: 0 };
    let id = alloc_mesh(
        &mut arena,
        Mesh { primitives: vec![p0, p1], name: "pair".to_owned() },
    )
    .unwrap();
    let scene = ModelContext {
        models: vec![Model::new("a".to_owned(), id), Model::new("b".to_owned(), id)],
        materials: vec![Material::default(), Material::default()],
        meshes: arena,
    };
    let plan = r.prepare_frame(&scene.models, &scene.meshes).unwrap();
    assert_eq!(plan.command_count, 4);
    assert_eq!(plan.dispatch, DispatchDimensions { x: 4, y: 1, z: 1 });
    assert_eq!(r.indirect_buffer.len(), 4);
    assert_eq!(r.metadata_buffer.len(), 4);
    // Index-aligned: position 2 of both streams is model 1's first
    // primitive.
    assert_eq!(r.indirect_buffer.get(2).first_index, 0);
    assert_eq!(r.indirect_buffer.get(2).index_count, 3);
    assert_eq!(r.metadata_buffer.get(2).model_id, 1);
    assert_eq!(r.metadata_buffer.get(2).material_id, 1);
}

#[test]
fn prepare_frame_rejects_overfull_command_stream_atomically() {
    let mut r = Renderer::new(caps());
    let mut arena = new_mesh_arena();
    let prim = Primitive { index_offset: 0, vertex_offset: 0, num_indices: 3, material_id: 0 };
    let id = alloc_mesh(
        &mut arena,
        Mesh { primitives: vec![prim; 5], name: "five".to_owned() },
    )
    .unwrap();
    let models = vec![Model::new("too big".to_owned(), id)];
    // 5 draws against a draw capacity of 4.
    assert_eq!(r.prepare_frame(&models, &arena), Err(PrepareError::CommandCapacity));
    assert_eq!(r.indirect_buffer.len(), 0);
    assert_eq!(r.metadata_buffer.len(), 0);
}

#[test]
fn prepare_frame_rejects_foreign_mesh_id() {
    let mut r = Renderer::new(caps());
    let mut foreign = new_mesh_arena();
    let prim = Primitive { index_offset: 0, vertex_offset: 0, num_indices: 3, material_id: 0 };
    let id = alloc_mesh(
        &mut foreign,
        Mesh { primitives: vec![prim], name: "elsewhere".to_owned() },
    )
    .unwrap();
    let arena = new_mesh_arena();
    let models = vec![Model::new("lost".to_owned(), id)];
    assert_eq!(r.prepare_frame(&models, &arena), Err(PrepareError::UnresolvedMesh));
}

#[test]
fn default_pipeline_is_colored() {
    assert_eq!(SelectedPipeline::default(), SelectedPipeline::Colored);
}
