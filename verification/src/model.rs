//! The scene model: models, meshes, primitives and materials.
//!
//! Meshes and materials are referenced by opaque ids rather than pointers,
//! which avoids ownership cycles between models and meshes. The mesh arena
//! is the `id_arena` crate's; its behaviour enters the proofs only through
//! the contracts of the trusted wrappers below, which state what the
//! crate's source shows: allocation appends and hands back an id carrying
//! the item's index and the arena's tag, lookup returns the indexed item
//! exactly when the id's tag and index fit the arena.

use vstd::prelude::*;

verus! {

/// One mesh primitive: where its geometry lies in the shared index and
/// vertex buffers, and which material shades it.
#[derive(Clone, Copy, Debug, PartialEq, Eq, Structural)]
pub struct Primitive {
    /// First index of the primitive in the shared index buffer.
    pub index_offset: u32,
    /// First vertex of the primitive in the shared vertex buffer.
    pub vertex_offset: u32,
    /// Number of indices the primitive draws.
    pub num_indices: u32,
    /// Material the primitive is shaded with.
    pub material_id: u16,
}

/// A mesh: the primitives it draws, under a display name.
#[derive(Clone, Debug)]
pub struct Mesh {
    /// The mesh's primitives, in draw order.
    pub primitives: Vec<Primitive>,
    /// Display name of the mesh.
    pub name: String,
}

/// One object instance in the scene: a name and the mesh it draws.
#[derive(Clone, Debug)]
pub struct Model {
    /// Display name of the instance.
    pub name: String,
    /// The mesh the instance draws, as an id into the mesh arena.
    pub mesh: id_arena::Id<Mesh>,
}

impl Model {
    /// Pack a name and a mesh id into a model instance.
    pub fn new(name: String, mesh: id_arena::Id<Mesh>) -> (m: Model)
        ensures
            m.name == name,
            m.mesh == mesh,
    {
        Model { name, mesh }
    }
}

/// Bit pattern of the 32-bit float 1.0, the default colour factor channel.
pub const FLOAT_ONE_BITS: u32 = 0x3F80_0000;

/// Material id value meaning "no texture".
pub const NO_TEXTURE: u16 = 0xFFFF;

/// An RGBA colour factor, each channel carried as the bit pattern of a
/// 32-bit float.
#[derive(Clone, Copy, Debug, PartialEq, Eq, Structural)]
pub struct ColorFactorBits {
    /// Red channel bits.
    pub r: u32,
    /// Green channel bits.
    pub g: u32,
    /// Blue channel bits.
    pub b: u32,
    /// Alpha channel bits.
    pub a: u32,
}

/// A material record as uploaded to the material storage buffer.
#[derive(Clone, Copy, Debug, PartialEq, Eq, Structural)]
pub struct Material {
    /// Base colour factor of the material.
    pub base_color_factor: ColorFactorBits,
    /// Texture slot of the base colour texture, `NO_TEXTURE` for none.
    pub base_color_texture_id: u16,
    /// Nonzero to skip lighting.
    pub unlit: u16,
}

impl Default for Material {
    /// An untextured, lit material with colour factor (1, 1, 1, 1).
    fn default() -> (m: Material)
        ensures
            m.base_color_factor == (ColorFactorBits {
                r: FLOAT_ONE_BITS,
                g: FLOAT_ONE_BITS,
                b: FLOAT_ONE_BITS,
                a: FLOAT_ONE_BITS,
            }),
            m.base_color_texture_id == NO_TEXTURE,
            m.unlit == 0,
    {
        Material {
            base_color_factor: ColorFactorBits {
                r: FLOAT_ONE_BITS,
                g: FLOAT_ONE_BITS,
                b: FLOAT_ONE_BITS,
                a: FLOAT_ONE_BITS,
            },
            base_color_texture_id: NO_TEXTURE,
            unlit: 0,
        }
    }
}

/// One vertex as uploaded to the vertex buffer; each coordinate is carried
/// as the bit pattern of a 32-bit float.
#[derive(Clone, Copy, Debug, PartialEq, Eq, Structural)]
pub struct Vertex {
    /// Position x bits.
    pub position_x: u32,
    /// Position y bits.
    pub position_y: u32,
    /// Position z bits.
    pub position_z: u32,
    /// Normal x bits.
    pub normal_x: u32,
    /// Normal y bits.
    pub normal_y: u32,
    /// Normal z bits.
    pub normal_z: u32,
    /// Texture coordinate u bits.
    pub uv_u: u32,
    /// Texture coordinate v bits.
    pub uv_v: u32,
}

/// One per-object record as uploaded to the transform storage buffer:
/// the world transform and the bounding sphere the culling pass tests.
/// Matrix entries and sphere coordinates are carried as the bit patterns
/// of 32-bit floats; the float math that produces them stays outside the
/// crate.
#[derive(Clone, Copy, Debug, PartialEq, Eq)]
pub struct ModelData {
    /// World transform, 16 float bit patterns in column order.
    pub transform: [u32; 16],
    /// Bounding-sphere centre, 3 float bit patterns.
    pub sphere_centre: [u32; 3],
    /// Bounding-sphere radius bit pattern.
    pub sphere_radius: u32,
}

/// The mesh arena type of the `id_arena` crate, declared so its values can
/// stand in fields and signatures. Values of it are opaque; the wrappers
/// below give its operations their contracts.
#[verifier::external_type_specification]
#[verifier::external_body]
#[verifier::reject_recursive_types(T)]
#[verifier::reject_recursive_types(A)]
pub struct ExArena<T, A>(id_arena::Arena<T, A>);

/// The id type of the `id_arena` crate.
#[verifier::external_type_specification]
#[verifier::external_body]
#[verifier::reject_recursive_types(T)]
pub struct ExId<T>(id_arena::Id<T>);

/// The default arena behaviour type of the `id_arena` crate, named by the
/// arena type's default parameter.
#[verifier::external_type_specification]
#[verifier::external_body]
#[verifier::reject_recursive_types(T)]
pub struct ExDefaultArenaBehavior<T>(id_arena::DefaultArenaBehavior<T>);

/// Relies on `id_arena::Id::clone`: ids are plain copies.
pub assume_specification<T>[ <id_arena::Id<T> as Clone>::clone ](id: &id_arena::Id<T>) -> (r:
    id_arena::Id<T>)
    ensures
        r == *id,
;

/// The items a mesh arena holds, in allocation order.
pub uninterp spec fn mesh_arena_items(arena: id_arena::Arena<Mesh>) -> Seq<Mesh>;

/// The tag that distinguishes one arena's ids from another's.
pub uninterp spec fn mesh_arena_tag(arena: id_arena::Arena<Mesh>) -> int;

/// The index a mesh id carries.
pub uninterp spec fn mesh_id_index(id: id_arena::Id<Mesh>) -> int;

/// The arena tag a mesh id carries.
pub uninterp spec fn mesh_id_tag(id: id_arena::Id<Mesh>) -> int;

/// A mesh id resolves in an arena: its tag is the arena's and its index
/// lies inside the arena's items.
pub open spec fn mesh_id_resolves(arena: id_arena::Arena<Mesh>, id: id_arena::Id<Mesh>) -> bool {
    &&& mesh_id_tag(id) == mesh_arena_tag(arena)
    &&& 0 <= mesh_id_index(id) < mesh_arena_items(arena).len()
}

/// The mesh a resolving id names.
pub open spec fn mesh_for_id(arena: id_arena::Arena<Mesh>, id: id_arena::Id<Mesh>) -> Mesh {
    mesh_arena_items(arena)[mesh_id_index(id)]
}

/// Relies on `id_arena::Arena::new`: a fresh arena holds no items.
#[verifier::external_body]
fn arena_new() -> (arena: id_arena::Arena<Mesh>)
    ensures
        mesh_arena_items(arena).len() == 0,
{
    id_arena::Arena::new()
}

/// Relies on `id_arena::Arena::alloc`: the item is appended and the
/// returned id carries the item's index and the arena's tag. Allocation
/// panics only when the item count would overflow `usize`.
#[verifier::external_body]
fn arena_alloc(arena: &mut id_arena::Arena<Mesh>, mesh: Mesh) -> (id: id_arena::Id<Mesh>)
    requires
        mesh_arena_items(*old(arena)).len() < usize::MAX,
    ensures
        mesh_arena_items(*final(arena)) == mesh_arena_items(*old(arena)).push(mesh),
        mesh_arena_tag(*final(arena)) == mesh_arena_tag(*old(arena)),
        mesh_id_index(id) == mesh_arena_items(*old(arena)).len(),
        mesh_id_tag(id) == mesh_arena_tag(*old(arena)),
{
    arena.alloc(mesh)
}

/// Relies on `id_arena::Arena::get`: the indexed item comes back exactly
/// when the id's tag is this arena's and its index is in range; an id of
/// another arena, or one out of range, yields `None`.
#[verifier::external_body]
fn arena_get<'a>(arena: &'a id_arena::Arena<Mesh>, id: id_arena::Id<Mesh>) -> (r: Option<&'a Mesh>)
    ensures
        match r {
            Some(m) => mesh_id_resolves(*arena, id) && *m == mesh_for_id(*arena, id),
            None => !mesh_id_resolves(*arena, id),
        },
{
    arena.get(id)
}

/// Relies on `id_arena::Arena::len`: the number of items allocated.
#[verifier::external_body]
fn arena_len(arena: &id_arena::Arena<Mesh>) -> (n: usize)
    ensures
        n == mesh_arena_items(*arena).len(),
{
    arena.len()
}

/// A fresh, empty mesh arena.
pub fn new_mesh_arena() -> (arena: id_arena::Arena<Mesh>)
    ensures
        mesh_arena_items(arena).len() == 0,
{
    arena_new()
}

/// Allocate a mesh in the arena: the mesh is appended and the returned id
/// resolves to it. `None` only when the arena's item count would overflow.
pub fn alloc_mesh(arena: &mut id_arena::Arena<Mesh>, mesh: Mesh) -> (r: Option<
    id_arena::Id<Mesh>,
>)
    ensures
        r is Some <==> mesh_arena_items(*old(arena)).len() < usize::MAX,
        r matches Some(id) ==> {
            &&& mesh_arena_items(*final(arena)) == mesh_arena_items(*old(arena)).push(mesh)
            &&& mesh_arena_tag(*final(arena)) == mesh_arena_tag(*old(arena))
            &&& mesh_id_index(id) == mesh_arena_items(*old(arena)).len()
            &&& mesh_id_tag(id) == mesh_arena_tag(*old(arena))
            &&& mesh_id_resolves(*final(arena), id)
            &&& mesh_for_id(*final(arena), id) == mesh
        },
        r is None ==> *final(arena) == *old(arena),
{
    if arena_len(arena) < usize::MAX {
        Some(arena_alloc(arena, mesh))
    } else {
        None
    }
}

/// Look a mesh up by id: the arena's item under the id's index when the
/// id resolves here, `None` for an id of another arena or out of range.
pub fn get_mesh<'a>(arena: &'a id_arena::Arena<Mesh>, id: id_arena::Id<Mesh>) -> (r: Option<
    &'a Mesh,
>)
    ensures
        match r {
            Some(m) => mesh_id_resolves(*arena, id) && *m == mesh_for_id(*arena, id),
            None => !mesh_id_resolves(*arena, id),
        },
{
    arena_get(arena, id)
}

/// Number of meshes allocated in the arena.
pub fn mesh_count(arena: &id_arena::Arena<Mesh>) -> (n: usize)
    ensures
        n == mesh_arena_items(*arena).len(),
{
    arena_len(arena)
}

/// The scene as the renderer consumes it: object instances, materials,
/// and the arena the instances' mesh ids resolve in.
pub struct ModelContext {
    /// The scene's object instances, in draw order.
    pub models: Vec<Model>,
    /// The scene's materials, indexed by the primitives' material ids.
    pub materials: Vec<Material>,
    /// The arena holding the scene's meshes.
    pub meshes: id_arena::Arena<Mesh>,
}

/// The error when appending a primitive would overflow the shared
/// geometry buffers' offsets.
#[derive(Clone, Copy, Debug, PartialEq, Eq, Structural)]
pub enum GeometryError {
    /// The running index offset would exceed `u32::MAX`.
    IndexOffsetOverflow,
    /// The running vertex offset would exceed `u32::MAX`.
    VertexOffsetOverflow,
}

/// Running layout of the shared index and vertex buffers during import:
/// each imported primitive starts at the current offsets and advances
/// them by its own counts.
#[derive(Clone, Copy, Debug, PartialEq, Eq, Structural)]
pub struct GeometryCursor {
    /// Indices written so far, the next primitive's first index.
    pub index_offset: u32,
    /// Vertices written so far, the next primitive's first vertex.
    pub vertex_offset: u32,
}

impl GeometryCursor {
    /// A cursor at the start of empty geometry buffers.
    pub fn new() -> (c: GeometryCursor)
        ensures
            c.index_offset == 0,
            c.vertex_offset == 0,
    {
        GeometryCursor { index_offset: 0, vertex_offset: 0 }
    }

    /// Lay out one primitive: it starts at the current offsets and the
    /// cursor advances by its counts. Fails without moving when either
    /// running offset would overflow.
    pub fn push_primitive(&mut self, num_indices: u32, num_vertices: u32, material_id: u16) -> (r:
        Result<Primitive, GeometryError>)
        ensures
            r is Ok <==> old(self).index_offset + num_indices <= u32::MAX && old(
                self,
            ).vertex_offset + num_vertices <= u32::MAX,
            r matches Ok(p) ==> {
                &&& p == (Primitive {
                    index_offset: old(self).index_offset,
                    vertex_offset: old(self).vertex_offset,
                    num_indices,
                    material_id,
                })
                &&& final(self).index_offset == old(self).index_offset + num_indices
                &&& final(self).vertex_offset == old(self).vertex_offset + num_vertices
            },
            r is Err ==> *final(self) == *old(self),
            r == Err::<Primitive, _>(GeometryError::IndexOffsetOverflow) <==> old(
                self,
            ).index_offset + num_indices > u32::MAX,
            r == Err::<Primitive, _>(GeometryError::VertexOffsetOverflow) <==> old(
                self,
            ).index_offset + num_indices <= u32::MAX && old(self).vertex_offset + num_vertices
                > u32::MAX,
    {
        if num_indices > u32::MAX - self.index_offset {
            return Err(GeometryError::IndexOffsetOverflow);
        }
        if num_vertices > u32::MAX - self.vertex_offset {
            return Err(GeometryError::VertexOffsetOverflow);
        }
        let p = Primitive {
            index_offset: self.index_offset,
            vertex_offset: self.vertex_offset,
            num_indices,
            material_id,
        };
        self.index_offset = self.index_offset + num_indices;
        self.vertex_offset = self.vertex_offset + num_vertices;
        Ok(p)
    }
}

/// Bit pattern of positive infinity in a 32-bit float.
pub const F32_INFINITY_BITS: u32 = 0x7F80_0000;

/// Mask clearing a 32-bit float's sign bit.
pub const F32_ABS_MASK: u32 = 0x7FFF_FFFF;

/// Bit pattern of the smallest positive 32-bit float.
pub const F32_TINY_BITS: u32 = 0x1;

/// The bit pattern encodes a NaN: cleared of its sign, it lies above the
/// infinity pattern.
pub open spec fn is_nan_bits(bits: u32) -> bool {
    bits & F32_ABS_MASK > F32_INFINITY_BITS
}

/// The bit pattern of the next 32-bit float above the given one: NaN and
/// positive infinity stay, zeroes of either sign step to the smallest
/// positive value, positive values step one pattern up, negative values
/// one pattern down. Bounding-sphere radii are rounded up through this so
/// the sphere never undershoots the furthest point.
pub open spec fn spec_next_up_bits(bits: u32) -> int {
    if is_nan_bits(bits) || bits == F32_INFINITY_BITS {
        bits as int
    } else if bits & F32_ABS_MASK == 0 {
        F32_TINY_BITS as int
    } else if bits == bits & F32_ABS_MASK {
        bits + 1
    } else {
        bits - 1
    }
}

/// Step a 32-bit float's bit pattern to the next value up. See
/// [`spec_next_up_bits`] for the cases.
pub fn next_up_bits(bits: u32) -> (r: u32)
    ensures
        r == spec_next_up_bits(bits),
{
    let abs = bits & F32_ABS_MASK;
    if abs > F32_INFINITY_BITS || bits == F32_INFINITY_BITS {
        return bits;
    }
    if abs == 0 {
        F32_TINY_BITS
    } else if bits == abs {
        bits + 1
    } else {
        proof {
            assert(bits != bits & F32_ABS_MASK ==> bits >= 0x8000_0000u32) by (bit_vector);
        }
        bits - 1
    }
}

} // verus!
