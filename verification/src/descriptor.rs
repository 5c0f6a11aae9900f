//! The descriptor registry: one large, partially bound descriptor set.
//!
//! Fixed bindings hold the storage buffers (draw metadata, per-object
//! transforms, materials, indirect commands); one variable-length binding
//! holds the texture array. Texture registration always writes the full
//! filled prefix of the array: registering `K` textures fills slots
//! `0..K` and leaves every later slot in its default, null-safe state, so
//! a re-registration with a smaller count leaves no stale descriptor
//! reachable through the declared count.

use vstd::prelude::*;

verus! {

/// Binding of the draw-metadata storage buffer.
pub const BINDING_DRAW_METADATA: usize = 0;

/// Binding of the per-object-transform storage buffer.
pub const BINDING_TRANSFORMS: usize = 1;

/// Binding of the material storage buffer.
pub const BINDING_MATERIALS: usize = 2;

/// Binding of the indirect-command storage buffer.
pub const BINDING_INDIRECT: usize = 3;

/// Number of fixed storage-buffer bindings.
pub const STORAGE_BINDING_COUNT: usize = 4;

/// Capacity of the variable-length texture array binding.
pub const MAX_TEXTURES: usize = 1000;

/// Why a registration was rejected. Rejection changes nothing.
#[derive(Clone, Copy, Debug, PartialEq, Eq, Structural)]
pub enum RegistryError {
    /// The binding index lies outside the fixed storage-buffer bindings.
    InvalidBinding,
    /// More textures than the array binding's capacity.
    TooManyTextures,
}

/// The registry: which buffer each fixed binding holds, and the filled
/// prefix of the texture array. Buffers and images are named by the opaque
/// integer ids under which the caller registered them.
pub struct DescriptorRegistry {
    storage: Vec<Option<u64>>,
    textures: Vec<u64>,
}

impl DescriptorRegistry {
    /// Buffer id each fixed binding holds, `None` while unset.
    pub closed spec fn spec_storage(&self) -> Seq<Option<u64>> {
        self.storage@
    }

    /// The filled prefix of the texture array, in slot order.
    pub closed spec fn spec_textures(&self) -> Seq<u64> {
        self.textures@
    }

    /// The texture count the shader may index below: exactly the filled
    /// prefix. Slots at or past it are unreachable by construction.
    pub open spec fn spec_texture_count(&self) -> int {
        self.spec_textures().len() as int
    }

    /// What the shader sees in texture slot `i`: the registered image for
    /// a slot of the filled prefix, the default null-safe descriptor for
    /// every other slot of the array.
    pub open spec fn spec_texture_slot(&self, i: int) -> Option<u64> {
        if 0 <= i < self.spec_textures().len() {
            Some(self.spec_textures()[i])
        } else {
            None
        }
    }

    /// The fixed bindings always number `STORAGE_BINDING_COUNT` and the
    /// filled texture prefix never exceeds the array's capacity.
    pub open spec fn wf(&self) -> bool {
        &&& self.spec_storage().len() == STORAGE_BINDING_COUNT
        &&& self.spec_textures().len() <= MAX_TEXTURES
    }

    /// A fresh registry: no buffer bound, every texture slot default.
    pub fn new() -> (r: DescriptorRegistry)
        ensures
            r.wf(),
            forall|b: int| 0 <= b < STORAGE_BINDING_COUNT ==> r.spec_storage()[b] is None,
            r.spec_texture_count() == 0,
            forall|i: int| 0 <= i < MAX_TEXTURES ==> r.spec_texture_slot(i) is None,
    {
        let mut storage: Vec<Option<u64>> = Vec::new();
        let mut i: usize = 0;
        while i < STORAGE_BINDING_COUNT
            invariant
                i <= STORAGE_BINDING_COUNT,
                storage@.len() == i,
                forall|j: int| 0 <= j < i ==> storage@[j] is None,
            decreases STORAGE_BINDING_COUNT - i,
        {
            storage.push(None);
            i = i + 1;
        }
        DescriptorRegistry { storage, textures: Vec::new() }
    }

    /// Register a storage buffer at one of the fixed bindings, writing a
    /// single descriptor update. Re-registration overwrites the binding.
    pub fn register_storage_buffer(&mut self, binding: usize, buffer_id: u64) -> (r: Result<
        (),
        RegistryError,
    >)
        requires
            old(self).wf(),
        ensures
            final(self).wf(),
            final(self).spec_textures() == old(self).spec_textures(),
            r is Ok <==> binding < STORAGE_BINDING_COUNT,
            r is Ok ==> final(self).spec_storage() == old(self).spec_storage().update(
                binding as int,
                Some(buffer_id),
            ),
            r is Err ==> final(self).spec_storage() == old(self).spec_storage() && r == Err::<
                (),
                _,
            >(RegistryError::InvalidBinding),
    {
        if binding >= STORAGE_BINDING_COUNT {
            return Err(RegistryError::InvalidBinding);
        }
        self.storage.set(binding, Some(buffer_id));
        Ok(())
    }

    /// Register the scene's textures: one update writing the whole filled
    /// prefix. Slots `0..ids.len()` hold the given images in order; every
    /// slot from `ids.len()` to the array's capacity reads as default.
    /// More textures than the capacity are rejected, changing nothing.
    pub fn register_textures(&mut self, ids: &Vec<u64>) -> (r: Result<(), RegistryError>)
        requires
            old(self).wf(),
        ensures
            final(self).wf(),
            final(self).spec_storage() == old(self).spec_storage(),
            r is Ok <==> ids@.len() <= MAX_TEXTURES,
            r is Ok ==> final(self).spec_textures() == ids@,
            r is Ok ==> final(self).spec_texture_count() == ids@.len() && (forall|i: int|
                0 <= i < ids@.len() ==> final(self).spec_texture_slot(i) == Some(ids@[i])) && (
            forall|i: int|
                ids@.len() <= i < MAX_TEXTURES ==> final(self).spec_texture_slot(i) is None),
            r is Err ==> final(self).spec_textures() == old(self).spec_textures() && r == Err::<
                (),
                _,
            >(RegistryError::TooManyTextures),
    {
        if ids.len() > MAX_TEXTURES {
            return Err(RegistryError::TooManyTextures);
        }
        let mut filled: Vec<u64> = Vec::new();
        let n = ids.len();
        let mut i: usize = 0;
        while i < n
            invariant
                n == ids@.len(),
                i <= n,
                filled@ == ids@.take(i as int),
            decreases n - i,
        {
            filled.push(ids[i]);
            proof {
                assert(ids@.take(i + 1) =~= ids@.take(i as int).push(ids@[i as int]));
            }
            i = i + 1;
        }
        proof {
            assert(ids@.take(n as int) =~= ids@);
        }
        self.textures = filled;
        Ok(())
    }

    /// The texture count the shader may index below.
    pub fn texture_count(&self) -> (n: usize)
        ensures
            n == self.spec_texture_count(),
    {
        self.textures.len()
    }

    /// What the shader sees in texture slot `i` of the array: the
    /// registered image id, or `None` for the default null-safe state.
    pub fn texture_slot(&self, i: usize) -> (r: Option<u64>)
        requires
            i < MAX_TEXTURES,
        ensures
            r == self.spec_texture_slot(i as int),
    {
        if i < self.textures.len() {
            Some(self.textures[i])
        } else {
            None
        }
    }

    /// The buffer id a fixed binding holds, `None` while unset.
    pub fn storage_binding(&self, binding: usize) -> (r: Option<u64>)
        requires
            self.wf(),
            binding < STORAGE_BINDING_COUNT,
        ensures
            r == self.spec_storage()[binding as int],
    {
        self.storage[binding]
    }
}

} // verus!
