//! Per-mesh skinning and morph-weight buffers held for the renderer: joint
//! matrix stacks and morph-weight stacks keyed by mesh, generic over the
//! element types the GPU upload uses.

use std::collections::BTreeMap;

use vstd::prelude::*;

use crate::ids::MeshId;

verus! {

broadcast use vstd::laws_cmp::group_laws_cmp;

/// The registered buffers, by raw mesh identifier.
#[verifier::ext_equal]
pub struct RegistryView<J, W> {
    /// Joint matrix stack of each skinned mesh.
    pub joints: Map<u64, Seq<J>>,
    /// Morph-weight stack of each morphed mesh.
    pub morphs: Map<u64, Seq<W>>,
}

/// Per-mesh skinning state owned by the renderer.
pub struct GpuSkinningRegistry<J, W> {
    joints: BTreeMap<u64, Vec<J>>,
    morph_weights: BTreeMap<u64, Vec<W>>,
}

impl<J, W> View for GpuSkinningRegistry<J, W> {
    type V = RegistryView<J, W>;

    closed spec fn view(&self) -> RegistryView<J, W> {
        RegistryView {
            joints: self.joints@.map_values(|v: Vec<J>| v@),
            morphs: self.morph_weights@.map_values(|v: Vec<W>| v@),
        }
    }
}

impl<J, W> Default for GpuSkinningRegistry<J, W> {
    fn default() -> (registry: Self)
        ensures
            registry@.joints.is_empty(),
            registry@.morphs.is_empty(),
    {
        GpuSkinningRegistry::new()
    }
}

/// Copies `items` into a fresh vector.
fn copy_items<T: Copy>(items: &[T]) -> (out: Vec<T>)
    ensures
        out@ == items@,
{
    let mut out: Vec<T> = Vec::new();
    let mut i: usize = 0;
    while i < items.len()
        invariant
            i <= items@.len(),
            out@ == items@.take(i as int),
        decreases items@.len() - i,
    {
        out.push(items[i]);
        i = i + 1;
        assert(out@ =~= items@.take(i as int));
    }
    assert(items@.take(items@.len() as int) =~= items@);
    out
}

impl<J, W> GpuSkinningRegistry<J, W> {
    /// Creates an empty registry.
    pub fn new() -> (registry: Self)
        ensures
            registry@.joints.is_empty(),
            registry@.morphs.is_empty(),
    {
        let registry = GpuSkinningRegistry { joints: BTreeMap::new(), morph_weights: BTreeMap::new() };
        assert(registry@.joints =~= Map::empty());
        assert(registry@.morphs =~= Map::empty());
        registry
    }

    /// Registers (or replaces) the bone matrix buffer for `mesh_id`.
    pub fn register_skin(&mut self, mesh_id: MeshId, bones: Vec<J>)
        ensures
            final(self)@.joints == old(self)@.joints.insert(mesh_id.0, bones@),
            final(self)@.morphs == old(self)@.morphs,
    {
        self.joints.insert(mesh_id.0, bones);
        assert(self@.joints =~= old(self)@.joints.insert(mesh_id.0, bones@));
    }

    /// Unregisters the skin for `mesh_id`; returns whether one was registered.
    pub fn unregister_skin(&mut self, mesh_id: MeshId) -> (removed: bool)
        ensures
            removed == old(self)@.joints.contains_key(mesh_id.0),
            final(self)@.joints == old(self)@.joints.remove(mesh_id.0),
            final(self)@.morphs == old(self)@.morphs,
    {
        let removed = self.joints.remove(&mesh_id.0);
        assert(self@.joints =~= old(self)@.joints.remove(mesh_id.0));
        removed.is_some()
    }

    /// Registers (or replaces) the morph-weight buffer for `mesh_id`.
    pub fn register_morph_targets(&mut self, mesh_id: MeshId, weights: Vec<W>)
        ensures
            final(self)@.morphs == old(self)@.morphs.insert(mesh_id.0, weights@),
            final(self)@.joints == old(self)@.joints,
    {
        self.morph_weights.insert(mesh_id.0, weights);
        assert(self@.morphs =~= old(self)@.morphs.insert(mesh_id.0, weights@));
    }

    /// Unregisters morph weights for `mesh_id`; returns whether some were
    /// registered.
    pub fn unregister_morph(&mut self, mesh_id: MeshId) -> (removed: bool)
        ensures
            removed == old(self)@.morphs.contains_key(mesh_id.0),
            final(self)@.morphs == old(self)@.morphs.remove(mesh_id.0),
            final(self)@.joints == old(self)@.joints,
    {
        let removed = self.morph_weights.remove(&mesh_id.0);
        assert(self@.morphs =~= old(self)@.morphs.remove(mesh_id.0));
        removed.is_some()
    }

    /// Returns the bone matrix slice for `mesh_id`, if registered.
    pub fn bones(&self, mesh_id: MeshId) -> (bones: Option<&[J]>)
        ensures
            match bones {
                Some(b) => self@.joints.contains_key(mesh_id.0) && b@ == self@.joints[mesh_id.0],
                None => !self@.joints.contains_key(mesh_id.0),
            },
    {
        match self.joints.get(&mesh_id.0) {
            Some(v) => Some(v.as_slice()),
            None => None,
        }
    }

    /// Returns the morph-weight slice for `mesh_id`, if registered.
    pub fn morph_weights(&self, mesh_id: MeshId) -> (weights: Option<&[W]>)
        ensures
            match weights {
                Some(w) => self@.morphs.contains_key(mesh_id.0) && w@ == self@.morphs[mesh_id.0],
                None => !self@.morphs.contains_key(mesh_id.0),
            },
    {
        match self.morph_weights.get(&mesh_id.0) {
            Some(v) => Some(v.as_slice()),
            None => None,
        }
    }

    /// Returns whether `mesh_id` has a registered skin.
    pub fn has_skin(&self, mesh_id: MeshId) -> (b: bool)
        ensures
            b == self@.joints.contains_key(mesh_id.0),
    {
        self.joints.contains_key(&mesh_id.0)
    }

    /// Returns whether `mesh_id` has registered morph weights.
    pub fn has_morph(&self, mesh_id: MeshId) -> (b: bool)
        ensures
            b == self@.morphs.contains_key(mesh_id.0),
    {
        self.morph_weights.contains_key(&mesh_id.0)
    }

    /// Returns the number of registered skins.
    pub fn skin_count(&self) -> (n: usize)
        ensures
            n == self@.joints.len(),
    {
        assert(self@.joints.dom() =~= self.joints@.dom());
        self.joints.len()
    }

    /// Returns the number of registered morph-weight stacks.
    pub fn morph_count(&self) -> (n: usize)
        ensures
            n == self@.morphs.len(),
    {
        assert(self@.morphs.dom() =~= self.morph_weights@.dom());
        self.morph_weights.len()
    }
}

impl<J: Copy, W: Copy> GpuSkinningRegistry<J, W> {
    /// Replaces the bone matrices of a registered skin; returns `false`, and
    /// changes nothing, when `mesh_id` has no registered skin.
    pub fn update_bone_matrices(&mut self, mesh_id: MeshId, bones: &[J]) -> (updated: bool)
        ensures
            updated == old(self)@.joints.contains_key(mesh_id.0),
            final(self)@.joints == if updated {
                old(self)@.joints.insert(mesh_id.0, bones@)
            } else {
                old(self)@.joints
            },
            final(self)@.morphs == old(self)@.morphs,
    {
        if self.joints.contains_key(&mesh_id.0) {
            let copy = copy_items(bones);
            self.joints.insert(mesh_id.0, copy);
            assert(self@.joints =~= old(self)@.joints.insert(mesh_id.0, bones@));
            true
        } else {
            false
        }
    }

    /// Replaces the weights of registered morph targets; returns `false`, and
    /// changes nothing, when `mesh_id` has no registered morph weights.
    pub fn update_morph_weights(&mut self, mesh_id: MeshId, weights: &[W]) -> (updated: bool)
        ensures
            updated == old(self)@.morphs.contains_key(mesh_id.0),
            final(self)@.morphs == if updated {
                old(self)@.morphs.insert(mesh_id.0, weights@)
            } else {
                old(self)@.morphs
            },
            final(self)@.joints == old(self)@.joints,
    {
        if self.morph_weights.contains_key(&mesh_id.0) {
            let copy = copy_items(weights);
            self.morph_weights.insert(mesh_id.0, copy);
            assert(self@.morphs =~= old(self)@.morphs.insert(mesh_id.0, weights@));
            true
        } else {
            false
        }
    }
}

/// A buffer registered for a mesh is the one read back for it, and
/// registering a buffer for a mesh that had none and then unregistering it
/// leaves the registry as it was.
pub proof fn lemma_register_read_unregister<T>(buffers: Map<u64, Seq<T>>, mesh: u64, items: Seq<T>)
    ensures
        buffers.insert(mesh, items).contains_key(mesh),
        buffers.insert(mesh, items)[mesh] == items,
        !buffers.contains_key(mesh) ==> buffers.insert(mesh, items).remove(mesh) == buffers,
{
    if !buffers.contains_key(mesh) {
        assert(buffers.insert(mesh, items).remove(mesh) =~= buffers);
    }
}

} // verus!
