use vstd::prelude::*;
use crate::asset::{AssetStorage, Handle, DEFAULT_HANDLE_ID};

verus! {

/// The well-known id of the unit quad mesh that the UI draws with; any
/// module may name the same mesh through it.
pub const QUAD_HANDLE_ID: u128 = 0xb329_8180_5fd9_4fc2_a75f_6b73_6197_143e;

/// The UI feature: at startup it gives the host a colour-material table with
/// its default material and puts the unit quad into the shared mesh table.
#[derive(Clone, Copy, Debug, Default)]
pub struct UiPlugin;

impl UiPlugin {
    /// The handle of the shared unit quad.
    pub fn quad_handle<M>() -> (h: Handle<M>)
        ensures
            h.id == QUAD_HANDLE_ID,
    {
        Handle::from_u128(QUAD_HANDLE_ID)
    }

    /// Builds the feature's state: a colour-material table holding
    /// `default_material` under the default handle, returned for the host to
    /// keep; and `quad` stored in `meshes` under the quad handle, over
    /// anything there. The flag tells whether that handle was already taken.
    pub fn build<C, M>(&self, default_material: C, meshes: &mut AssetStorage<M>, quad: M) -> (r: (
        AssetStorage<C>,
        bool,
    ))
        ensures
            r.0@ == Map::<u128, C>::empty().insert(DEFAULT_HANDLE_ID, default_material),
            final(meshes)@ == old(meshes)@.insert(QUAD_HANDLE_ID, quad),
            r.1 == old(meshes)@.contains_key(QUAD_HANDLE_ID),
    {
        let mut color_materials: AssetStorage<C> = AssetStorage::new();
        color_materials.add_default(default_material);
        let taken = meshes.add_with_handle(Self::quad_handle(), quad);
        (color_materials, taken)
    }
}

} // verus!
