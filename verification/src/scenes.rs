//! A helper for saving parts of the world as a scene file.

use vstd::prelude::*;

verus! {

/// Saves marked entities into a scene file.
pub struct HelperScene;

/// Marks an entity to save into the scene, with its children when
/// `save_recursive` holds.
#[derive(Debug, Clone, Copy, PartialEq, Eq, Structural)]
pub struct HelperSceneMarker {
    pub save_recursive: bool,
}

impl Default for HelperSceneMarker {
    /// Only the entity itself is saved.
    fn default() -> (m: HelperSceneMarker)
        ensures
            !m.save_recursive,
    {
        HelperSceneMarker { save_recursive: false }
    }
}

/// Where the scene is saved.
#[derive(Debug, Clone)]
pub struct HelperSceneRes {
    pub path: String,
}

impl Default for HelperSceneRes {
    /// The scene file `cool.scene.ron`.
    fn default() -> (r: HelperSceneRes)
        ensures
            r.path@ == "cool.scene.ron"@,
    {
        HelperSceneRes { path: "cool.scene.ron".to_owned() }
    }
}

} // verus!
