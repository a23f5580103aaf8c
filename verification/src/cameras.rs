//! Camera management: which camera is shown, and how it changes when a
//! fallback is needed or a camera block becomes the primary camera.

use vstd::prelude::*;

use crate::blocks::BlockId;

verus! {

/// Entity that is a camera block (its entity bits).
#[derive(Debug, Clone, Copy, PartialEq, Eq, Hash, Structural)]
pub struct BlockEntity(pub u64);

/// Entity that is a camera (its entity bits).
#[derive(Debug, Clone, Copy, PartialEq, Eq, Hash, Structural)]
pub struct CameraEntity(pub u64);

/// Blueprint of a camera block.
#[derive(Debug, Clone, Copy, PartialEq, Eq, Structural)]
pub struct CameraBlockBlueprint {
    pub id: BlockId,
}

/// Marker for camera blocks.
#[derive(Debug, Clone, Copy, PartialEq, Eq, Structural)]
pub struct CameraBlockMarker;

/// Settings of the primary camera.
#[derive(Debug, Clone, Copy, PartialEq, Eq, Structural)]
pub struct CameraConfiguration {
    pub allow_orbit: bool,
}

impl CameraConfiguration {
    pub open spec fn allows_orbit(self) -> bool {
        self.allow_orbit
    }

    pub fn can_orbit(&self) -> (res: bool)
        ensures
            res == self.allows_orbit(),
    {
        self.allow_orbit
    }
}

impl Default for CameraConfiguration {
    /// Orbiting is allowed.
    fn default() -> (c: CameraConfiguration)
        ensures
            c.allows_orbit(),
    {
        CameraConfiguration { allow_orbit: true }
    }
}

/// Holds state about the cameras of the game.
#[derive(Debug, Clone, Copy, PartialEq, Eq, Structural)]
pub enum CamerasConfig {
    /// No cameras currently spawned (default)
    NoCamera,
    /// A fallback camera has been spawned, but no camera block has been selected
    Fallback { cam: CameraEntity },
    /// A primary camera that takes up the whole screen has been set
    PrimaryCamera { block: BlockEntity, cam: CameraEntity, config: CameraConfiguration },
}

impl Default for CamerasConfig {
    fn default() -> (c: CamerasConfig)
        ensures
            c == CamerasConfig::NoCamera,
    {
        CamerasConfig::NoCamera
    }
}

/// The configuration once `cam` follows `block` as the primary camera.
pub open spec fn primary_config(block: BlockEntity, cam: CameraEntity) -> CamerasConfig {
    CamerasConfig::PrimaryCamera {
        block,
        cam,
        config: CameraConfiguration { allow_orbit: true },
    }
}

/// The fallback camera of a configuration, if it has one.
pub open spec fn fallback_of(c: CamerasConfig) -> Option<CameraEntity> {
    match c {
        CamerasConfig::Fallback { cam } => Some(cam),
        _ => None,
    }
}

/// Whether a fallback camera has to be spawned: exactly when no camera is.
pub open spec fn needs_fallback(c: CamerasConfig) -> bool {
    c is NoCamera
}

impl CamerasConfig {
    /// Whether a fallback camera has to be spawned.
    pub fn requires_fallback(&self) -> (res: bool)
        ensures
            res == needs_fallback(*self),
    {
        match self {
            CamerasConfig::NoCamera => true,
            _ => false,
        }
    }

    /// The fallback camera to despawn before another camera takes over, if any.
    pub fn clean_any_fallback_cam(&self) -> (res: Option<CameraEntity>)
        ensures
            res == fallback_of(*self),
    {
        match self {
            CamerasConfig::Fallback { cam } => Some(*cam),
            _ => None,
        }
    }

    /// Records the fallback camera `cam` that was spawned because none was.
    pub fn fallback_spawned(&mut self, cam: CameraEntity)
        requires
            needs_fallback(*old(self)),
        ensures
            *final(self) == (CamerasConfig::Fallback { cam }),
    {
        *self = CamerasConfig::Fallback { cam };
    }

    /// `cam`, a newly spawned camera, becomes the primary camera following the
    /// camera block `follow_camera_block`. Returns the fallback camera that has
    /// to be despawned, if there was one.
    pub fn set_primary_camera(&mut self, follow_camera_block: BlockEntity, cam: CameraEntity) -> (despawn:
        Option<CameraEntity>)
        ensures
            *final(self) == primary_config(follow_camera_block, cam),
            despawn == fallback_of(*old(self)),
    {
        let despawn = self.clean_any_fallback_cam();
        *self = CamerasConfig::PrimaryCamera {
            block: follow_camera_block,
            cam,
            config: CameraConfiguration::default(),
        };
        despawn
    }

    /// The camera to move onto the block it follows, with that block and
    /// whether it may orbit; `None` while there is no primary camera.
    pub fn camera_to_update(&self) -> (res: Option<(CameraEntity, BlockEntity, bool)>)
        ensures
            res == match *self {
                CamerasConfig::PrimaryCamera { block, cam, config } => Some(
                    (cam, block, config.allows_orbit()),
                ),
                _ => None,
            },
    {
        match self {
            CamerasConfig::NoCamera => None,
            CamerasConfig::Fallback { .. } => None,
            CamerasConfig::PrimaryCamera { block, cam, config } => Some((*cam, *block, config.can_orbit())),
        }
    }
}


/// A request to change which camera is shown.
#[derive(Debug, Clone, Copy, PartialEq, Eq, Structural)]
pub enum ChangeCameraConfig {
    /// Follow the camera block `follow_camera_block` with a new primary camera.
    SetPrimaryCamera { follow_camera_block: BlockEntity },
}

impl CamerasConfig {
    /// Handles a request to change cameras; `cam` is the camera newly spawned
    /// for it. Returns the fallback camera to despawn, if there was one.
    pub fn handle_change_camera_event(&mut self, event: ChangeCameraConfig, cam: CameraEntity) -> (despawn:
        Option<CameraEntity>)
        ensures
            match event {
                ChangeCameraConfig::SetPrimaryCamera { follow_camera_block } => *final(self)
                    == primary_config(follow_camera_block, cam),
            },
            despawn == fallback_of(*old(self)),
    {
        match event {
            ChangeCameraConfig::SetPrimaryCamera { follow_camera_block } => self.set_primary_camera(
                follow_camera_block,
                cam,
            ),
        }
    }
}

/// Once a camera is shown, a fallback is never needed again: neither
/// recording a fallback nor setting a primary camera leads back to no camera.
pub proof fn lemma_cameras_stay_shown(block: BlockEntity, cam: CameraEntity)
    ensures
        !needs_fallback(primary_config(block, cam)),
        !needs_fallback(CamerasConfig::Fallback { cam }),
        fallback_of(primary_config(block, cam)) is None,
{
}

} // verus!
