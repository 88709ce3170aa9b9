//! Tags the host attaches to scene nodes. The core reads them to find the
//! player's parts and to know which nodes were already explored.

use vstd::prelude::*;

verus! {

/// The player's root node.
#[derive(Clone, Copy, Debug, PartialEq, Eq, Structural)]
pub struct PlayerParentMarker;

/// The node that holds the player's cameras; aim tests start from it.
#[derive(Clone, Copy, Debug, PartialEq, Eq, Structural)]
pub struct PlayerCameraContainerMarker;

#[derive(Clone, Copy, Debug, PartialEq, Eq, Structural)]
pub struct PlayerCamera;

#[derive(Clone, Copy, Debug, PartialEq, Eq, Structural)]
pub struct PlayerMainCamera;

#[derive(Clone, Copy, Debug, PartialEq, Eq, Structural)]
pub struct PlayerBorderPostProcessCamera;

#[derive(Clone, Copy, Debug, PartialEq, Eq, Structural)]
pub struct PlayerCameraChildMarker;

#[derive(Clone, Copy, Debug, PartialEq, Eq, Structural)]
pub struct PlayerCollisionChildMarker;

#[derive(Clone, Copy, Debug, PartialEq, Eq, Structural)]
pub struct PlayerMeshMarker;

#[derive(Clone, Copy, Debug, PartialEq, Eq, Structural)]
pub struct PlayerCameraMarker;

/// A scene node whose metadata has been ingested.
#[derive(Clone, Copy, Debug, PartialEq, Eq, Structural)]
pub struct ExploredGLTFObjectMarker;

/// A light node whose settings have been applied.
#[derive(Clone, Copy, Debug, PartialEq, Eq, Structural)]
pub struct ExploredLightObjectMarker;

#[derive(Clone, Copy, Debug, PartialEq, Eq, Structural)]
pub struct PostProcessMeshEntityMarker;

#[derive(Clone, Copy, Debug, PartialEq, Eq, Structural)]
pub struct AddingObjectUiMarker;

#[derive(Clone, Copy, Debug, PartialEq, Eq, Structural)]
pub struct PreviewGridMarker;

/// The root of a level being loaded.
#[derive(Clone, Copy, Debug, PartialEq, Eq, Structural)]
pub struct LoaderMarker;

/// A node whose spawned content was inserted.
#[derive(Clone, Copy, Debug, PartialEq, Eq, Structural)]
pub struct Inserted;

#[derive(Clone, Copy, Debug, PartialEq, Eq, Structural)]
pub struct QuickFixImageComponentMarker;

#[derive(Clone, Copy, Debug, PartialEq, Eq, Structural)]
pub struct MainMenuImageMarker;

} // verus!
