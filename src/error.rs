//! Authoring errors: metadata that a level must not contain.

use vstd::prelude::*;

verus! {

/// A sibling parameter that an action reads from its node's metadata.
#[derive(Clone, Copy, Debug, PartialEq, Eq, Structural)]
pub enum Param {
    Cooldown,
    PressLongetivity,
    ChamberRoutes,
    ChamberWrongs,
    ChamberRights,
    ChamberAnswer,
    ChamberInputName,
    ChamberRepeatsGlobally,
}

/// Why a metadata entry was rejected.
#[derive(Clone, Copy, Debug, PartialEq, Eq, Structural)]
pub enum Reason {
    /// The entry's own value has the wrong shape.
    BadValue,
    /// A parameter the entry needs is missing or has the wrong shape.
    BadParam(Param),
    /// Parallel arrays differ in length.
    Arity,
    /// `mesh_collider_marker` without a `collider_type`.
    MissingColliderType,
    /// A collider type that is not recognised.
    UnknownColliderType,
}

/// A child that an action needs on its node.
#[derive(Clone, Copy, Debug, PartialEq, Eq, Structural)]
pub enum Role {
    UsageArea,
    DoorLeft,
    DoorRight,
}

/// Why an action could not start.
#[derive(Debug)]
pub enum StartupError {
    MissingChild(Role),
    /// A teleport names a node that the scene does not hold.
    UnknownNode(String),
}

} // verus!
