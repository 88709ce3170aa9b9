//! What an action reads of the world each tick, and the effects it asks the
//! host engine to apply.

use vstd::prelude::*;
use crate::settings::PlayerState;

verus! {

/// Time and input of the current tick. Time is in milliseconds.
pub struct Frame {
    pub now_ms: u64,
    pub e_pressed: bool,
    pub enter_pressed: bool,
    pub escape_pressed: bool,
    pub back_pressed: bool,
    /// Characters typed during this tick, in order.
    pub typed: Vec<char>,
}

/// What the physics engine reports about the player and an action's node.
#[derive(Clone, Copy, Debug, PartialEq, Eq, Structural)]
pub struct Sense {
    /// The player's camera is within the action's reach and a forward ray hits the node.
    pub aimed: bool,
    /// The player's body intersects the node.
    pub touching: bool,
}

/// How close the player's camera must be, and how far its forward ray reaches, in centimetres.
/// A distance of zero means no distance limit.
#[derive(Clone, Copy, Debug, PartialEq, Eq, Structural)]
pub struct Reach {
    pub max_distance_cm: u32,
    pub ray_cm: u32,
}

/// A child of an action's node, by engine id and name.
pub struct Child {
    pub node: u64,
    pub name: String,
}

/// What an action may look up about its node when it starts.
pub struct Surroundings {
    /// The node's direct children.
    pub children: Vec<Child>,
    /// Every named node of the scene.
    pub nodes: Vec<Child>,
    /// The first loaded animation clip that is compatible with the node, if any.
    pub compatible_clip: Option<u64>,
    /// The scene package's named animations, as clip ids.
    pub named_clips: Vec<Child>,
}

/// How an animation clip repeats.
#[derive(Clone, Copy, Debug, PartialEq, Eq, Structural)]
pub enum Repeat {
    Forever,
    Never,
    Count(u64),
}

/// A point in thousandths of a metre.
#[derive(Clone, Copy, Debug, PartialEq, Eq, Structural)]
pub struct Point {
    pub x: i64,
    pub y: i64,
    pub z: i64,
}

/// Where a teleport puts the player.
#[derive(Clone, Copy, Debug, PartialEq, Eq, Structural)]
pub enum Target {
    Absolute(Point),
    Relative(Point),
    Node(u64),
}

/// An intent recorded by an action, applied by the host after the action runs.
#[derive(Debug)]
pub enum Effect {
    /// Show "press E" style advice; the highest priority of a tick wins.
    Hint { text: String, priority: u32, key_e: bool },
    /// Turn a door leaf about the vertical axis by a number of quarter turns.
    RotateLeaf { node: u64, quarter_turns: i64 },
    CollisionGroups { node: u64, members: u32, filters: u32, override_groups: bool },
    /// Move the player, keeping rotation and scale.
    Teleport(Target),
    PlayAudio { path: String, volume_milli: u64 },
    PlayAnimation { node: u64, clip: u64, repeat: Repeat },
    PauseAnimation { node: u64 },
    OpenLink(String),
    SetPlayerState(PlayerState),
    /// Set the text shown by the input field of a node.
    InputText { node: u64, text: String },
    /// Show or hide the input field of a node.
    InputVisible { node: u64, visible: bool },
    /// Make the ball fixed, put it back where it started, zero its velocity, wake it.
    BallReset { ball: u64 },
    /// Make the ball dynamic and wake it.
    BallStart { ball: u64 },
}

/// The hint with the highest priority among `fx`; the first one of that priority.
pub open spec fn is_best_hint(fx: Seq<Effect>, i: int) -> bool {
    &&& 0 <= i < fx.len()
    &&& fx[i] is Hint
    &&& forall|j: int| 0 <= j < fx.len() && fx[j] is Hint ==> fx[j]->Hint_priority <= fx[i]->Hint_priority
    &&& forall|j: int| 0 <= j < i && fx[j] is Hint ==> fx[j]->Hint_priority < fx[i]->Hint_priority
}

/// Picks the hint to show this tick: the first of the highest priority, or none
/// when no hint was proposed.
pub fn best_hint(fx: &Vec<Effect>) -> (r: Option<usize>)
    ensures
        match r {
            Some(i) => is_best_hint(fx@, i as int),
            None => forall|j: int| 0 <= j < fx@.len() ==> !(fx@[j] is Hint),
        },
{
    let mut best: Option<usize> = None;
    let mut best_p: u32 = 0;
    let mut i: usize = 0;
    while i < fx.len()
        invariant
            i <= fx@.len(),
            match best {
                Some(b) => {
                    &&& b < i
                    &&& fx@[b as int] is Hint
                    &&& fx@[b as int]->Hint_priority == best_p
                    &&& forall|j: int| 0 <= j < i && fx@[j] is Hint ==> fx@[j]->Hint_priority <= best_p
                    &&& forall|j: int| 0 <= j < b && fx@[j] is Hint ==> fx@[j]->Hint_priority < best_p
                },
                None => forall|j: int| 0 <= j < i ==> !(fx@[j] is Hint),
            },
        decreases fx@.len() - i,
    {
        if let Effect::Hint { priority, .. } = &fx[i] {
            if best.is_none() || *priority > best_p {
                best = Some(i);
                best_p = *priority;
            }
        }
        i = i + 1;
    }
    best
}

} // verus!
