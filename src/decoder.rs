//! Turns one metadata entry of a node into a directive: a collider, a rigid
//! body, visibility, light, sound, spawn point, or an action.

use vstd::prelude::*;
use crate::action::{Action, ActionKind};
use crate::animation::{FullAnimationAction, NamedAnimationAction, OneAnimationAction};
use crate::button::{CollisionButtonAction, StandButtonAction};
use crate::chamber::TestChamberAction;
use crate::delay::DelayedAction;
use crate::door::OpenDoorAction;
use crate::error::Reason;
use crate::input::InputFieldAction;
use crate::button::param_duration;
use crate::chamber::chamber_spec;
use crate::delay::delay_config_ok;
use crate::door::door_strategy_of;
use crate::error::Param;
use crate::meta::{millis_of, whole_of, MetaValue, Metadata};
use crate::teleport::{teleport_of, wire_of};
use crate::props::{BallFalling01Action, CollisionAction, LinkOpenerAction};
use crate::teleport::DelayedTeleportAction;
use crate::text::{has_char, strip_prefix, text_eq};

verus! {

#[derive(Clone, Copy, Debug, PartialEq, Eq, Structural)]
pub enum ColliderType {
    FromMeshTris,
    FromMeshConvexHull,
    FromMeshDecomp,
    Ball,
    Cuboid,
    Cone,
    HeightMap,
    FromMeshConvexManual,
}

#[derive(Clone, Copy, Debug, PartialEq, Eq, Structural)]
pub enum RigidBodyKind {
    Dynamic,
    Fixed,
    KinematicPositionBased,
    KinematicVelocityBased,
}

/// Ambient light: an intensity and an RGBA colour, all in thousandths.
#[derive(Clone, Copy, Debug, PartialEq, Eq, Structural)]
pub struct Ambient {
    pub intensity: i64,
    pub red: i64,
    pub green: i64,
    pub blue: i64,
    pub alpha: i64,
}

/// A decoded metadata entry.
pub enum Directive {
    /// Nothing to do with this entry.
    Unhandled,
    /// A parameter read by a sibling entry.
    Resolved,
    PlayerSpawnPoint { ambient: Option<Ambient>, skybox: Option<String> },
    MeshCollider(ColliderType),
    MeshRigidBody(RigidBodyKind),
    ConstructorPlacablePlane,
    PlayerPlacedMirror,
    IsVisible(bool),
    ColliderSensor,
    Light { shadows: bool },
    /// Mass density in thousandths.
    MassProp(i64),
    CollisionAudio(String),
    Action(Action),
}

pub open spec fn action_kind_of(kind: Seq<char>) -> Option<ActionKind> {
    if kind == "open_door"@ {
        Some(ActionKind::OpenDoor)
    } else if kind == "ball_falling_01"@ {
        Some(ActionKind::BallFalling)
    } else if kind == "stand_button"@ {
        Some(ActionKind::StandButton)
    } else if kind == "collision_button"@ {
        Some(ActionKind::CollisionButton)
    } else if kind == "collision_audio"@ {
        Some(ActionKind::CollisionAudio)
    } else if kind == "teleport"@ {
        Some(ActionKind::Teleport)
    } else if kind == "one_animation"@ {
        Some(ActionKind::OneAnimation)
    } else if kind == "full_animation"@ {
        Some(ActionKind::FullAnimation)
    } else if kind == "named_animation"@ {
        Some(ActionKind::NamedAnimation)
    } else if kind == "delay_trasmitter"@ || kind == "delay_transmitter"@ {
        Some(ActionKind::Delay)
    } else if kind == "link"@ {
        Some(ActionKind::Link)
    } else if kind == "input_field"@ {
        Some(ActionKind::InputField)
    } else if kind == "test_chamber"@ {
        Some(ActionKind::TestChamber)
    } else {
        None
    }
}

/// The kind part of an `action:<kind>` key; the kind holds no ':'.
pub open spec fn action_key(key: Seq<char>) -> Option<Seq<char>> {
    let p = "action:"@;
    if p.len() <= key.len() && key.subrange(0, p.len() as int) == p
        && !key.subrange(p.len() as int, key.len() as int).contains(':') {
        Some(key.subrange(p.len() as int, key.len() as int))
    } else {
        None
    }
}

/// The name a decoded action is filed under: its kind, written as in the
/// key (`delay_transmitter` for either spelling); an input field is named
/// after the event it sends.
pub open spec fn default_name(kind: ActionKind, value: MetaValue) -> Seq<char> {
    match kind {
        ActionKind::OpenDoor => "open_door"@,
        ActionKind::BallFalling => "ball_falling_01"@,
        ActionKind::StandButton => "stand_button"@,
        ActionKind::CollisionButton => "collision_button"@,
        ActionKind::CollisionAudio => "collision_audio"@,
        ActionKind::Teleport => "teleport"@,
        ActionKind::OneAnimation => "one_animation"@,
        ActionKind::FullAnimation => "full_animation"@,
        ActionKind::NamedAnimation => "named_animation"@,
        ActionKind::Delay => "delay_transmitter"@,
        ActionKind::Link => "link"@,
        ActionKind::InputField => match value {
            MetaValue::Str(s) => s@,
            _ => Seq::empty(),
        },
        ActionKind::TestChamber => "test_chamber"@,
    }
}

/// Whether `a` is an action that the constructor of `kind` returns for the
/// entry's value and siblings, as that constructor's contract describes it.
pub open spec fn built(kind: ActionKind, value: MetaValue, main: &Metadata, a: Action) -> bool {
    match (kind, a) {
        (ActionKind::OpenDoor, Action::OpenDoor(x)) => OpenDoorAction::new_post(value, Ok(x)),
        (ActionKind::BallFalling, Action::BallFalling(x)) => BallFalling01Action::new_post(value, Ok(x)),
        (ActionKind::StandButton, Action::StandButton(x)) => StandButtonAction::new_post(value, main, Ok(x)),
        (ActionKind::CollisionButton, Action::CollisionButton(x)) => CollisionButtonAction::new_post(value, Ok(x)),
        (ActionKind::CollisionAudio, Action::CollisionAudio(x)) => CollisionAction::new_post(value, main, Ok(x)),
        (ActionKind::Teleport, Action::Teleport(x)) => DelayedTeleportAction::new_post(value, Ok(x)),
        (ActionKind::OneAnimation, Action::OneAnimation(x)) => OneAnimationAction::new_post(value, Ok(x)),
        (ActionKind::FullAnimation, Action::FullAnimation(x)) => FullAnimationAction::new_post(value, Ok(x)),
        (ActionKind::NamedAnimation, Action::NamedAnimation(x)) => NamedAnimationAction::new_post(value, Ok(x)),
        (ActionKind::Delay, Action::Delay(x)) => DelayedAction::new_post(value, Ok(x)),
        (ActionKind::Link, Action::Link(x)) => LinkOpenerAction::new_post(value, Ok(x)),
        (ActionKind::InputField, Action::InputField(x)) => InputFieldAction::new_post(value, Ok(x)),
        (ActionKind::TestChamber, Action::TestChamber(x)) => TestChamberAction::new_post(value, main, Ok(x)),
        _ => false,
    }
}

/// Whether an action's variant is the one its kind names.
pub open spec fn kind_matches(a: Action, k: ActionKind) -> bool {
    a.kind() == k
}

/// Whether the constructor of `kind` accepts the entry's value and siblings.
pub open spec fn builds(kind: ActionKind, value: MetaValue, main: Metadata) -> bool {
    match kind {
        ActionKind::OpenDoor => door_strategy_of(value) is Some,
        ActionKind::BallFalling => value is Array && value->Array_0@.len() >= 2 && value->Array_0@[0] is Nat
            && value->Array_0@[1] is Nat,
        ActionKind::StandButton => value is Nat && param_duration(&main, "#cooldown"@) is Some
            && param_duration(&main, "#press_longetivity"@) is Some,
        ActionKind::CollisionButton => value is Nat,
        ActionKind::CollisionAudio => value is Str,
        ActionKind::Teleport => value is Array && teleport_of(value->Array_0@) is Some,
        ActionKind::OneAnimation => value is Nat,
        ActionKind::FullAnimation => value is Array && value->Array_0@.len() >= 4
            && whole_of(value->Array_0@[0]) is Some && whole_of(value->Array_0@[1]) is Some
            && whole_of(value->Array_0@[2]) is Some && whole_of(value->Array_0@[3]) is Some,
        ActionKind::NamedAnimation => value is Array && value->Array_0@.len() >= 2
            && wire_of(value->Array_0@[0]) is Some && value->Array_0@[1] is Str,
        ActionKind::Delay => value is Array && delay_config_ok(value->Array_0@),
        ActionKind::Link => value is Str,
        ActionKind::InputField => value is Str,
        ActionKind::TestChamber => chamber_spec(value, main) is Ok,
    }
}

/// The authoring error a constructor reports when it rejects the entry.
pub open spec fn build_error(kind: ActionKind, value: MetaValue, main: Metadata) -> Reason {
    match kind {
        ActionKind::StandButton => if !(value is Nat) {
            Reason::BadValue
        } else if param_duration(&main, "#cooldown"@) is None {
            Reason::BadParam(Param::Cooldown)
        } else {
            Reason::BadParam(Param::PressLongetivity)
        },
        ActionKind::Delay => if value is Array && value->Array_0@.len() != 5 {
            Reason::Arity
        } else {
            Reason::BadValue
        },
        ActionKind::TestChamber => match chamber_spec(value, main) {
            Err(e) => e,
            Ok(_) => Reason::BadValue,
        },
        _ => Reason::BadValue,
    }
}

/// Keys that sibling entries read; they decode to `Resolved`.
pub open spec fn is_parameter_key(k: Seq<char>) -> bool {
    k == "ambient_intensity"@ || k == "ambient_color"@ || k == "skybox"@ || k == "collider_type"@
        || k == "sun_intensity"@ || k == "sun_color"@ || k == "sun_shadows"@
}

pub open spec fn is_true(v: MetaValue) -> bool {
    v == MetaValue::Bool(true)
}

/// A number in thousandths that fits an `i64`.
pub open spec fn milli_i64(v: MetaValue) -> Option<i64> {
    match millis_of(v) {
        Some(m) => if i64::MIN <= m <= i64::MAX { Some(m as i64) } else { None },
        None => None,
    }
}

/// The ambient light of a spawn point: both `ambient_intensity` and the first
/// four numbers of `ambient_color` must read.
pub open spec fn ambient_of(main: Metadata) -> Option<Ambient> {
    match (main.get_spec("ambient_intensity"@), main.get_spec("ambient_color"@)) {
        (Some(i), Some(MetaValue::Array(c))) => if milli_i64(i) is Some && c@.len() >= 4
            && milli_i64(c@[0]) is Some && milli_i64(c@[1]) is Some && milli_i64(c@[2]) is Some
            && milli_i64(c@[3]) is Some {
            Some(Ambient {
                intensity: milli_i64(i).unwrap(),
                red: milli_i64(c@[0]).unwrap(),
                green: milli_i64(c@[1]).unwrap(),
                blue: milli_i64(c@[2]).unwrap(),
                alpha: milli_i64(c@[3]).unwrap(),
            })
        } else {
            None
        },
        _ => None,
    }
}

pub open spec fn collider_of(t: Seq<char>) -> Result<ColliderType, Reason> {
    if t == "tris"@ {
        Ok(ColliderType::FromMeshTris)
    } else if t == "hull"@ {
        Ok(ColliderType::FromMeshConvexHull)
    } else if t == "decomposition"@ {
        Ok(ColliderType::FromMeshDecomp)
    } else if t == "from_mesh_convex"@ {
        Ok(ColliderType::FromMeshConvexManual)
    } else if t == "ball"@ {
        Ok(ColliderType::Ball)
    } else if t == "cuboid"@ {
        Ok(ColliderType::Cuboid)
    } else if t == "cone"@ {
        Ok(ColliderType::Cone)
    } else if t == "heightmap"@ {
        Ok(ColliderType::HeightMap)
    } else {
        Err(Reason::UnknownColliderType)
    }
}

pub open spec fn rigid_body_of(t: Seq<char>) -> Option<RigidBodyKind> {
    if t == "Dynamic"@ {
        Some(RigidBodyKind::Dynamic)
    } else if t == "Fixed"@ {
        Some(RigidBodyKind::Fixed)
    } else if t == "KPB"@ {
        Some(RigidBodyKind::KinematicPositionBased)
    } else if t == "KVB"@ {
        Some(RigidBodyKind::KinematicVelocityBased)
    } else {
        None
    }
}

fn read_milli(v: &MetaValue) -> (r: Option<i64>)
    ensures
        r == milli_i64(*v),
{
    match v {
        MetaValue::Nat(n) => if *n <= (i64::MAX as u64) / 1000 { Some((*n as i64) * 1000) } else {
            assert(*n * 1000 > i64::MAX) by (nonlinear_arith)
                requires *n > i64::MAX / 1000;
            None
        },
        MetaValue::Neg(n) => if *n >= -9223372036854775i64 && *n <= 9223372036854775i64 { Some(*n * 1000) } else {
            assert(*n * 1000 > i64::MAX || *n * 1000 < i64::MIN) by (nonlinear_arith)
                requires *n > 9223372036854775i64 || *n < -9223372036854775i64;
            None
        },
        MetaValue::Frac(m) => Some(*m),
        _ => None,
    }
}

fn read_ambient(main: &Metadata) -> (r: Option<Ambient>)
    ensures
        r == ambient_of(*main),
{
    let i = match main.get("ambient_intensity") {
        Some(i) => read_milli(i),
        None => None,
    };
    let c = match main.get("ambient_color") {
        Some(MetaValue::Array(c)) => c,
        _ => {
            return None;
        },
    };
    if c.len() < 4 {
        return None;
    }
    match (i, read_milli(&c[0]), read_milli(&c[1]), read_milli(&c[2]), read_milli(&c[3])) {
        (Some(intensity), Some(red), Some(green), Some(blue), Some(alpha)) => Some(Ambient { intensity, red, green, blue, alpha }),
        _ => None,
    }
}

fn read_collider(t: &str) -> (r: Result<ColliderType, Reason>)
    ensures
        r == collider_of(t@),
{
    if text_eq(t, "tris") {
        Ok(ColliderType::FromMeshTris)
    } else if text_eq(t, "hull") {
        Ok(ColliderType::FromMeshConvexHull)
    } else if text_eq(t, "decomposition") {
        Ok(ColliderType::FromMeshDecomp)
    } else if text_eq(t, "from_mesh_convex") {
        Ok(ColliderType::FromMeshConvexManual)
    } else if text_eq(t, "ball") {
        Ok(ColliderType::Ball)
    } else if text_eq(t, "cuboid") {
        Ok(ColliderType::Cuboid)
    } else if text_eq(t, "cone") {
        Ok(ColliderType::Cone)
    } else if text_eq(t, "heightmap") {
        Ok(ColliderType::HeightMap)
    } else {
        Err(Reason::UnknownColliderType)
    }
}

fn read_rigid_body(t: &str) -> (r: Option<RigidBodyKind>)
    ensures
        r == rigid_body_of(t@),
{
    if text_eq(t, "Dynamic") {
        Some(RigidBodyKind::Dynamic)
    } else if text_eq(t, "Fixed") {
        Some(RigidBodyKind::Fixed)
    } else if text_eq(t, "KPB") {
        Some(RigidBodyKind::KinematicPositionBased)
    } else if text_eq(t, "KVB") {
        Some(RigidBodyKind::KinematicVelocityBased)
    } else {
        None
    }
}

fn read_action_kind(k: &str) -> (r: Option<ActionKind>)
    ensures
        r == action_kind_of(k@),
{
    if text_eq(k, "open_door") {
        Some(ActionKind::OpenDoor)
    } else if text_eq(k, "ball_falling_01") {
        Some(ActionKind::BallFalling)
    } else if text_eq(k, "stand_button") {
        Some(ActionKind::StandButton)
    } else if text_eq(k, "collision_button") {
        Some(ActionKind::CollisionButton)
    } else if text_eq(k, "collision_audio") {
        Some(ActionKind::CollisionAudio)
    } else if text_eq(k, "teleport") {
        Some(ActionKind::Teleport)
    } else if text_eq(k, "one_animation") {
        Some(ActionKind::OneAnimation)
    } else if text_eq(k, "full_animation") {
        Some(ActionKind::FullAnimation)
    } else if text_eq(k, "named_animation") {
        Some(ActionKind::NamedAnimation)
    } else if text_eq(k, "delay_trasmitter") || text_eq(k, "delay_transmitter") {
        Some(ActionKind::Delay)
    } else if text_eq(k, "link") {
        Some(ActionKind::Link)
    } else if text_eq(k, "input_field") {
        Some(ActionKind::InputField)
    } else if text_eq(k, "test_chamber") {
        Some(ActionKind::TestChamber)
    } else {
        None
    }
}

/// Builds the action that `kind` names from the entry's value and its siblings.
#[verifier::rlimit(100)]
pub fn build_action(kind: ActionKind, value: &MetaValue, main: &Metadata) -> (r: Result<Action, Reason>)
    ensures
        r matches Ok(a) ==> kind_matches(a, kind),
        r matches Ok(a) ==> a.name_spec() == default_name(kind, *value),
        r matches Ok(a) ==> built(kind, *value, main, a),
        r is Ok <==> builds(kind, *value, *main),
        r is Err ==> r == Err::<Action, Reason>(build_error(kind, *value, *main)),
{
    match kind {
        ActionKind::OpenDoor => match OpenDoorAction::new(value) {
            Ok(a) => Ok(Action::OpenDoor(a)),
            Err(e) => Err(e),
        },
        ActionKind::BallFalling => match BallFalling01Action::new(value) {
            Ok(a) => Ok(Action::BallFalling(a)),
            Err(e) => Err(e),
        },
        ActionKind::StandButton => match StandButtonAction::new(value, main) {
            Ok(a) => Ok(Action::StandButton(a)),
            Err(e) => Err(e),
        },
        ActionKind::CollisionButton => match CollisionButtonAction::new(value) {
            Ok(a) => Ok(Action::CollisionButton(a)),
            Err(e) => Err(e),
        },
        ActionKind::CollisionAudio => match CollisionAction::new(value, main) {
            Ok(a) => Ok(Action::CollisionAudio(a)),
            Err(e) => Err(e),
        },
        ActionKind::Teleport => match DelayedTeleportAction::new(value) {
            Ok(a) => Ok(Action::Teleport(a)),
            Err(e) => Err(e),
        },
        ActionKind::OneAnimation => match OneAnimationAction::new(value) {
            Ok(a) => Ok(Action::OneAnimation(a)),
            Err(e) => Err(e),
        },
        ActionKind::FullAnimation => match FullAnimationAction::new(value) {
            Ok(a) => Ok(Action::FullAnimation(a)),
            Err(e) => Err(e),
        },
        ActionKind::NamedAnimation => match NamedAnimationAction::new(value) {
            Ok(a) => Ok(Action::NamedAnimation(a)),
            Err(e) => Err(e),
        },
        ActionKind::Delay => match DelayedAction::new(value) {
            Ok(a) => Ok(Action::Delay(a)),
            Err(e) => Err(e),
        },
        ActionKind::Link => match LinkOpenerAction::new(value) {
            Ok(a) => Ok(Action::Link(a)),
            Err(e) => Err(e),
        },
        ActionKind::InputField => match InputFieldAction::new(value) {
            Ok(a) => Ok(Action::InputField(a)),
            Err(e) => Err(e),
        },
        ActionKind::TestChamber => match TestChamberAction::new(value, main) {
            Ok(a) => Ok(Action::TestChamber(a)),
            Err(e) => Err(e),
        },
    }
}

/// The kind of an `action:<kind>` key.
pub fn split_action_key(name: &str) -> (r: Option<&str>)
    ensures
        match action_key(name@) {
            Some(k) => r matches Some(x) && x@ == k,
            None => r is None,
        },
{
    proof { reveal_strlit("action:"); }
    match strip_prefix(name, "action:") {
        Some(rest) => {
            assert(name@.subrange(0, 7) =~= "action:"@);
            assert(name@.subrange(7, name@.len() as int) =~= rest@);
            if has_char(rest, ':') {
                None
            } else {
                Some(rest)
            }
        },
        None => None,
    }
}

/// What `convert` gives for an entry, in the first case that applies: the
/// shape of the directive, or the authoring error.
pub open spec fn convert_spec(name: Seq<char>, value: MetaValue, main: Metadata, r: Result<Directive, Reason>) -> bool {
    if is_parameter_key(name) {
        r matches Ok(Directive::Resolved)
    } else if name == "spawn_point"@ && is_true(value) {
        r matches Ok(Directive::PlayerSpawnPoint { ambient, skybox }) && ambient == ambient_of(main)
            && match main.get_spec("skybox"@) {
                Some(MetaValue::Str(s)) => skybox matches Some(k) && k@ == s@,
                _ => skybox is None,
            }
    } else if name == "mesh_collider_marker"@ && is_true(value) {
        match main.get_spec("collider_type"@) {
            Some(MetaValue::Str(t)) => match collider_of(t@) {
                Ok(c) => r == Ok::<Directive, Reason>(Directive::MeshCollider(c)),
                Err(e) => r == Err::<Directive, Reason>(e),
            },
            _ => r == Err::<Directive, Reason>(Reason::MissingColliderType),
        }
    } else if name == "rigidbody"@ && value is Str {
        match rigid_body_of(value->Str_0@) {
            Some(k) => r == Ok::<Directive, Reason>(Directive::MeshRigidBody(k)),
            None => r matches Ok(Directive::Unhandled),
        }
    } else if name == "placable_plane"@ && is_true(value) {
        r matches Ok(Directive::ConstructorPlacablePlane)
    } else if name == "placed_mirror"@ && is_true(value) {
        r matches Ok(Directive::PlayerPlacedMirror)
    } else if name == "is_visible"@ {
        match value {
            MetaValue::Bool(b) => r == Ok::<Directive, Reason>(Directive::IsVisible(b)),
            _ => r == Err::<Directive, Reason>(Reason::BadValue),
        }
    } else if name == "collider_sensor"@ && is_true(value) {
        r matches Ok(Directive::ColliderSensor)
    } else if name == "shadows"@ {
        r == Ok::<Directive, Reason>(Directive::Light { shadows: is_true(value) })
    } else if name == "audio_on_collision"@ && value is Str {
        r matches Ok(Directive::CollisionAudio(p)) && p@ == value->Str_0@
    } else if name == "density"@ && value is Frac {
        r == Ok::<Directive, Reason>(Directive::MassProp(value->Frac_0))
    } else {
        match action_key(name) {
            Some(k) => match action_kind_of(k) {
                Some(kind) => if builds(kind, value, main) {
                    r matches Ok(Directive::Action(a)) && kind_matches(a, kind)
                        && a.name_spec() == default_name(kind, value) && built(kind, value, &main, a)
                } else {
                    r == Err::<Directive, Reason>(build_error(kind, value, main))
                },
                None => r matches Ok(Directive::Unhandled),
            },
            None => r matches Ok(Directive::Unhandled),
        }
    }
}

/// Decodes the metadata entry `name = value` of a node whose whole metadata is `main`.
pub fn convert(name: &str, value: &MetaValue, main: &Metadata) -> (r: Result<Directive, Reason>)
    ensures
        convert_spec(name@, *value, *main, r),
{
    if text_eq(name, "ambient_intensity") || text_eq(name, "ambient_color") || text_eq(name, "skybox")
        || text_eq(name, "collider_type") || text_eq(name, "sun_intensity") || text_eq(name, "sun_color")
        || text_eq(name, "sun_shadows") {
        return Ok(Directive::Resolved);
    }
    let truth = match value.as_bool() {
        Some(b) => b,
        None => false,
    };
    if text_eq(name, "spawn_point") && truth {
        let ambient = read_ambient(main);
        let skybox = match main.get("skybox") {
            Some(MetaValue::Str(s)) => Some(s.clone()),
            _ => None,
        };
        return Ok(Directive::PlayerSpawnPoint { ambient, skybox });
    }
    if text_eq(name, "mesh_collider_marker") && truth {
        return match main.get("collider_type") {
            Some(MetaValue::Str(t)) => match read_collider(t.as_str()) {
                Ok(c) => Ok(Directive::MeshCollider(c)),
                Err(e) => Err(e),
            },
            _ => Err(Reason::MissingColliderType),
        };
    }
    if text_eq(name, "rigidbody") {
        if let MetaValue::Str(t) = value {
            return match read_rigid_body(t.as_str()) {
                Some(k) => Ok(Directive::MeshRigidBody(k)),
                None => Ok(Directive::Unhandled),
            };
        }
    }
    if text_eq(name, "placable_plane") && truth {
        return Ok(Directive::ConstructorPlacablePlane);
    }
    if text_eq(name, "placed_mirror") && truth {
        return Ok(Directive::PlayerPlacedMirror);
    }
    if text_eq(name, "is_visible") {
        return match value.as_bool() {
            Some(b) => Ok(Directive::IsVisible(b)),
            None => Err(Reason::BadValue),
        };
    }
    if text_eq(name, "collider_sensor") && truth {
        return Ok(Directive::ColliderSensor);
    }
    if text_eq(name, "shadows") {
        return Ok(Directive::Light { shadows: truth });
    }
    if text_eq(name, "audio_on_collision") {
        if let MetaValue::Str(p) = value {
            return Ok(Directive::CollisionAudio(p.clone()));
        }
    }
    if text_eq(name, "density") {
        if let MetaValue::Frac(m) = value {
            return Ok(Directive::MassProp(*m));
        }
    }
    match split_action_key(name) {
        Some(k) => match read_action_kind(k) {
            Some(kind) => match build_action(kind, value, main) {
                Ok(a) => Ok(Directive::Action(a)),
                Err(e) => Err(e),
            },
            None => Ok(Directive::Unhandled),
        },
        None => Ok(Directive::Unhandled),
    }
}

} // verus!
