//! A two-leaf door, opened by the player or by a button signal.

use vstd::prelude::*;
use crate::error::{Reason, Role, StartupError};
use crate::meta::MetaValue;
use crate::number::{digits_value, is_u64_text, parse_u64};
use crate::signal::BusView;
use crate::signal::{last_with_id, SignalBus};
use crate::text::{strip_prefix, text_eq};
use crate::world::{Child, Effect, Frame, Reach, Sense, Surroundings};

verus! {

#[derive(Clone, Copy, Debug, PartialEq, Eq, Structural)]
pub enum DoorOpenStrategy {
    /// The player opens and closes it with E.
    Player,
    /// It follows the button states on this wire.
    HandledBy(u64),
    Obstructed,
    Broken,
}

pub struct OpenDoorAction {
    pub startup: bool,
    pub name: String,
    pub is_opened: bool,
    pub opening_strategy: DoorOpenStrategy,
    pub hint: String,
    pub usage_area_entity: u64,
    pub door_top_entity: u64,
    pub door_bottom_entity: u64,
}

/// How a door's configuration value reads: `"openable"`, or a wire id as a
/// number or as decimal text.
pub open spec fn door_strategy_of(v: MetaValue) -> Option<DoorOpenStrategy> {
    match v {
        MetaValue::Str(s) => if s@ == "openable"@ {
            Some(DoorOpenStrategy::Player)
        } else if is_u64_text(s@) {
            Some(DoorOpenStrategy::HandledBy(digits_value(s@) as u64))
        } else {
            None
        },
        MetaValue::Nat(n) => Some(DoorOpenStrategy::HandledBy(n)),
        _ => None,
    }
}

/// The leaf turns that take a door from `from` to `to`: left +1/4 and right
/// -1/4 when opening, the reverse when closing, nothing when unchanged.
pub open spec fn leaf_turns(left: u64, right: u64, from: bool, to: bool) -> Seq<Effect> {
    if from == to {
        Seq::empty()
    } else if to {
        seq![
            Effect::RotateLeaf { node: left, quarter_turns: 1 },
            Effect::RotateLeaf { node: right, quarter_turns: -1i64 },
        ]
    } else {
        seq![
            Effect::RotateLeaf { node: left, quarter_turns: -1i64 },
            Effect::RotateLeaf { node: right, quarter_turns: 1 },
        ]
    }
}

/// The last child whose name starts with `prefix`.
pub open spec fn last_child_with_prefix(c: Seq<Child>, prefix: Seq<char>) -> Option<u64>
    decreases c.len(),
{
    if c.len() == 0 {
        None
    } else if prefix.len() <= c.last().name@.len() && c.last().name@.subrange(0, prefix.len() as int) == prefix {
        Some(c.last().node)
    } else {
        last_child_with_prefix(c.drop_last(), prefix)
    }
}

/// Finds the last child whose name starts with `prefix`.
pub fn find_child(children: &Vec<Child>, prefix: &str) -> (r: Option<u64>)
    ensures
        r == last_child_with_prefix(children@, prefix@),
{
    let mut r: Option<u64> = None;
    let mut i: usize = 0;
    while i < children.len()
        invariant
            i <= children@.len(),
            r == last_child_with_prefix(children@.subrange(0, i as int), prefix@),
        decreases children@.len() - i,
    {
        assert(children@.subrange(0, i + 1).drop_last() =~= children@.subrange(0, i as int));
        assert(children@.subrange(0, i + 1).last() == children@[i as int]);
        match strip_prefix(children[i].name.as_str(), prefix) {
            Some(_) => {
                assert(children@[i as int].name@.subrange(0, prefix@.len() as int) =~= prefix@);
                r = Some(children[i].node);
            },
            None => {},
        }
        i = i + 1;
    }
    assert(children@.subrange(0, i as int) =~= children@);
    r
}

impl OpenDoorAction {
    /// What `new` guarantees.
    pub open spec fn new_post(value: MetaValue, r: Result<OpenDoorAction, Reason>) -> bool {
        &&& (match door_strategy_of(value) {
                    Some(st) => r matches Ok(a) && a.opening_strategy == st && !a.startup
                        && !a.is_opened && a.name@ == "open_door"@ && a.hint@ == "Open door"@,
                    None => r == Err::<OpenDoorAction, Reason>(Reason::BadValue),
                })
    }

    /// Builds a door from its configuration value.
    pub fn new(value: &MetaValue) -> (r: Result<OpenDoorAction, Reason>)
        ensures
            Self::new_post(*value, r),

    {
        let st = match value {
            MetaValue::Str(s) => {
                if text_eq(s.as_str(), "openable") {
                    DoorOpenStrategy::Player
                } else {
                    match parse_u64(s.as_str()) {
                        Some(id) => DoorOpenStrategy::HandledBy(id),
                        None => {
                            return Err(Reason::BadValue);
                        },
                    }
                }
            },
            MetaValue::Nat(n) => DoorOpenStrategy::HandledBy(*n),
            _ => {
                return Err(Reason::BadValue);
            },
        };
        Ok(OpenDoorAction {
            startup: false,
            name: "open_door".to_owned(),
            is_opened: false,
            opening_strategy: st,
            hint: "Open door".to_owned(),
            usage_area_entity: 0,
            door_top_entity: 0,
            door_bottom_entity: 0,
        })
    }

    /// The player must be within 1.3 m of the usage area and aim at it within 2 m.
    pub fn reach(&self) -> (r: Reach)
        ensures
            r == (Reach { max_distance_cm: 130, ray_cm: 200 }),
    {
        Reach { max_distance_cm: 130, ray_cm: 200 }
    }

    /// Finds the usage area and the two leaves among the node's children, and
    /// makes the usage area visible to every ray but its own group. Does
    /// nothing after the first success.
    pub fn try_startup(&mut self, s: &Surroundings, fx: &mut Vec<Effect>) -> (r: Result<(), StartupError>)
        ensures
            old(self).startup ==> r is Ok && *final(self) == *old(self) && final(fx)@ == old(fx)@,
            !old(self).startup ==> {
                let area = last_child_with_prefix(s.children@, "system:Usage_door"@);
                let left = last_child_with_prefix(s.children@, "system:Door_Left"@);
                let right = last_child_with_prefix(s.children@, "system:Door_Right"@);
                if area is Some && left is Some && right is Some {
                    &&& r is Ok
                    &&& final(self).startup
                    &&& final(self).usage_area_entity == area.unwrap()
                    &&& final(self).door_top_entity == left.unwrap()
                    &&& final(self).door_bottom_entity == right.unwrap()
                    &&& final(self).is_opened == old(self).is_opened
                    &&& final(self).opening_strategy == old(self).opening_strategy
                    &&& final(self).name == old(self).name
                    &&& final(self).hint == old(self).hint
                    &&& final(fx)@ == old(fx)@.push(Effect::CollisionGroups {
                        node: area.unwrap(),
                        members: (u32::MAX - 1) as u32,
                        filters: (u32::MAX - 1) as u32,
                        override_groups: true,
                    })
                } else {
                    &&& r is Err
                    &&& *final(self) == *old(self)
                    &&& final(fx)@ == old(fx)@
                    &&& area is None ==> r == Err::<(), StartupError>(StartupError::MissingChild(Role::UsageArea))
                    &&& area is Some && left is None ==> r == Err::<(), StartupError>(StartupError::MissingChild(Role::DoorLeft))
                    &&& area is Some && left is Some ==> r == Err::<(), StartupError>(StartupError::MissingChild(Role::DoorRight))
                }
            },
    {
        if self.startup {
            return Ok(());
        }
        let area = find_child(&s.children, "system:Usage_door");
        let left = find_child(&s.children, "system:Door_Left");
        let right = find_child(&s.children, "system:Door_Right");
        match (area, left, right) {
            (Some(a), Some(l), Some(rr)) => {
                self.usage_area_entity = a;
                self.door_top_entity = l;
                self.door_bottom_entity = rr;
                fx.push(Effect::CollisionGroups {
                    node: a,
                    members: u32::MAX - 1,
                    filters: u32::MAX - 1,
                    override_groups: true,
                });
                self.startup = true;
                Ok(())
            },
            (None, _, _) => Err(StartupError::MissingChild(Role::UsageArea)),
            (_, None, _) => Err(StartupError::MissingChild(Role::DoorLeft)),
            (_, _, None) => Err(StartupError::MissingChild(Role::DoorRight)),
        }
    }

    /// What `predicate` guarantees.
    pub open spec fn predicate_post(a: Self, sense: Sense, r: bool) -> bool {
        &&& (r == match a.opening_strategy {
                    DoorOpenStrategy::Player => sense.aimed,
                    DoorOpenStrategy::HandledBy(_) => true,
                    _ => false,
                })
    }

    /// Player mode: the player aims at the usage area. Remote mode: always.
    pub fn predicate(&self, sense: Sense) -> (r: bool)
        ensures
            Self::predicate_post(*self, sense, r),

    {
        match self.opening_strategy {
            DoorOpenStrategy::Player => sense.aimed,
            DoorOpenStrategy::HandledBy(_) => true,
            _ => false,
        }
    }

    /// What `execute` guarantees.
    pub open spec fn execute_post(pre: Self, post: Self, frame: Frame, bus: BusView, f0: Seq<Effect>, f1: Seq<Effect>, r: bool) -> bool {
        &&& (post.startup == pre.startup)
        &&& (post.name == pre.name)
        &&& (post.hint == pre.hint)
        &&& (post.opening_strategy == pre.opening_strategy)
        &&& (post.usage_area_entity == pre.usage_area_entity)
        &&& (post.door_top_entity == pre.door_top_entity)
        &&& (post.door_bottom_entity == pre.door_bottom_entity)
        &&& (({
                    let hint = Effect::Hint { text: pre.hint, priority: 1, key_e: true };
                    let turns = leaf_turns(
                        pre.door_top_entity,
                        pre.door_bottom_entity,
                        pre.is_opened,
                        post.is_opened,
                    );
                    match pre.opening_strategy {
                        DoorOpenStrategy::Player => if frame.e_pressed {
                            &&& r
                            &&& post.is_opened == !pre.is_opened
                            &&& f1 == f0.push(hint) + turns
                        } else {
                            &&& !r
                            &&& post.is_opened == pre.is_opened
                            &&& f1 == f0.push(hint)
                        },
                        DoorOpenStrategy::HandledBy(id) => match last_with_id(bus.visible_buttons(), id) {
                            Some(b) => {
                                &&& r
                                &&& post.is_opened == b.is_pressed
                                &&& f1 == f0 + turns
                            },
                            None => {
                                &&& !r
                                &&& post.is_opened == pre.is_opened
                                &&& f1 == f0
                            },
                        },
                        _ => !r && post.is_opened == pre.is_opened && f1 == f0,
                    }
                }))
    }

    /// Player mode: proposes the hint and toggles the door on E. Remote mode:
    /// the door takes the pressed state of the newest signal on its wire.
    /// The leaves turn by the difference.
    pub fn execute(&mut self, frame: &Frame, bus: &SignalBus, fx: &mut Vec<Effect>) -> (r: bool)
        ensures
            Self::execute_post(*old(self), *final(self), *frame, bus@, old(fx)@, final(fx)@, r),

    {
        let should_be_opened;
        match self.opening_strategy {
            DoorOpenStrategy::Player => {
                fx.push(Effect::Hint { text: self.hint.clone(), priority: 1, key_e: true });
                if !frame.e_pressed {
                    return false;
                }
                should_be_opened = !self.is_opened;
            },
            DoorOpenStrategy::HandledBy(id) => {
                match bus.latest_button(id) {
                    Some(b) => {
                        should_be_opened = b.is_pressed;
                    },
                    None => {
                        return false;
                    },
                }
            },
            _ => {
                return false;
            },
        }
        let ghost before = fx@;
        if should_be_opened != self.is_opened {
            let (l, rr): (i64, i64) = if should_be_opened { (1, -1) } else { (-1, 1) };
            fx.push(Effect::RotateLeaf { node: self.door_top_entity, quarter_turns: l });
            fx.push(Effect::RotateLeaf { node: self.door_bottom_entity, quarter_turns: rr });
        }
        self.is_opened = should_be_opened;
        assert(fx@ =~= before + leaf_turns(
            self.door_top_entity,
            self.door_bottom_entity,
            old(self).is_opened,
            self.is_opened,
        ));
        true
    }
}

} // verus!
