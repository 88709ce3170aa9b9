//! The action library as one tagged type, with the uniform lifecycle
//! `startup → predicate → execute`.

use vstd::prelude::*;
use crate::animation::{FullAnimationAction, NamedAnimationAction, OneAnimationAction};
use crate::button::{CollisionButtonAction, StandButtonAction};
use crate::chamber::TestChamberAction;
use crate::delay::DelayedAction;
use crate::door::OpenDoorAction;
use crate::signal::BusView;
use crate::error::StartupError;
use crate::input::InputFieldAction;
use crate::props::{BallFalling01Action, CollisionAction, LinkOpenerAction};
use crate::signal::SignalBus;
use crate::teleport::{DelayedTeleportAction, TeleportDestination};
use crate::world::{Effect, Frame, Reach, Sense, Surroundings};

verus! {

/// Which constructor an `action:<kind>` key names.
#[derive(Clone, Copy, Debug, PartialEq, Eq, Structural)]
pub enum ActionKind {
    OpenDoor,
    BallFalling,
    StandButton,
    CollisionButton,
    CollisionAudio,
    Teleport,
    OneAnimation,
    FullAnimation,
    NamedAnimation,
    Delay,
    Link,
    InputField,
    TestChamber,
}

pub enum Action {
    OpenDoor(OpenDoorAction),
    StandButton(StandButtonAction),
    CollisionButton(CollisionButtonAction),
    Delay(DelayedAction),
    Teleport(DelayedTeleportAction),
    OneAnimation(OneAnimationAction),
    FullAnimation(FullAnimationAction),
    NamedAnimation(NamedAnimationAction),
    CollisionAudio(CollisionAction),
    Link(LinkOpenerAction),
    InputField(InputFieldAction),
    TestChamber(TestChamberAction),
    BallFalling(BallFalling01Action),
}

/// What `Action::predicate` guarantees: the variant's own predicate contract.
pub open spec fn predicate_post(
    a0: Action, a1: Action, frame: Frame, sense: Sense,
    b0: BusView, b1: BusView, f0: Seq<Effect>, f1: Seq<Effect>, r: bool,
) -> bool {
    match (a0, a1) {
        (Action::OpenDoor(x), Action::OpenDoor(y)) => OpenDoorAction::predicate_post(x, sense, r) && y == x && b1 == b0 && f1 == f0,
        (Action::StandButton(x), Action::StandButton(y)) => StandButtonAction::predicate_post(x, y, frame, sense, b0, b1, r) && f1 == f0,
        (Action::CollisionButton(x), Action::CollisionButton(y)) => CollisionButtonAction::predicate_post(x, y, sense, b0, b1, r) && f1 == f0,
        (Action::Delay(x), Action::Delay(y)) => DelayedAction::predicate_post(x, y, frame.now_ms, b0, r) && b1 == b0 && f1 == f0,
        (Action::Teleport(x), Action::Teleport(y)) => DelayedTeleportAction::predicate_post(x, b0, r) && y == x && b1 == b0 && f1 == f0,
        (Action::OneAnimation(x), Action::OneAnimation(y)) => OneAnimationAction::predicate_post(x, y, b0, r) && b1 == b0 && f1 == f0,
        (Action::FullAnimation(x), Action::FullAnimation(y)) => FullAnimationAction::predicate_post(x, y, b0, f0, f1, r) && b1 == b0,
        (Action::NamedAnimation(x), Action::NamedAnimation(y)) => NamedAnimationAction::predicate_post(x, y, b0, r) && b1 == b0 && f1 == f0,
        (Action::CollisionAudio(x), Action::CollisionAudio(y)) => CollisionAction::predicate_post(x, y, frame.now_ms, sense, f0, f1, r) && b1 == b0,
        (Action::Link(x), Action::Link(y)) => LinkOpenerAction::predicate_post(x, sense, r) && y == x && b1 == b0 && f1 == f0,
        (Action::InputField(x), Action::InputField(y)) => InputFieldAction::predicate_post(x, y, frame, sense, f0, f1, r) && b1 == b0,
        (Action::TestChamber(x), Action::TestChamber(y)) => TestChamberAction::predicate_post(x, y, b0, b1, r) && f1 == f0,
        (Action::BallFalling(x), Action::BallFalling(y)) => BallFalling01Action::predicate_post(x, y, b0, r) && b1 == b0 && f1 == f0,
        _ => false,
    }
}

/// What `Action::execute` guarantees: the variant's own execute contract.
/// A collision button or sound never executes anything.
pub open spec fn execute_post(
    a0: Action, a1: Action, frame: Frame,
    b0: BusView, b1: BusView, f0: Seq<Effect>, f1: Seq<Effect>, r: bool,
) -> bool {
    match (a0, a1) {
        (Action::OpenDoor(x), Action::OpenDoor(y)) => OpenDoorAction::execute_post(x, y, frame, b0, f0, f1, r) && b1 == b0,
        (Action::StandButton(x), Action::StandButton(y)) => StandButtonAction::execute_post(x, y, frame, b0, b1, f0, f1, r),
        (Action::CollisionButton(x), Action::CollisionButton(y)) => !r && y == x && b1 == b0 && f1 == f0,
        (Action::Delay(x), Action::Delay(y)) => DelayedAction::execute_post(x, y, b0, b1, r) && f1 == f0,
        (Action::Teleport(x), Action::Teleport(y)) => DelayedTeleportAction::execute_post(x, f0, f1, r) && y == x && b1 == b0,
        (Action::OneAnimation(x), Action::OneAnimation(y)) => OneAnimationAction::execute_post(x, f0, f1, r) && y == x && b1 == b0,
        (Action::FullAnimation(x), Action::FullAnimation(y)) => FullAnimationAction::execute_post(x, f0, f1, r) && y == x && b1 == b0,
        (Action::NamedAnimation(x), Action::NamedAnimation(y)) => NamedAnimationAction::execute_post(x, f0, f1, r) && y == x && b1 == b0,
        (Action::CollisionAudio(x), Action::CollisionAudio(y)) => !r && y == x && b1 == b0 && f1 == f0,
        (Action::Link(x), Action::Link(y)) => LinkOpenerAction::execute_post(x, frame, f0, f1, r) && y == x && b1 == b0,
        (Action::InputField(x), Action::InputField(y)) => InputFieldAction::execute_post(x, y, b0, b1, f0, f1, r),
        (Action::TestChamber(x), Action::TestChamber(y)) => TestChamberAction::execute_post(x, b0, b1, r) && y == x && f1 == f0,
        (Action::BallFalling(x), Action::BallFalling(y)) => BallFalling01Action::execute_post(x, f0, f1, r) && y == x && b1 == b0,
        _ => false,
    }
}

impl Action {
    pub open spec fn kind(&self) -> ActionKind {
        match self {
            Action::OpenDoor(_) => ActionKind::OpenDoor,
            Action::StandButton(_) => ActionKind::StandButton,
            Action::CollisionButton(_) => ActionKind::CollisionButton,
            Action::Delay(_) => ActionKind::Delay,
            Action::Teleport(_) => ActionKind::Teleport,
            Action::OneAnimation(_) => ActionKind::OneAnimation,
            Action::FullAnimation(_) => ActionKind::FullAnimation,
            Action::NamedAnimation(_) => ActionKind::NamedAnimation,
            Action::CollisionAudio(_) => ActionKind::CollisionAudio,
            Action::Link(_) => ActionKind::Link,
            Action::InputField(_) => ActionKind::InputField,
            Action::TestChamber(_) => ActionKind::TestChamber,
            Action::BallFalling(_) => ActionKind::BallFalling,
        }
    }

    /// The name an actor files the action under.
    pub open spec fn name_spec(&self) -> Seq<char> {
        match self {
            Action::OpenDoor(a) => a.name@,
            Action::StandButton(a) => a.name@,
            Action::CollisionButton(a) => a.name@,
            Action::Delay(a) => a.name@,
            Action::Teleport(a) => a.name@,
            Action::OneAnimation(a) => a.name@,
            Action::FullAnimation(a) => a.name@,
            Action::NamedAnimation(a) => a.name@,
            Action::CollisionAudio(_) => "collision_audio"@,
            Action::Link(a) => a.name@,
            Action::InputField(a) => a.name@,
            Action::TestChamber(a) => a.name@,
            Action::BallFalling(a) => a.name@,
        }
    }

    /// Whether startup has done its work.
    pub open spec fn started(&self) -> bool {
        match self {
            Action::OpenDoor(a) => a.startup,
            Action::StandButton(a) => a.startup,
            Action::CollisionButton(a) => a.startup,
            Action::Delay(_) => true,
            Action::Teleport(a) => a.is_started && !(a.destination is EntityStr),
            Action::OneAnimation(a) => a.is_started,
            Action::FullAnimation(a) => a.is_started,
            Action::NamedAnimation(a) => a.is_started,
            Action::CollisionAudio(a) => a.is_startupped,
            Action::Link(a) => a.startup,
            Action::InputField(a) => a.is_started,
            Action::TestChamber(a) => a.is_started,
            Action::BallFalling(a) => a.startup,
        }
    }

    pub fn is_started(&self) -> (r: bool)
        ensures
            r == self.started(),
    {
        match self {
            Action::OpenDoor(a) => a.startup,
            Action::StandButton(a) => a.startup,
            Action::CollisionButton(a) => a.startup,
            Action::Delay(_) => true,
            Action::Teleport(a) => a.is_started && !(match a.destination { TeleportDestination::EntityStr(_) => true, _ => false }),
            Action::OneAnimation(a) => a.is_started,
            Action::FullAnimation(a) => a.is_started,
            Action::NamedAnimation(a) => a.is_started,
            Action::CollisionAudio(a) => a.is_startupped,
            Action::Link(a) => a.startup,
            Action::InputField(a) => a.is_started,
            Action::TestChamber(a) => a.is_started,
            Action::BallFalling(a) => a.startup,
        }
    }

    pub fn name(&self) -> (r: String)
        ensures
            r@ == self.name_spec(),
    {
        match self {
            Action::OpenDoor(a) => a.name.clone(),
            Action::StandButton(a) => a.name.clone(),
            Action::CollisionButton(a) => a.name.clone(),
            Action::Delay(a) => a.name.clone(),
            Action::Teleport(a) => a.name.clone(),
            Action::OneAnimation(a) => a.name.clone(),
            Action::FullAnimation(a) => a.name.clone(),
            Action::NamedAnimation(a) => a.name.clone(),
            Action::CollisionAudio(_) => "collision_audio".to_owned(),
            Action::Link(a) => a.name.clone(),
            Action::InputField(a) => a.name.clone(),
            Action::TestChamber(a) => a.name.clone(),
            Action::BallFalling(a) => a.name.clone(),
        }
    }

    /// Renames the action; a collision sound keeps its fixed name.
    pub fn change_name(&mut self, name: String)
        ensures
            *old(self) is CollisionAudio ==> *final(self) == *old(self),
            !(*old(self) is CollisionAudio) ==> final(self).name_spec() == name@,
            final(self).started() == old(self).started(),
    {
        match self {
            Action::OpenDoor(a) => a.name = name,
            Action::StandButton(a) => a.name = name,
            Action::CollisionButton(a) => a.name = name,
            Action::Delay(a) => a.name = name,
            Action::Teleport(a) => a.name = name,
            Action::OneAnimation(a) => a.name = name,
            Action::FullAnimation(a) => a.name = name,
            Action::NamedAnimation(a) => a.name = name,
            Action::CollisionAudio(_) => {},
            Action::Link(a) => a.name = name,
            Action::InputField(a) => a.name = name,
            Action::TestChamber(a) => a.name = name,
            Action::BallFalling(a) => a.name = name,
        }
    }

    /// How the host must test the player's aim for this action, if it aims at all.
    pub fn reach(&self) -> (r: Option<Reach>)
        ensures
            r is Some <==> (*self is OpenDoor || *self is StandButton || *self is Link || *self is InputField),
    {
        match self {
            Action::OpenDoor(a) => Some(a.reach()),
            Action::StandButton(a) => Some(a.reach()),
            Action::Link(a) => Some(a.reach()),
            Action::InputField(_) => Some(Reach { max_distance_cm: 0, ray_cm: 200 }),
            _ => None,
        }
    }

    /// Does the action's startup work once; after that it changes nothing.
    pub fn try_startup(&mut self, me: u64, s: &Surroundings, fx: &mut Vec<Effect>) -> (r: Result<(), StartupError>)
        ensures
            old(self).started() ==> r is Ok && *final(self) == *old(self) && final(fx)@ == old(fx)@,
            r is Ok ==> final(self).started(),
            final(self).name_spec() == old(self).name_spec(),
            final(self).kind() == old(self).kind(),
    {
        let r = match self {
            Action::OpenDoor(a) => a.try_startup(s, fx),
            Action::StandButton(a) => {
                a.try_startup(me, s);
                Ok(())
            },
            Action::CollisionButton(a) => {
                a.try_startup(me);
                Ok(())
            },
            Action::Delay(_) => Ok(()),
            Action::Teleport(a) => {
                if a.is_started && !(match a.destination { TeleportDestination::EntityStr(_) => true, _ => false }) {
                    Ok(())
                } else {
                    a.try_startup(me, s)
                }
            },
            Action::OneAnimation(a) => {
                a.try_startup(me, s);
                Ok(())
            },
            Action::FullAnimation(a) => {
                a.try_startup(me, s);
                Ok(())
            },
            Action::NamedAnimation(a) => {
                a.try_startup(me, s);
                Ok(())
            },
            Action::CollisionAudio(a) => {
                a.try_startup(me);
                Ok(())
            },
            Action::Link(a) => {
                a.try_startup(me);
                Ok(())
            },
            Action::InputField(a) => {
                a.try_startup(me);
                Ok(())
            },
            Action::TestChamber(a) => {
                a.try_startup();
                Ok(())
            },
            Action::BallFalling(a) => {
                a.try_startup(me, s);
                Ok(())
            },
        };
        r
    }

    /// Whether the action wants to execute this tick; it may send signals and effects.
    pub fn predicate(&mut self, frame: &Frame, sense: Sense, bus: &mut SignalBus, fx: &mut Vec<Effect>) -> (r: bool)
        ensures
            final(self).started() == old(self).started(),
            final(self).name_spec() == old(self).name_spec(),
            final(self).kind() == old(self).kind(),
            predicate_post(*old(self), *final(self), *frame, sense, old(bus)@, final(bus)@, old(fx)@, final(fx)@, r),
    {
        match self {
            Action::OpenDoor(a) => a.predicate(sense),
            Action::StandButton(a) => a.predicate(frame, sense, bus),
            Action::CollisionButton(a) => a.predicate(sense, bus),
            Action::Delay(a) => a.predicate(frame.now_ms, bus),
            Action::Teleport(a) => a.predicate(bus),
            Action::OneAnimation(a) => a.predicate(bus),
            Action::FullAnimation(a) => a.predicate(bus, fx),
            Action::NamedAnimation(a) => a.predicate(bus),
            Action::CollisionAudio(a) => a.predicate(frame.now_ms, sense, fx),
            Action::Link(a) => a.predicate(sense),
            Action::InputField(a) => a.predicate(frame, sense, fx),
            Action::TestChamber(a) => a.predicate(bus),
            Action::BallFalling(a) => a.predicate(bus),
        }
    }

    /// Carries the action out; the result says whether it did anything.
    pub fn execute(&mut self, frame: &Frame, bus: &mut SignalBus, fx: &mut Vec<Effect>) -> (r: bool)
        ensures
            final(self).started() == old(self).started(),
            final(self).name_spec() == old(self).name_spec(),
            final(self).kind() == old(self).kind(),
            execute_post(*old(self), *final(self), *frame, old(bus)@, final(bus)@, old(fx)@, final(fx)@, r),
    {
        match self {
            Action::OpenDoor(a) => a.execute(frame, bus, fx),
            Action::StandButton(a) => a.execute(frame, bus, fx),
            Action::CollisionButton(_) => false,
            Action::Delay(a) => a.execute(bus),
            Action::Teleport(a) => a.execute(fx),
            Action::OneAnimation(a) => a.execute(fx),
            Action::FullAnimation(a) => a.execute(fx),
            Action::NamedAnimation(a) => a.execute(fx),
            Action::CollisionAudio(_) => false,
            Action::Link(a) => a.execute(frame, fx),
            Action::InputField(a) => a.execute(bus, fx),
            Action::TestChamber(a) => a.execute(bus),
            Action::BallFalling(a) => a.execute(fx),
        }
    }
}

} // verus!
