//! Buttons that send signals: one the player presses with E, one the player
//! steps into.

use vstd::prelude::*;
use crate::door::{find_child, last_child_with_prefix};
use crate::error::{Param, Reason};
use crate::meta::{duration_of, MetaValue, Metadata};
use crate::signal::BusView;
use crate::signal::{ButtonState, SignalBus};
use crate::world::{Effect, Frame, Reach, Sense, Surroundings};

verus! {

/// A sibling parameter read as a duration in milliseconds.
pub open spec fn param_duration(main: &Metadata, key: Seq<char>) -> Option<u64> {
    match main.get_spec(key) {
        Some(v) => duration_of(v),
        None => None,
    }
}

pub struct StandButtonAction {
    pub startup: bool,
    pub name: String,
    /// When the button was last pressed, in milliseconds.
    pub when_pressed: Option<u64>,
    pub is_pressed: bool,
    pub cooldown_ms: u64,
    pub can_be_pressed: bool,
    pub hint: String,
    pub stand_entity: u64,
    pub button_entity: Option<u64>,
    /// How long a press lasts; zero makes the button a toggle that never releases.
    pub press_longetivity_ms: u64,
    pub retarget_index: u64,
}

/// Whether a press made at `when_pressed` has lasted longer than `longetivity` by `now`.
pub open spec fn press_expired(when_pressed: Option<u64>, now: u64, longetivity: u64) -> bool {
    match when_pressed {
        Some(w) => now >= w && now - w > longetivity,
        None => false,
    }
}

/// Whether a press made at `when_pressed` still blocks a new one at `now`.
pub open spec fn in_cooldown(when_pressed: Option<u64>, now: u64, cooldown: u64) -> bool {
    match when_pressed {
        Some(w) => now < w || now - w < cooldown,
        None => false,
    }
}

impl StandButtonAction {
    /// What `new` guarantees.
    pub open spec fn new_post(value: MetaValue, main: &Metadata, r: Result<StandButtonAction, Reason>) -> bool {
        &&& (match value {
                    MetaValue::Nat(id) => match (param_duration(main, "#cooldown"@), param_duration(main, "#press_longetivity"@)) {
                        (Some(cm), Some(lm)) => r matches Ok(a) && a.retarget_index == id
                            && a.cooldown_ms == cm && a.press_longetivity_ms == lm && !a.startup
                            && !a.is_pressed && a.when_pressed is None && a.can_be_pressed
                            && a.name@ == "stand_button"@ && a.hint@ == "Press button"@,
                        (None, _) => r == Err::<StandButtonAction, Reason>(Reason::BadParam(Param::Cooldown)),
                        (_, None) => r == Err::<StandButtonAction, Reason>(Reason::BadParam(Param::PressLongetivity)),
                    },
                    _ => r == Err::<StandButtonAction, Reason>(Reason::BadValue),
                })
    }

    /// Builds a button sending on wire `value`, with `#cooldown` and
    /// `#press_longetivity` (seconds) from the node's metadata.
    pub fn new(value: &MetaValue, main: &Metadata) -> (r: Result<StandButtonAction, Reason>)
        ensures
            Self::new_post(*value, main, r),

    {
        let id = match value.as_u64() {
            Some(id) => id,
            None => {
                return Err(Reason::BadValue);
            },
        };
        let c = main.get("#cooldown");
        let l = main.get("#press_longetivity");
        let cm = match c {
            Some(c) => c.duration_ms(),
            None => None,
        };
        let cm = match cm {
            Some(cm) => cm,
            None => {
                return Err(Reason::BadParam(Param::Cooldown));
            },
        };
        let lm = match l {
            Some(l) => l.duration_ms(),
            None => None,
        };
        let lm = match lm {
            Some(lm) => lm,
            None => {
                return Err(Reason::BadParam(Param::PressLongetivity));
            },
        };
        Ok(StandButtonAction {
            startup: false,
            name: "stand_button".to_owned(),
            when_pressed: None,
            is_pressed: false,
            cooldown_ms: cm,
            can_be_pressed: true,
            hint: "Press button".to_owned(),
            stand_entity: 0,
            button_entity: None,
            press_longetivity_ms: lm,
            retarget_index: id,
        })
    }

    /// The player aims at the stand within 2 m.
    pub fn reach(&self) -> (r: Reach)
        ensures
            r == (Reach { max_distance_cm: 0, ray_cm: 200 }),
    {
        Reach { max_distance_cm: 0, ray_cm: 200 }
    }

    /// Remembers the stand and its `TheButton` child; only the first call counts.
    pub fn try_startup(&mut self, me: u64, s: &Surroundings)
        ensures
            old(self).startup ==> *final(self) == *old(self),
            !old(self).startup ==> final(self).startup && final(self).stand_entity == me
                && final(self).button_entity == last_child_with_prefix(s.children@, "TheButton"@)
                && final(self).is_pressed == old(self).is_pressed
                && final(self).when_pressed == old(self).when_pressed
                && final(self).cooldown_ms == old(self).cooldown_ms
                && final(self).press_longetivity_ms == old(self).press_longetivity_ms
                && final(self).retarget_index == old(self).retarget_index
                && final(self).can_be_pressed == old(self).can_be_pressed
                && final(self).hint == old(self).hint && final(self).name == old(self).name,
    {
        if !self.startup {
            self.stand_entity = me;
            self.button_entity = find_child(&s.children, "TheButton");
            self.startup = true;
        }
    }

    /// What `predicate` guarantees.
    pub open spec fn predicate_post(pre: Self, post: Self, frame: Frame, sense: Sense, b0: BusView, b1: BusView, r: bool) -> bool {
        &&& (({
                    let release = pre.press_longetivity_ms != 0 && pre.is_pressed
                        && press_expired(pre.when_pressed, frame.now_ms, pre.press_longetivity_ms);
                    &&& release ==> b1 == b0.emit_button(
                        ButtonState { id: pre.retarget_index, is_pressed: false, just_changed: true },
                    ) && !post.is_pressed
                    &&& !release ==> b1 == b0 && post.is_pressed == pre.is_pressed
                }))
        &&& (r == (pre.can_be_pressed && sense.aimed))
        &&& (post.when_pressed == pre.when_pressed)
        &&& (post.startup == pre.startup)
        &&& (post.cooldown_ms == pre.cooldown_ms)
        &&& (post.press_longetivity_ms == pre.press_longetivity_ms)
        &&& (post.retarget_index == pre.retarget_index)
        &&& (post.can_be_pressed == pre.can_be_pressed)
        &&& (post.hint == pre.hint)
        &&& (post.name == pre.name)
    }

    /// Releases a press that has lasted longer than its longetivity, then
    /// holds when the player aims at the stand.
    pub fn predicate(&mut self, frame: &Frame, sense: Sense, bus: &mut SignalBus) -> (r: bool)
        ensures
            Self::predicate_post(*old(self), *final(self), *frame, sense, old(bus)@, final(bus)@, r),

    {
        if self.press_longetivity_ms != 0 && self.is_pressed {
            if let Some(w) = self.when_pressed {
                if frame.now_ms >= w && frame.now_ms - w > self.press_longetivity_ms {
                    bus.emit_button(ButtonState { id: self.retarget_index, is_pressed: false, just_changed: true });
                    self.is_pressed = false;
                }
            }
        }
        if !self.can_be_pressed {
            return false;
        }
        sense.aimed
    }

    /// What `execute` guarantees.
    pub open spec fn execute_post(pre: Self, post: Self, frame: Frame, b0: BusView, b1: BusView, f0: Seq<Effect>, f1: Seq<Effect>, r: bool) -> bool {
        &&& (in_cooldown(pre.when_pressed, frame.now_ms, pre.cooldown_ms) ==> {
                    &&& !r
                    &&& post == pre
                    &&& b1 == b0
                    &&& f1 == f0
                })
        &&& (!in_cooldown(pre.when_pressed, frame.now_ms, pre.cooldown_ms) ==> {
                    &&& f1 == f0.push(Effect::Hint { text: pre.hint, priority: 1, key_e: true })
                    &&& r == frame.e_pressed
                    &&& frame.e_pressed ==> {
                        &&& b1 == b0.emit_button(
                            ButtonState { id: pre.retarget_index, is_pressed: true, just_changed: true },
                        )
                        &&& post.when_pressed == Some(frame.now_ms)
                        &&& post.is_pressed
                    }
                    &&& !frame.e_pressed ==> b1 == b0 && post == pre
                })
        &&& (post.startup == pre.startup)
        &&& (post.cooldown_ms == pre.cooldown_ms)
        &&& (post.press_longetivity_ms == pre.press_longetivity_ms)
        &&& (post.retarget_index == pre.retarget_index)
        &&& (post.can_be_pressed == pre.can_be_pressed)
        &&& (post.hint == pre.hint)
        &&& (post.name == pre.name)
    }

    /// Unless the last press is within the cooldown, proposes the hint; on E
    /// sends a press on the button's wire and records the time.
    pub fn execute(&mut self, frame: &Frame, bus: &mut SignalBus, fx: &mut Vec<Effect>) -> (r: bool)
        ensures
            Self::execute_post(*old(self), *final(self), *frame, old(bus)@, final(bus)@, old(fx)@, final(fx)@, r),

    {
        if let Some(w) = self.when_pressed {
            if frame.now_ms < w || frame.now_ms - w < self.cooldown_ms {
                return false;
            }
        }
        fx.push(Effect::Hint { text: self.hint.clone(), priority: 1, key_e: true });
        if !frame.e_pressed {
            return false;
        }
        bus.emit_button(ButtonState { id: self.retarget_index, is_pressed: true, just_changed: true });
        self.when_pressed = Some(frame.now_ms);
        self.is_pressed = true;
        true
    }
}

pub struct CollisionButtonAction {
    pub startup: bool,
    pub name: String,
    pub is_pressed: bool,
    pub can_be_pressed: bool,
    pub me: u64,
    pub retarget_index: u64,
}

impl CollisionButtonAction {
    /// What `new` guarantees.
    pub open spec fn new_post(value: MetaValue, r: Result<CollisionButtonAction, Reason>) -> bool {
        &&& (match value {
                    MetaValue::Nat(id) => r matches Ok(a) && a.retarget_index == id && !a.is_pressed
                        && a.can_be_pressed && !a.startup && a.name@ == "collision_button"@,
                    _ => r == Err::<CollisionButtonAction, Reason>(Reason::BadValue),
                })
    }

    /// Builds a sensor button sending on wire `value`.
    pub fn new(value: &MetaValue) -> (r: Result<CollisionButtonAction, Reason>)
        ensures
            Self::new_post(*value, r),

    {
        match value.as_u64() {
            Some(id) => Ok(CollisionButtonAction {
                startup: false,
                name: "collision_button".to_owned(),
                is_pressed: false,
                can_be_pressed: true,
                me: 0,
                retarget_index: id,
            }),
            None => Err(Reason::BadValue),
        }
    }

    pub fn try_startup(&mut self, me: u64)
        ensures
            old(self).startup ==> *final(self) == *old(self),
            !old(self).startup ==> *final(self) == (CollisionButtonAction { startup: true, me, ..*old(self) }),
    {
        if !self.startup {
            self.me = me;
            self.startup = true;
        }
    }

    /// What `predicate` guarantees.
    pub open spec fn predicate_post(pre: Self, post: Self, sense: Sense, b0: BusView, b1: BusView, r: bool) -> bool {
        &&& (!r)
        &&& (!pre.can_be_pressed ==> post == pre && b1 == b0)
        &&& (pre.can_be_pressed ==> {
                    &&& post.is_pressed == sense.touching
                    &&& post.startup == pre.startup
                    &&& post.me == pre.me
                    &&& post.retarget_index == pre.retarget_index
                    &&& post.can_be_pressed == pre.can_be_pressed
                    &&& post.name == pre.name
                    &&& if sense.touching != pre.is_pressed {
                        b1 == b0.emit_button(
                            ButtonState { id: pre.retarget_index, is_pressed: sense.touching, just_changed: true },
                        )
                    } else {
                        b1 == b0
                    }
                })
    }

    /// Sends a press when the player starts touching the sensor and a release
    /// when the player stops; never asks to execute.
    pub fn predicate(&mut self, sense: Sense, bus: &mut SignalBus) -> (r: bool)
        ensures
            Self::predicate_post(*old(self), *final(self), sense, old(bus)@, final(bus)@, r),

    {
        if !self.can_be_pressed {
            return false;
        }
        if sense.touching != self.is_pressed {
            bus.emit_button(ButtonState { id: self.retarget_index, is_pressed: sense.touching, just_changed: true });
            self.is_pressed = sense.touching;
        }
        false
    }
}

} // verus!
