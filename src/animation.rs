//! Animation clips played on the node's animation player when a signal arrives.

use vstd::prelude::*;
use crate::error::Reason;
use crate::meta::{whole_of, MetaValue};
use crate::signal::BusView;
use crate::signal::{first_with_id, ButtonState, SignalBus};
use crate::teleport::{node_named, wire_of};
use crate::text::text_eq;
use crate::world::{Child, Effect, Repeat, Surroundings};

verus! {

/// Plays the node's first compatible clip once, on the first signal of its wire.
pub struct OneAnimationAction {
    pub is_started: bool,
    pub repeat: bool,
    pub me: u64,
    pub was_played: bool,
    pub name: String,
    pub animation: Option<u64>,
    pub id: u64,
}

/// Plays a clip of the scene package, chosen by name, on the first signal of its wire.
pub struct NamedAnimationAction {
    pub is_started: bool,
    pub repeat: bool,
    pub me: u64,
    pub was_played: bool,
    pub name: String,
    pub animation: Option<u64>,
    pub animation_name: String,
    pub id: u64,
}

/// Starts the node's clip on an activation wire, a limited number of times,
/// and pauses it on a deactivation wire.
pub struct FullAnimationAction {
    pub is_started: bool,
    pub me: u64,
    pub name: String,
    pub animation: Option<u64>,
    /// 0 repeats forever, 1 never, n that many times.
    pub repeat: u64,
    /// How many activations are honoured; 0 for no limit.
    pub loops: u64,
    pub loops_passed: u64,
    pub activation_id: u64,
    pub deactivation_id: u64,
}

/// Plays `clip`, if known, on `node`.
pub open spec fn play_effects(node: u64, clip: Option<u64>, repeat: Repeat) -> Seq<Effect> {
    match clip {
        Some(c) => seq![Effect::PlayAnimation { node, clip: c, repeat }],
        None => Seq::empty(),
    }
}

/// The repeat mode a full animation's number stands for.
pub open spec fn repeat_of(n: u64) -> Repeat {
    if n == 0 {
        Repeat::Forever
    } else if n == 1 {
        Repeat::Never
    } else {
        Repeat::Count(n)
    }
}

impl OneAnimationAction {
    /// What `new` guarantees.
    pub open spec fn new_post(value: MetaValue, r: Result<OneAnimationAction, Reason>) -> bool {
        &&& (match value {
                    MetaValue::Nat(id) => r matches Ok(a) && a.id == id && !a.was_played && !a.is_started
                        && a.animation is None && !a.repeat && a.name@ == "one_animation"@,
                    _ => r == Err::<OneAnimationAction, Reason>(Reason::BadValue),
                })
    }

    /// Builds the action for wire `value`.
    pub fn new(value: &MetaValue) -> (r: Result<OneAnimationAction, Reason>)
        ensures
            Self::new_post(*value, r),

    {
        match value.as_u64() {
            Some(id) => Ok(OneAnimationAction {
                is_started: false,
                repeat: false,
                me: 0,
                was_played: false,
                name: "one_animation".to_owned(),
                animation: None,
                id,
            }),
            None => Err(Reason::BadValue),
        }
    }

    /// Takes the node's first compatible clip; only the first call counts.
    pub fn try_startup(&mut self, me: u64, s: &Surroundings)
        ensures
            old(self).is_started ==> *final(self) == *old(self),
            !old(self).is_started ==> *final(self) == (OneAnimationAction {
                is_started: true,
                me,
                animation: s.compatible_clip,
                ..*old(self)
            }),
    {
        if !self.is_started {
            self.me = me;
            self.is_started = true;
            self.animation = s.compatible_clip;
        }
    }

    /// What `predicate` guarantees.
    pub open spec fn predicate_post(pre: Self, post: Self, bus: BusView, r: bool) -> bool {
        &&& (r == (!pre.was_played && first_with_id(bus.visible_buttons(), pre.id) is Some))
        &&& (post == (OneAnimationAction { was_played: pre.was_played || r, ..pre }))
    }

    /// Holds once: on the first tick a state on the wire is visible.
    pub fn predicate(&mut self, bus: &SignalBus) -> (r: bool)
        ensures
            Self::predicate_post(*old(self), *final(self), bus@, r),

    {
        if self.was_played {
            return false;
        }
        if bus.first_button(self.id).is_some() {
            self.was_played = true;
            return true;
        }
        false
    }

    /// What `execute` guarantees.
    pub open spec fn execute_post(a: Self, f0: Seq<Effect>, f1: Seq<Effect>, r: bool) -> bool {
        &&& (r == a.animation is Some)
        &&& (f1 == f0 + play_effects(a.me, a.animation, Repeat::Never))
    }

    /// Plays the clip once; fails when the node has none.
    pub fn execute(&self, fx: &mut Vec<Effect>) -> (r: bool)
        ensures
            Self::execute_post(*self, old(fx)@, final(fx)@, r),

    {
        match self.animation {
            Some(c) => {
                fx.push(Effect::PlayAnimation { node: self.me, clip: c, repeat: Repeat::Never });
                assert(fx@ =~= old(fx)@ + play_effects(self.me, self.animation, Repeat::Never));
                true
            },
            None => {
                assert(fx@ =~= old(fx)@ + play_effects(self.me, self.animation, Repeat::Never));
                false
            },
        }
    }
}

impl NamedAnimationAction {
    /// What `new` guarantees.
    pub open spec fn new_post(value: MetaValue, r: Result<NamedAnimationAction, Reason>) -> bool {
        &&& (match value {
                    MetaValue::Array(a) => if a@.len() >= 2 && wire_of(a@[0]) is Some && a@[1] is Str {
                        r matches Ok(n) && n.id == wire_of(a@[0]).unwrap() && n.animation_name@ == a@[1]->Str_0@
                            && !n.was_played && !n.is_started && n.animation is None && n.name@ == "named_animation"@
                    } else {
                        r == Err::<NamedAnimationAction, Reason>(Reason::BadValue)
                    },
                    _ => r == Err::<NamedAnimationAction, Reason>(Reason::BadValue),
                })
    }

    /// Builds the action from `[wire, clip name]`, both strings.
    pub fn new(value: &MetaValue) -> (r: Result<NamedAnimationAction, Reason>)
        ensures
            Self::new_post(*value, r),

    {
        let a = match value.as_array() {
            Some(a) => a,
            None => {
                return Err(Reason::BadValue);
            },
        };
        if a.len() < 2 {
            return Err(Reason::BadValue);
        }
        let id = match a[0].as_str() {
            Some(s) => match crate::number::parse_u64(s) {
                Some(id) => id,
                None => {
                    return Err(Reason::BadValue);
                },
            },
            None => {
                return Err(Reason::BadValue);
            },
        };
        match &a[1] {
            MetaValue::Str(n) => Ok(NamedAnimationAction {
                is_started: false,
                repeat: false,
                me: 0,
                was_played: false,
                name: "named_animation".to_owned(),
                animation: None,
                animation_name: n.clone(),
                id,
            }),
            _ => Err(Reason::BadValue),
        }
    }

    /// Looks the clip up by name among the scene's named animations; only the
    /// first call counts.
    pub fn try_startup(&mut self, me: u64, s: &Surroundings)
        ensures
            old(self).is_started ==> *final(self) == *old(self),
            !old(self).is_started ==> final(self).is_started && final(self).me == me
                && final(self).animation == node_named(s.named_clips@, old(self).animation_name@)
                && final(self).id == old(self).id && final(self).was_played == old(self).was_played
                && final(self).animation_name == old(self).animation_name && final(self).name == old(self).name,
    {
        if !self.is_started {
            self.me = me;
            self.is_started = true;
            self.animation = crate::teleport::find_named(&s.named_clips, self.animation_name.as_str());
        }
    }

    /// What `predicate` guarantees.
    pub open spec fn predicate_post(pre: Self, post: Self, bus: BusView, r: bool) -> bool {
        &&& (r == (!pre.was_played && first_with_id(bus.visible_buttons(), pre.id) is Some))
        &&& (post == (NamedAnimationAction { was_played: pre.was_played || r, ..pre }))
    }

    /// Holds once: on the first tick a state on the wire is visible.
    pub fn predicate(&mut self, bus: &SignalBus) -> (r: bool)
        ensures
            Self::predicate_post(*old(self), *final(self), bus@, r),

    {
        if self.was_played {
            return false;
        }
        if bus.first_button(self.id).is_some() {
            self.was_played = true;
            return true;
        }
        false
    }

    /// What `execute` guarantees.
    pub open spec fn execute_post(a: Self, f0: Seq<Effect>, f1: Seq<Effect>, r: bool) -> bool {
        &&& (r == a.animation is Some)
        &&& (f1 == f0 + play_effects(a.me, a.animation, Repeat::Never))
    }

    /// Plays the clip once; fails when the name was not found.
    pub fn execute(&self, fx: &mut Vec<Effect>) -> (r: bool)
        ensures
            Self::execute_post(*self, old(fx)@, final(fx)@, r),

    {
        match self.animation {
            Some(c) => {
                fx.push(Effect::PlayAnimation { node: self.me, clip: c, repeat: Repeat::Never });
                assert(fx@ =~= old(fx)@ + play_effects(self.me, self.animation, Repeat::Never));
                true
            },
            None => {
                assert(fx@ =~= old(fx)@ + play_effects(self.me, self.animation, Repeat::Never));
                false
            },
        }
    }
}

/// The outcome of scanning visible states for a full animation: how many
/// pauses are asked for before an activation, and whether one was honoured.
pub open spec fn full_scan(s: Seq<ButtonState>, act: u64, deact: u64) -> (nat, Option<int>)
    decreases s.len(),
{
    if s.len() == 0 {
        (0, None)
    } else {
        let (p, a) = full_scan(s.drop_last(), act, deact);
        if a is Some {
            (p, a)
        } else if s.last().is_pressed && s.last().id == act {
            (p, Some(s.len() - 1))
        } else if s.last().is_pressed && s.last().id == deact {
            ((p + 1) as nat, None)
        } else {
            (p, None)
        }
    }
}

/// Counts the pauses asked for before the first activation, and whether one was found.
fn scan_full(v: &Vec<ButtonState>, act: u64, deact: u64) -> (r: (usize, bool))
    ensures
        full_scan(v@, act, deact).0 == r.0 as nat,
        (full_scan(v@, act, deact).1 is Some) == r.1,
{
    let ghost s = v@;
    let mut pauses: usize = 0;
    let mut i: usize = 0;
    assert(s.subrange(0, 0) =~= Seq::<ButtonState>::empty());
    while i < v.len()
        invariant
            s == v@,
            i <= s.len(),
            pauses <= i,
            full_scan(s.subrange(0, i as int), act, deact) == (pauses as nat, None::<int>),
        decreases s.len() - i,
    {
        let b = v[i];
        assert(s.subrange(0, i + 1).drop_last() =~= s.subrange(0, i as int));
        assert(s.subrange(0, i + 1).last() == b);
        if b.is_pressed && b.id == act {
            proof { lemma_full_scan_prefix(s, act, deact, i + 1); }
            return (pauses, true);
        }
        if b.is_pressed && b.id == deact {
            pauses = pauses + 1;
        }
        i = i + 1;
    }
    assert(s.subrange(0, i as int) =~= s);
    (pauses, false)
}

impl FullAnimationAction {
    /// What `new` guarantees.
    pub open spec fn new_post(value: MetaValue, r: Result<FullAnimationAction, Reason>) -> bool {
        &&& (match value {
                    MetaValue::Array(a) => if a@.len() >= 4 && whole_of(a@[0]) is Some && whole_of(a@[1]) is Some
                        && whole_of(a@[2]) is Some && whole_of(a@[3]) is Some {
                        r matches Ok(f) && f.activation_id == whole_of(a@[0]).unwrap()
                            && f.repeat == whole_of(a@[1]).unwrap() && f.loops == whole_of(a@[2]).unwrap()
                            && f.deactivation_id == whole_of(a@[3]).unwrap() && f.loops_passed == 0
                            && !f.is_started && f.animation is None && f.name@ == "full_animation"@
                    } else {
                        r == Err::<FullAnimationAction, Reason>(Reason::BadValue)
                    },
                    _ => r == Err::<FullAnimationAction, Reason>(Reason::BadValue),
                })
    }

    /// Builds the action from `[activation, repeat, loops, deactivation]`.
    pub fn new(value: &MetaValue) -> (r: Result<FullAnimationAction, Reason>)
        ensures
            Self::new_post(*value, r),

    {
        let a = match value.as_array() {
            Some(a) => a,
            None => {
                return Err(Reason::BadValue);
            },
        };
        if a.len() < 4 {
            return Err(Reason::BadValue);
        }
        match (a[0].whole(), a[1].whole(), a[2].whole(), a[3].whole()) {
            (Some(activation_id), Some(repeat), Some(loops), Some(deactivation_id)) => Ok(FullAnimationAction {
                is_started: false,
                me: 0,
                name: "full_animation".to_owned(),
                animation: None,
                repeat,
                loops,
                loops_passed: 0,
                activation_id,
                deactivation_id,
            }),
            _ => Err(Reason::BadValue),
        }
    }

    /// Takes the node's first compatible clip; only the first call counts.
    pub fn try_startup(&mut self, me: u64, s: &Surroundings)
        ensures
            old(self).is_started ==> *final(self) == *old(self),
            !old(self).is_started ==> *final(self) == (FullAnimationAction {
                is_started: true,
                me,
                animation: s.compatible_clip,
                ..*old(self)
            }),
    {
        if !self.is_started {
            self.me = me;
            self.is_started = true;
            self.animation = s.compatible_clip;
        }
    }

    /// What `predicate` guarantees.
    pub open spec fn predicate_post(pre: Self, post: Self, bus: BusView, f0: Seq<Effect>, f1: Seq<Effect>, r: bool) -> bool {
        &&& (({
                    let (pauses, act) = full_scan(bus.visible_buttons(), pre.activation_id, pre.deactivation_id);
                    let limited = pre.loops != 0 && pre.loops_passed >= pre.loops;
                    &&& f1 == f0 + Seq::new(pauses, |i: int| Effect::PauseAnimation { node: pre.me })
                    &&& r == (act is Some && !limited && pre.loops_passed < u64::MAX)
                    &&& post.loops_passed == (if r { (pre.loops_passed + 1) as u64 } else { pre.loops_passed })
                    &&& post == (FullAnimationAction { loops_passed: post.loops_passed, ..pre })
                }))
    }

    /// Goes through the visible pressed states in order: a deactivation asks
    /// for a pause; the first activation holds, unless the loop limit is reached.
    pub fn predicate(&mut self, bus: &SignalBus, fx: &mut Vec<Effect>) -> (r: bool)
        ensures
            Self::predicate_post(*old(self), *final(self), bus@, old(fx)@, final(fx)@, r),

    {
        let v = bus.visible_buttons();
        let (pauses, found) = scan_full(&v, self.activation_id, self.deactivation_id);
        let ghost start = fx@;
        let mut k: usize = 0;
        while k < pauses
            invariant
                k <= pauses,
                fx@ == start + Seq::new(k as nat, |i: int| Effect::PauseAnimation { node: self.me }),
            decreases pauses - k,
        {
            fx.push(Effect::PauseAnimation { node: self.me });
            k = k + 1;
            assert(fx@ =~= start + Seq::new(k as nat, |i: int| Effect::PauseAnimation { node: self.me }));
        }
        if !found {
            return false;
        }
        if self.loops != 0 && self.loops_passed >= self.loops {
            return false;
        }
        if self.loops_passed == u64::MAX {
            return false;
        }
        self.loops_passed = self.loops_passed + 1;
        true
    }

    /// What `execute` guarantees.
    pub open spec fn execute_post(a: Self, f0: Seq<Effect>, f1: Seq<Effect>, r: bool) -> bool {
        &&& (r == a.animation is Some)
        &&& (f1 == f0 + play_effects(a.me, a.animation, repeat_of(a.repeat)))
    }

    /// Starts the clip with the configured repeat mode; fails when the node has none.
    pub fn execute(&self, fx: &mut Vec<Effect>) -> (r: bool)
        ensures
            Self::execute_post(*self, old(fx)@, final(fx)@, r),

    {
        let rep = if self.repeat == 0 {
            Repeat::Forever
        } else if self.repeat == 1 {
            Repeat::Never
        } else {
            Repeat::Count(self.repeat)
        };
        match self.animation {
            Some(c) => {
                fx.push(Effect::PlayAnimation { node: self.me, clip: c, repeat: rep });
                assert(fx@ =~= old(fx)@ + play_effects(self.me, self.animation, repeat_of(self.repeat)));
                true
            },
            None => {
                assert(fx@ =~= old(fx)@ + play_effects(self.me, self.animation, repeat_of(self.repeat)));
                false
            },
        }
    }
}

/// Once an activation is found in a prefix, the scan of the whole sequence agrees.
proof fn lemma_full_scan_prefix(s: Seq<ButtonState>, act: u64, deact: u64, k: int)
    requires
        0 <= k <= s.len(),
        full_scan(s.subrange(0, k), act, deact).1 is Some,
    ensures
        full_scan(s, act, deact) == full_scan(s.subrange(0, k), act, deact),
    decreases s.len() - k,
{
    if k == s.len() {
        assert(s.subrange(0, k) =~= s);
    } else {
        assert(s.subrange(0, k + 1).drop_last() =~= s.subrange(0, k));
        lemma_full_scan_prefix(s, act, deact, k + 1);
    }
}

} // verus!
