//! Stage props: a sound on contact, a link the player can open, and a
//! ball that can be dropped and put back.

use vstd::prelude::*;
use crate::door::{find_child, last_child_with_prefix};
use crate::error::Reason;
use crate::meta::{duration_of, millis_of, MetaValue, Metadata};
use crate::signal::BusView;
use crate::signal::{ButtonState, SignalBus};
use crate::world::{Effect, Frame, Reach, Sense, Surroundings};

verus! {

/// Plays a sound when the player starts touching the node, at most once per cooldown.
pub struct CollisionAction {
    pub me: u64,
    pub audio: String,
    pub volume_milli: u64,
    /// Without a cooldown (or with a zero one) the sound plays only once.
    pub recursive_cooldown_ms: Option<u64>,
    pub last_played: Option<u64>,
    pub was_colliding: bool,
    pub is_startupped: bool,
}

/// The volume in thousandths: the parameter when it is a non-negative number, else one half.
pub open spec fn volume_of(p: Option<MetaValue>) -> u64 {
    match p {
        Some(v) => match millis_of(v) {
            Some(m) => if 0 <= m <= i64::MAX { m as u64 } else { 500 },
            None => 500,
        },
        None => 500,
    }
}

pub open spec fn cooldown_of(p: Option<MetaValue>) -> Option<u64> {
    match p {
        Some(v) => duration_of(v),
        None => None,
    }
}

/// Whether a sound last played at `last` may play again at `now`.
pub open spec fn may_play(last: Option<u64>, now: u64, cooldown: Option<u64>) -> bool {
    match last {
        None => true,
        Some(l) => match cooldown {
            Some(c) => c != 0 && now >= l && now - l > c,
            None => false,
        },
    }
}

impl CollisionAction {
    /// What `new` guarantees.
    pub open spec fn new_post(value: MetaValue, main: &Metadata, r: Result<CollisionAction, Reason>) -> bool {
        &&& (match value {
                    MetaValue::Str(p) => r matches Ok(a) && a.audio@ == p@
                        && a.volume_milli == volume_of(main.get_spec("#collision_audio_volume"@))
                        && a.recursive_cooldown_ms == cooldown_of(main.get_spec("#collision_audio_cooldown"@))
                        && a.last_played is None && !a.was_colliding && !a.is_startupped,
                    _ => r == Err::<CollisionAction, Reason>(Reason::BadValue),
                })
    }

    /// Builds the action for the sound at path `value`, with the optional
    /// `#collision_audio_volume` and `#collision_audio_cooldown` (seconds).
    pub fn new(value: &MetaValue, main: &Metadata) -> (r: Result<CollisionAction, Reason>)
        ensures
            Self::new_post(*value, main, r),

    {
        let audio = match value {
            MetaValue::Str(p) => p.clone(),
            _ => {
                return Err(Reason::BadValue);
            },
        };
        let volume_milli: u64 = match main.get("#collision_audio_volume") {
            Some(v) => match v {
                MetaValue::Nat(n) => if *n <= (i64::MAX as u64) / 1000 { *n * 1000 } else { 500 },
                MetaValue::Neg(n) => if *n >= 0 && *n <= i64::MAX / 1000 { (*n * 1000) as u64 } else { 500 },
                MetaValue::Frac(m) => if *m >= 0 { *m as u64 } else { 500 },
                _ => 500,
            },
            None => 500,
        };
        let recursive_cooldown_ms = match main.get("#collision_audio_cooldown") {
            Some(v) => v.duration_ms(),
            None => None,
        };
        Ok(CollisionAction {
            me: 0,
            audio,
            volume_milli,
            recursive_cooldown_ms,
            last_played: None,
            was_colliding: false,
            is_startupped: false,
        })
    }

    pub fn try_startup(&mut self, me: u64)
        ensures
            old(self).is_startupped ==> *final(self) == *old(self),
            !old(self).is_startupped ==> *final(self) == (CollisionAction { me, is_startupped: true, ..*old(self) }),
    {
        if !self.is_startupped {
            self.me = me;
            self.is_startupped = true;
        }
    }

    /// What `predicate` guarantees.
    pub open spec fn predicate_post(pre: Self, post: Self, now: u64, sense: Sense, f0: Seq<Effect>, f1: Seq<Effect>, r: bool) -> bool {
        &&& (!r)
        &&& (({
                    let play = sense.touching && !pre.was_colliding
                        && may_play(pre.last_played, now, pre.recursive_cooldown_ms);
                    &&& play ==> f1 == f0.push(
                        Effect::PlayAudio { path: pre.audio, volume_milli: pre.volume_milli },
                    ) && post.last_played == Some(now)
                    &&& !play ==> f1 == f0 && post.last_played == pre.last_played
                }))
        &&& (post.was_colliding == sense.touching)
        &&& (post.audio == pre.audio)
        &&& (post.volume_milli == pre.volume_milli)
        &&& (post.recursive_cooldown_ms == pre.recursive_cooldown_ms)
        &&& (post.me == pre.me)
        &&& (post.is_startupped == pre.is_startupped)
    }

    /// Plays the sound when the player starts touching the node and the
    /// cooldown since the last play has passed; never asks to execute.
    pub fn predicate(&mut self, now: u64, sense: Sense, fx: &mut Vec<Effect>) -> (r: bool)
        ensures
            Self::predicate_post(*old(self), *final(self), now, sense, old(fx)@, final(fx)@, r),

    {
        if sense.touching && !self.was_colliding {
            let allowed = match self.last_played {
                None => true,
                Some(l) => match self.recursive_cooldown_ms {
                    Some(c) => c != 0 && now >= l && now - l > c,
                    None => false,
                },
            };
            if allowed {
                fx.push(Effect::PlayAudio { path: self.audio.clone(), volume_milli: self.volume_milli });
                self.last_played = Some(now);
            }
        }
        self.was_colliding = sense.touching;
        false
    }
}

/// Two plays of one collision sound are more than its cooldown apart: when a
/// play happens at `now`, the previous one (if any) was before `now - cooldown`.
pub proof fn lemma_audio_cooldown(last: Option<u64>, now: u64, cooldown: Option<u64>)
    requires
        may_play(last, now, cooldown),
    ensures
        last matches Some(l) ==> cooldown matches Some(c) && c > 0 && now - l > c,
{
}

/// Opens a web link when the player aims at the node and presses E.
pub struct LinkOpenerAction {
    pub startup: bool,
    pub link: String,
    pub hint: String,
    pub name: String,
    pub me: u64,
}

impl LinkOpenerAction {
    /// What `new` guarantees.
    pub open spec fn new_post(value: MetaValue, r: Result<LinkOpenerAction, Reason>) -> bool {
        &&& (match value {
                    MetaValue::Str(l) => r matches Ok(a) && a.link@ == l@ && a.hint@ == "Press E"@
                        && a.name@ == "link"@ && !a.startup,
                    _ => r == Err::<LinkOpenerAction, Reason>(Reason::BadValue),
                })
    }

    pub fn new(value: &MetaValue) -> (r: Result<LinkOpenerAction, Reason>)
        ensures
            Self::new_post(*value, r),

    {
        match value {
            MetaValue::Str(l) => Ok(LinkOpenerAction {
                startup: false,
                link: l.clone(),
                hint: "Press E".to_owned(),
                name: "link".to_owned(),
                me: 0,
            }),
            _ => Err(Reason::BadValue),
        }
    }

    /// The player must be within 2.7 m and aim at the node within 2.8 m.
    pub fn reach(&self) -> (r: Reach)
        ensures
            r == (Reach { max_distance_cm: 270, ray_cm: 280 }),
    {
        Reach { max_distance_cm: 270, ray_cm: 280 }
    }

    pub fn try_startup(&mut self, me: u64)
        ensures
            old(self).startup ==> *final(self) == *old(self),
            !old(self).startup ==> *final(self) == (LinkOpenerAction { me, startup: true, ..*old(self) }),
    {
        if !self.startup {
            self.me = me;
            self.startup = true;
        }
    }

    /// What `predicate` guarantees.
    pub open spec fn predicate_post(a: Self, sense: Sense, r: bool) -> bool {
        &&& (r == sense.aimed)
    }

    pub fn predicate(&self, sense: Sense) -> (r: bool)
        ensures
            Self::predicate_post(*self, sense, r),

    {
        sense.aimed
    }

    /// What `execute` guarantees.
    pub open spec fn execute_post(a: Self, frame: Frame, f0: Seq<Effect>, f1: Seq<Effect>, r: bool) -> bool {
        &&& (r == frame.e_pressed)
        &&& (({
                    let hint = Effect::Hint { text: a.hint, priority: 1, key_e: true };
                    if frame.e_pressed {
                        f1 == f0.push(hint).push(Effect::OpenLink(a.link))
                    } else {
                        f1 == f0.push(hint)
                    }
                }))
    }

    /// Proposes the hint; on E hands the link to the host.
    pub fn execute(&self, frame: &Frame, fx: &mut Vec<Effect>) -> (r: bool)
        ensures
            Self::execute_post(*self, *frame, old(fx)@, final(fx)@, r),

    {
        fx.push(Effect::Hint { text: self.hint.clone(), priority: 1, key_e: true });
        if !frame.e_pressed {
            return false;
        }
        fx.push(Effect::OpenLink(self.link.clone()));
        true
    }
}

/// A ball that a start wire drops and a reset wire puts back.
pub struct BallFalling01Action {
    pub startup: bool,
    pub name: String,
    pub cell_entity: u64,
    pub ball: Option<u64>,
    pub start_button_i: u64,
    pub reset_button_i: u64,
    /// 1 after a reset signal, 2 after a start signal.
    pub action_type: u64,
}

/// What the first pressed, changed state on either wire asks for: 1 reset, 2 start, 0 nothing.
pub open spec fn ball_order(s: Seq<ButtonState>, start: u64, reset: u64) -> u64
    decreases s.len(),
{
    if s.len() == 0 {
        0
    } else {
        let o = ball_order(s.drop_last(), start, reset);
        if o != 0 {
            o
        } else if s.last().is_pressed && s.last().just_changed && s.last().id == reset {
            1
        } else if s.last().is_pressed && s.last().just_changed && s.last().id == start {
            2
        } else {
            0
        }
    }
}

proof fn lemma_ball_order_prefix(s: Seq<ButtonState>, start: u64, reset: u64, k: int)
    requires
        0 <= k <= s.len(),
        ball_order(s.subrange(0, k), start, reset) != 0,
    ensures
        ball_order(s, start, reset) == ball_order(s.subrange(0, k), start, reset),
    decreases s.len() - k,
{
    if k == s.len() {
        assert(s.subrange(0, k) =~= s);
    } else {
        assert(s.subrange(0, k + 1).drop_last() =~= s.subrange(0, k));
        lemma_ball_order_prefix(s, start, reset, k + 1);
    }
}

fn scan_ball(v: &Vec<ButtonState>, start: u64, reset: u64) -> (r: u64)
    ensures
        r == ball_order(v@, start, reset),
{
    let ghost s = v@;
    let mut i: usize = 0;
    assert(s.subrange(0, 0) =~= Seq::<ButtonState>::empty());
    while i < v.len()
        invariant
            s == v@,
            i <= s.len(),
            ball_order(s.subrange(0, i as int), start, reset) == 0,
        decreases s.len() - i,
    {
        let b = v[i];
        assert(s.subrange(0, i + 1).drop_last() =~= s.subrange(0, i as int));
        assert(s.subrange(0, i + 1).last() == b);
        if b.is_pressed && b.just_changed && (b.id == reset || b.id == start) {
            proof { lemma_ball_order_prefix(s, start, reset, i + 1); }
            return if b.id == reset { 1 } else { 2 };
        }
        i = i + 1;
    }
    assert(s.subrange(0, i as int) =~= s);
    0
}

impl BallFalling01Action {
    /// What `new` guarantees.
    pub open spec fn new_post(value: MetaValue, r: Result<BallFalling01Action, Reason>) -> bool {
        &&& (match value {
                    MetaValue::Array(a) => if a@.len() >= 2 && a@[0] is Nat && a@[1] is Nat {
                        r matches Ok(b) && b.start_button_i == a@[0]->Nat_0 && b.reset_button_i == a@[1]->Nat_0
                            && b.action_type == 0 && !b.startup && b.name@ == "ball_falling_01"@
                    } else {
                        r == Err::<BallFalling01Action, Reason>(Reason::BadValue)
                    },
                    _ => r == Err::<BallFalling01Action, Reason>(Reason::BadValue),
                })
    }

    /// Builds the action from `[start wire, reset wire]`.
    pub fn new(value: &MetaValue) -> (r: Result<BallFalling01Action, Reason>)
        ensures
            Self::new_post(*value, r),

    {
        let a = match value.as_array() {
            Some(a) => a,
            None => {
                return Err(Reason::BadValue);
            },
        };
        if a.len() < 2 {
            return Err(Reason::BadValue);
        }
        match (a[0].as_u64(), a[1].as_u64()) {
            (Some(s), Some(rr)) => Ok(BallFalling01Action {
                startup: false,
                name: "ball_falling_01".to_owned(),
                cell_entity: 0,
                ball: None,
                start_button_i: s,
                reset_button_i: rr,
                action_type: 0,
            }),
            _ => Err(Reason::BadValue),
        }
    }

    /// Finds the `TheBall` child; only the first call counts.
    pub fn try_startup(&mut self, me: u64, s: &Surroundings)
        ensures
            old(self).startup ==> *final(self) == *old(self),
            !old(self).startup ==> *final(self) == (BallFalling01Action {
                startup: true,
                cell_entity: me,
                ball: last_child_with_prefix(s.children@, "TheBall"@),
                ..*old(self)
            }),
    {
        if !self.startup {
            self.cell_entity = me;
            self.ball = find_child(&s.children, "TheBall");
            self.startup = true;
        }
    }

    /// What `predicate` guarantees.
    pub open spec fn predicate_post(pre: Self, post: Self, bus: BusView, r: bool) -> bool {
        &&& (({
                    let o = ball_order(bus.visible_buttons(), pre.start_button_i, pre.reset_button_i);
                    &&& r == (o != 0)
                    &&& post == (BallFalling01Action {
                        action_type: if o != 0 { o } else { pre.action_type },
                        ..pre
                    })
                }))
    }

    /// Holds on the first visible pressed, changed state of either wire and
    /// records which one it was.
    pub fn predicate(&mut self, bus: &SignalBus) -> (r: bool)
        ensures
            Self::predicate_post(*old(self), *final(self), bus@, r),

    {
        let v = bus.visible_buttons();
        let o = scan_ball(&v, self.start_button_i, self.reset_button_i);
        if o != 0 {
            self.action_type = o;
            true
        } else {
            false
        }
    }

    /// What `execute` guarantees.
    pub open spec fn execute_post(a: Self, f0: Seq<Effect>, f1: Seq<Effect>, r: bool) -> bool {
        &&& (r)
        &&& (match a.ball {
                    Some(b) => if a.action_type == 1 {
                        f1 == f0.push(Effect::BallReset { ball: b })
                    } else if a.action_type == 2 {
                        f1 == f0.push(Effect::BallStart { ball: b })
                    } else {
                        f1 == f0
                    },
                    None => f1 == f0,
                })
    }

    /// Resets or drops the ball, as the last signal asked.
    pub fn execute(&self, fx: &mut Vec<Effect>) -> (r: bool)
        ensures
            Self::execute_post(*self, old(fx)@, final(fx)@, r),

    {
        if let Some(b) = self.ball {
            if self.action_type == 1 {
                fx.push(Effect::BallReset { ball: b });
            } else if self.action_type == 2 {
                fx.push(Effect::BallStart { ball: b });
            }
        }
        true
    }
}

} // verus!
