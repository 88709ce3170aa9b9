//! A delay line: re-sends a button state on another wire after a while.

use vstd::prelude::*;
use crate::error::Reason;
use crate::meta::{duration_of, whole_of, millis_of, MetaValue};
use crate::signal::BusView;
use crate::signal::{first_with_id, ButtonState, SignalBus};

verus! {

pub struct DelayedAction {
    /// When the timer was armed, in milliseconds; `None` when idle.
    pub start_time: Option<u64>,
    pub duration_ms: u64,
    pub from_id: u64,
    pub to_id: u64,
    pub name: String,
    /// The state to send when the timer runs out.
    pub button_state: Option<ButtonState>,
    /// While armed, ignore the incoming wire.
    pub will_not_override: bool,
    /// Only arm on states that changed.
    pub only_edge: bool,
}

/// A number that must be exactly zero or one, read as a flag.
pub open spec fn flag_of(v: MetaValue) -> Option<bool> {
    match millis_of(v) {
        Some(m) => if m == 1000 { Some(true) } else if m == 0 { Some(false) } else { None },
        None => None,
    }
}

/// Whether a timer armed at `start` has run for `duration` by `now`.
pub open spec fn timer_done(start: Option<u64>, now: u64, duration: u64) -> bool {
    match start {
        Some(s) => now >= s && now - s >= duration,
        None => false,
    }
}

/// Whether all five configuration entries read.
pub open spec fn delay_config_ok(a: Seq<MetaValue>) -> bool {
    &&& a.len() == 5
    &&& whole_of(a[0]) is Some
    &&& whole_of(a[1]) is Some
    &&& duration_of(a[2]) is Some
    &&& flag_of(a[3]) is Some
    &&& flag_of(a[4]) is Some
}

impl DelayedAction {
    /// What `new` guarantees.
    pub open spec fn new_post(value: MetaValue, r: Result<DelayedAction, Reason>) -> bool {
        &&& (match value {
                    MetaValue::Array(a) => if a@.len() != 5 {
                        r == Err::<DelayedAction, Reason>(Reason::Arity)
                    } else if delay_config_ok(a@) {
                        r matches Ok(d) && d.from_id == whole_of(a@[0]).unwrap()
                            && d.to_id == whole_of(a@[1]).unwrap()
                            && d.duration_ms == duration_of(a@[2]).unwrap()
                            && d.will_not_override == flag_of(a@[3]).unwrap()
                            && d.only_edge == flag_of(a@[4]).unwrap()
                            && d.start_time is None && d.button_state is None && d.name@ == "delay_transmitter"@
                    } else {
                        r == Err::<DelayedAction, Reason>(Reason::BadValue)
                    },
                    _ => r == Err::<DelayedAction, Reason>(Reason::BadValue),
                })
    }

    /// Builds a delay from `[from_id, to_id, seconds, will_not_override, only_edge]`.
    pub fn new(value: &MetaValue) -> (r: Result<DelayedAction, Reason>)
        ensures
            Self::new_post(*value, r),

    {
        let a = match value.as_array() {
            Some(a) => a,
            None => {
                return Err(Reason::BadValue);
            },
        };
        if a.len() != 5 {
            return Err(Reason::Arity);
        }
        match (a[0].whole(), a[1].whole(), a[2].duration_ms(), a[3].flag(), a[4].flag()) {
            (Some(from_id), Some(to_id), Some(d), Some(w), Some(o)) => Ok(DelayedAction {
                start_time: None,
                duration_ms: d,
                from_id,
                to_id,
                name: "delay_transmitter".to_owned(),
                button_state: None,
                will_not_override: w,
                only_edge: o,
            }),
            _ => Err(Reason::BadValue),
        }
    }

    /// What `predicate` guarantees.
    pub open spec fn predicate_post(pre: Self, post: Self, now: u64, bus: BusView, r: bool) -> bool {
        &&& (post.duration_ms == pre.duration_ms)
        &&& (post.from_id == pre.from_id)
        &&& (post.to_id == pre.to_id)
        &&& (post.will_not_override == pre.will_not_override)
        &&& (post.only_edge == pre.only_edge)
        &&& (post.name == pre.name)
        &&& (timer_done(pre.start_time, now, pre.duration_ms) ==> {
                    &&& r
                    &&& post.start_time is None
                    &&& post.button_state == pre.button_state
                })
        &&& (!timer_done(pre.start_time, now, pre.duration_ms) ==> {
                    &&& !r
                    &&& match first_with_id(bus.visible_buttons(), pre.from_id) {
                        Some(b) => if pre.start_time is None && !(pre.only_edge && !b.just_changed) {
                            &&& post.start_time == Some(now)
                            &&& post.button_state == Some(
                                ButtonState { id: pre.to_id, is_pressed: b.is_pressed, just_changed: b.just_changed },
                            )
                        } else {
                            &&& post.start_time == pre.start_time
                            &&& post.button_state == pre.button_state
                        },
                        None => {
                            &&& post.start_time == pre.start_time
                            &&& post.button_state == pre.button_state
                        },
                    }
                })
        &&& (pre.only_edge && !timer_done(pre.start_time, now, pre.duration_ms)
                    && (first_with_id(bus.visible_buttons(), pre.from_id) matches Some(b) && !b.just_changed)
                    ==> post.start_time == pre.start_time)
    }

    /// Holds when an armed timer runs out (and disarms it). Otherwise arms the
    /// timer on the oldest visible state of the incoming wire, capturing it
    /// for the outgoing wire, unless armed already or, with `only_edge`, the
    /// state did not change.
    pub fn predicate(&mut self, now: u64, bus: &SignalBus) -> (r: bool)
        ensures
            Self::predicate_post(*old(self), *final(self), now, bus@, r),

    {
        if let Some(s) = self.start_time {
            if now >= s && now - s >= self.duration_ms {
                self.start_time = None;
                return true;
            }
            if self.will_not_override {
                return false;
            }
        }
        if let Some(b) = bus.first_button(self.from_id) {
            if self.start_time.is_none() {
                if self.only_edge && !b.just_changed {
                    return false;
                }
                self.start_time = Some(now);
                self.button_state = Some(ButtonState { id: self.to_id, is_pressed: b.is_pressed, just_changed: b.just_changed });
                return false;
            }
        }
        false
    }

    /// What `execute` guarantees.
    pub open spec fn execute_post(pre: Self, post: Self, b0: BusView, b1: BusView, r: bool) -> bool {
        &&& (r)
        &&& (match pre.button_state {
                    Some(b) => b1 == b0.emit_button(b),
                    None => b1 == b0,
                })
        &&& (post.start_time is None)
        &&& (post.button_state is None)
        &&& (post.duration_ms == pre.duration_ms)
        &&& (post.from_id == pre.from_id)
        &&& (post.to_id == pre.to_id)
        &&& (post.will_not_override == pre.will_not_override)
        &&& (post.only_edge == pre.only_edge)
        &&& (post.name == pre.name)
    }

    /// Sends the captured state on the outgoing wire and clears it.
    pub fn execute(&mut self, bus: &mut SignalBus) -> (r: bool)
        ensures
            Self::execute_post(*old(self), *final(self), old(bus)@, final(bus)@, r),

    {
        if let Some(b) = self.button_state {
            bus.emit_button(b);
        }
        self.start_time = None;
        self.button_state = None;
        true
    }
}

} // verus!
