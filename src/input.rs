//! An in-world text field: the player aims at a stand, presses E, types, and
//! Enter sends what was typed as a named custom event.

use vstd::prelude::*;
use crate::error::Reason;
use crate::meta::MetaValue;
use crate::signal::BusView;
use crate::signal::{CustomEvent, CustomView, SignalBus};
use crate::text::string_from_chars;
use crate::world::{Effect, Frame, Sense};
use crate::settings::PlayerState;

verus! {

/// Whether `char::is_alphanumeric` holds of `c`.
pub uninterp spec fn alphanumeric(c: char) -> bool;

/// Relies on `char::is_alphanumeric`: alphabetic or numeric in Unicode's
/// sense, which takes in the ASCII letters and digits.
#[verifier::external_body]
fn is_alphanumeric(c: char) -> (r: bool)
    ensures
        r == alphanumeric(c),
        ('a' <= c <= 'z' || 'A' <= c <= 'Z' || '0' <= c <= '9') ==> r,
{
    c.is_alphanumeric()
}

/// The characters a field takes: alphanumerics and ` ,.*^`.
pub open spec fn accepted(c: char) -> bool {
    alphanumeric(c) || c == ' ' || c == ',' || c == '.' || c == '*' || c == '^'
}

pub open spec fn keep_accepted(s: Seq<char>) -> Seq<char>
    decreases s.len(),
{
    if s.len() == 0 {
        Seq::empty()
    } else if accepted(s.last()) {
        keep_accepted(s.drop_last()).push(s.last())
    } else {
        keep_accepted(s.drop_last())
    }
}

/// The caret drawn after the text: a bar on even seconds, a space on odd ones.
pub open spec fn caret(now_ms: u64) -> char {
    if (now_ms / 1000) % 2 == 0 { '|' } else { ' ' }
}

/// The text after typing `typed` and, on Backspace, deleting the last character.
pub open spec fn edited(text: Seq<char>, typed: Seq<char>, back: bool) -> Seq<char> {
    let t = text + keep_accepted(typed);
    if back && t.len() > 0 { t.drop_last() } else { t }
}

pub struct InputFieldAction {
    pub is_started: bool,
    /// Also the name of the event the field sends.
    pub name: String,
    pub enterred_string: Vec<char>,
    pub typing_mode: bool,
    pub hint: String,
    pub stand_entity: u64,
}

impl InputFieldAction {
    /// What `new` guarantees.
    pub open spec fn new_post(value: MetaValue, r: Result<InputFieldAction, Reason>) -> bool {
        &&& (match value {
                    MetaValue::Str(n) => r matches Ok(a) && a.name@ == n@ && a.enterred_string@.len() == 0
                        && !a.typing_mode && !a.is_started && a.hint@ == "Press button"@,
                    _ => r == Err::<InputFieldAction, Reason>(Reason::BadValue),
                })
    }

    /// Builds a field whose events carry the name `value`.
    pub fn new(value: &MetaValue) -> (r: Result<InputFieldAction, Reason>)
        ensures
            Self::new_post(*value, r),

    {
        match value {
            MetaValue::Str(n) => Ok(InputFieldAction {
                is_started: false,
                name: n.clone(),
                enterred_string: Vec::new(),
                typing_mode: false,
                hint: "Press button".to_owned(),
                stand_entity: 0,
            }),
            _ => Err(Reason::BadValue),
        }
    }

    pub fn try_startup(&mut self, me: u64)
        ensures
            old(self).is_started ==> *final(self) == *old(self),
            !old(self).is_started ==> final(self).is_started && final(self).stand_entity == me
                && final(self).name == old(self).name && final(self).typing_mode == old(self).typing_mode
                && final(self).enterred_string == old(self).enterred_string && final(self).hint == old(self).hint,
    {
        if !self.is_started {
            self.stand_entity = me;
            self.is_started = true;
        }
    }

    /// What `predicate` guarantees.
    pub open spec fn predicate_post(pre: Self, post: Self, frame: Frame, sense: Sense, f0: Seq<Effect>, f1: Seq<Effect>, r: bool) -> bool {
        &&& (post.name == pre.name)
        &&& (post.hint == pre.hint)
        &&& (post.stand_entity == pre.stand_entity)
        &&& (post.is_started == pre.is_started)
        &&& (!pre.typing_mode ==> {
                    &&& post.typing_mode == pre.typing_mode
                    &&& post.enterred_string@ == pre.enterred_string@
                    &&& r == (sense.aimed && frame.e_pressed)
                    &&& sense.aimed ==> f1 == f0.push(Effect::Hint { text: pre.hint, priority: 1, key_e: true })
                    &&& !sense.aimed ==> f1 == f0
                })
        &&& (pre.typing_mode ==> {
                    let text = edited(pre.enterred_string@, frame.typed@, frame.back_pressed);
                    let node = pre.stand_entity;
                    let leave = seq![Effect::SetPlayerState(PlayerState::Interactive), Effect::InputVisible { node, visible: false }];
                    &&& post.enterred_string@ == text
                    &&& r == frame.enter_pressed
                    &&& post.typing_mode == !frame.escape_pressed
                    &&& f1.len() == f0.len() + (if frame.enter_pressed { 2int } else { 0 })
                        + (if frame.escape_pressed { 2int } else { 0 }) + 1
                    &&& f1.subrange(0, f0.len() as int) == f0
                    &&& (frame.enter_pressed || frame.escape_pressed) ==> f1.subrange(
                        f0.len() as int,
                        f0.len() + 2int,
                    ) == leave
                    &&& f1.last() matches Effect::InputText { node: n, text: t } && n == node
                        && t@ == text.push(caret(frame.now_ms))
                })
    }

    /// Idle: proposes the hint while the player aims at the stand, and holds
    /// on E. Typing: takes the typed characters and Backspace, leaves typing
    /// on Escape, holds on Enter, and shows the text with its caret.
    pub fn predicate(&mut self, frame: &Frame, sense: Sense, fx: &mut Vec<Effect>) -> (r: bool)
        ensures
            Self::predicate_post(*old(self), *final(self), *frame, sense, old(fx)@, final(fx)@, r),

    {
        if !self.typing_mode {
            if sense.aimed {
                fx.push(Effect::Hint { text: self.hint.clone(), priority: 1, key_e: true });
                return frame.e_pressed;
            }
            return false;
        }
        let ghost start = self.enterred_string@;
        let mut i: usize = 0;
        while i < frame.typed.len()
            invariant
                self.enterred_string@ == start + keep_accepted(frame.typed@.subrange(0, i as int)),
                i <= frame.typed@.len(),
                self.name == old(self).name,
                self.hint == old(self).hint,
                self.stand_entity == old(self).stand_entity,
                self.is_started == old(self).is_started,
                self.typing_mode == old(self).typing_mode,
                fx@ == old(fx)@,
            decreases frame.typed@.len() - i,
        {
            let c = frame.typed[i];
            assert(frame.typed@.subrange(0, i + 1).drop_last() =~= frame.typed@.subrange(0, i as int));
            assert(frame.typed@.subrange(0, i + 1).last() == c);
            if is_alphanumeric(c) || c == ' ' || c == ',' || c == '.' || c == '*' || c == '^' {
                self.enterred_string.push(c);
            }
            i = i + 1;
        }
        assert(frame.typed@.subrange(0, i as int) =~= frame.typed@);
        if frame.back_pressed {
            self.enterred_string.pop();
        }
        assert(self.enterred_string@ =~= edited(start, frame.typed@, frame.back_pressed));
        let mut a = false;
        let node = self.stand_entity;
        if frame.enter_pressed {
            fx.push(Effect::SetPlayerState(PlayerState::Interactive));
            fx.push(Effect::InputVisible { node, visible: false });
            a = true;
        }
        if frame.escape_pressed {
            fx.push(Effect::SetPlayerState(PlayerState::Interactive));
            self.typing_mode = false;
            fx.push(Effect::InputVisible { node, visible: false });
        }
        let mut shown = self.enterred_string.clone();
        shown.push(if (frame.now_ms / 1000) % 2 == 0 { '|' } else { ' ' });
        let text = string_from_chars(&shown);
        fx.push(Effect::InputText { node, text });
        assert(fx@.subrange(0, old(fx)@.len() as int) =~= old(fx)@);
        if frame.enter_pressed || frame.escape_pressed {
            assert(fx@.subrange(old(fx)@.len() as int, old(fx)@.len() + 2int) =~= seq![
                Effect::SetPlayerState(PlayerState::Interactive),
                Effect::InputVisible { node, visible: false },
            ]);
        }
        a
    }

    /// What `execute` guarantees.
    pub open spec fn execute_post(pre: Self, post: Self, b0: BusView, b1: BusView, f0: Seq<Effect>, f1: Seq<Effect>, r: bool) -> bool {
        &&& (r)
        &&& (post.name == pre.name)
        &&& (post.hint == pre.hint)
        &&& (post.stand_entity == pre.stand_entity)
        &&& (post.is_started == pre.is_started)
        &&& (post.typing_mode == !pre.typing_mode)
        &&& (!pre.typing_mode ==> {
                    &&& f1 == f0.push(Effect::SetPlayerState(PlayerState::Restricted)).push(
                        Effect::InputVisible { node: pre.stand_entity, visible: true },
                    )
                    &&& b1 == b0
                    &&& post.enterred_string@ == pre.enterred_string@
                })
        &&& (pre.typing_mode ==> {
                    &&& f1 == f0
                    &&& b1 == b0.emit_custom(
                        CustomView { name: pre.name@, payload: pre.enterred_string@ },
                    )
                    &&& post.enterred_string@.len() == 0
                })
    }

    /// Idle: enters typing and restricts the player. Typing: sends the text
    /// as a custom event named after the field, clears it and goes idle.
    pub fn execute(&mut self, bus: &mut SignalBus, fx: &mut Vec<Effect>) -> (r: bool)
        ensures
            Self::execute_post(*old(self), *final(self), old(bus)@, final(bus)@, old(fx)@, final(fx)@, r),

    {
        if !self.typing_mode {
            fx.push(Effect::SetPlayerState(PlayerState::Restricted));
            fx.push(Effect::InputVisible { node: self.stand_entity, visible: true });
            self.typing_mode = true;
        } else {
            let payload = string_from_chars(&self.enterred_string);
            bus.emit_custom(CustomEvent::new(self.name.clone(), payload));
            self.typing_mode = false;
            self.enterred_string.clear();
        }
        true
    }
}

} // verus!
