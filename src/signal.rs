//! The signal bus: per-tick queues of button states and named custom events,
//! double-buffered so that a signal stays readable for the tick it was sent in
//! and the tick after.

use vstd::prelude::*;

verus! {

/// A numeric wire signal sent by buttons, sensors, delays and triggers.
#[derive(Clone, Copy, Debug, PartialEq, Eq, Structural)]
pub struct ButtonState {
    pub is_pressed: bool,
    pub just_changed: bool,
    pub id: u64,
}

/// A free-form named event, used by input fields and quiz chambers.
#[derive(Debug)]
pub struct CustomEvent {
    pub name: String,
    pub json_encoded: String,
}

/// What a custom event holds: its name and its payload.
pub struct CustomView {
    pub name: Seq<char>,
    pub payload: Seq<char>,
}

impl CustomEvent {
    pub open spec fn view(&self) -> CustomView {
        CustomView { name: self.name@, payload: self.json_encoded@ }
    }

    pub fn new(name: String, json_encoded: String) -> (r: CustomEvent)
        ensures
            r.name@ == name@,
            r.json_encoded@ == json_encoded@,
    {
        CustomEvent { name, json_encoded }
    }
}

/// The contents of the bus: what was sent in the previous tick and in this one.
pub struct BusView {
    pub last_buttons: Seq<ButtonState>,
    pub buttons: Seq<ButtonState>,
    pub last_customs: Seq<CustomView>,
    pub customs: Seq<CustomView>,
}

impl BusView {
    pub open spec fn empty() -> BusView {
        BusView {
            last_buttons: Seq::empty(),
            buttons: Seq::empty(),
            last_customs: Seq::empty(),
            customs: Seq::empty(),
        }
    }

    pub open spec fn emit_button(self, b: ButtonState) -> BusView {
        BusView { buttons: self.buttons.push(b), ..self }
    }

    pub open spec fn emit_buttons(self, bs: Seq<ButtonState>) -> BusView {
        BusView { buttons: self.buttons + bs, ..self }
    }

    pub open spec fn emit_custom(self, e: CustomView) -> BusView {
        BusView { customs: self.customs.push(e), ..self }
    }

    /// The tick boundary: this tick's signals become last tick's, the older ones go.
    pub open spec fn end_tick(self) -> BusView {
        BusView {
            last_buttons: self.buttons,
            buttons: Seq::empty(),
            last_customs: self.customs,
            customs: Seq::empty(),
        }
    }

    /// Every button state a reader sees now, oldest first.
    pub open spec fn visible_buttons(self) -> Seq<ButtonState> {
        self.last_buttons + self.buttons
    }

    /// Every custom event a reader sees now, oldest first.
    pub open spec fn visible_customs(self) -> Seq<CustomView> {
        self.last_customs + self.customs
    }
}

/// The first state in `s` that carries wire `id`.
pub open spec fn first_with_id(s: Seq<ButtonState>, id: u64) -> Option<ButtonState>
    decreases s.len(),
{
    if s.len() == 0 {
        None
    } else {
        match first_with_id(s.drop_last(), id) {
            Some(b) => Some(b),
            None => if s.last().id == id { Some(s.last()) } else { None },
        }
    }
}

/// The last state in `s` that carries wire `id`.
pub open spec fn last_with_id(s: Seq<ButtonState>, id: u64) -> Option<ButtonState>
    decreases s.len(),
{
    if s.len() == 0 {
        None
    } else if s.last().id == id {
        Some(s.last())
    } else {
        last_with_id(s.drop_last(), id)
    }
}

/// Index of the first event in `s` named `name`.
pub open spec fn first_named(s: Seq<CustomView>, name: Seq<char>) -> Option<int>
    decreases s.len(),
{
    if s.len() == 0 {
        None
    } else {
        match first_named(s.drop_last(), name) {
            Some(i) => Some(i),
            None => if s.last().name == name { Some(s.len() - 1) } else { None },
        }
    }
}

pub proof fn lemma_first_named_bound(s: Seq<CustomView>, name: Seq<char>)
    ensures
        first_named(s, name) matches Some(i) ==> 0 <= i < s.len() && s[i].name == name,
    decreases s.len(),
{
    if s.len() > 0 {
        lemma_first_named_bound(s.drop_last(), name);
    }
}

/// Two tick queues for each kind of signal; see `BusView`.
pub struct SignalBus {
    last_buttons: Vec<ButtonState>,
    buttons: Vec<ButtonState>,
    last_customs: Vec<CustomEvent>,
    customs: Vec<CustomEvent>,
}

pub open spec fn customs_view(v: Seq<CustomEvent>) -> Seq<CustomView> {
    v.map_values(|e: CustomEvent| e.view())
}

impl SignalBus {
    pub closed spec fn view(&self) -> BusView {
        BusView {
            last_buttons: self.last_buttons@,
            buttons: self.buttons@,
            last_customs: customs_view(self.last_customs@),
            customs: customs_view(self.customs@),
        }
    }

    pub fn new() -> (r: SignalBus)
        ensures
            r@ == BusView::empty(),
    {
        let r = SignalBus {
            last_buttons: Vec::new(),
            buttons: Vec::new(),
            last_customs: Vec::new(),
            customs: Vec::new(),
        };
        assert(customs_view(r.customs@) =~= Seq::empty());
        assert(customs_view(r.last_customs@) =~= Seq::empty());
        r
    }

    /// Appends a button state to this tick's queue.
    pub fn emit_button(&mut self, b: ButtonState)
        ensures
            final(self)@ == old(self)@.emit_button(b),
    {
        self.buttons.push(b);
    }

    /// Appends a custom event to this tick's queue.
    pub fn emit_custom(&mut self, e: CustomEvent)
        ensures
            final(self)@ == old(self)@.emit_custom(e.view()),
    {
        let ghost before = self.customs@;
        self.customs.push(e);
        assert(customs_view(self.customs@) =~= customs_view(before).push(e.view()));
    }

    /// Closes the tick: what was sent in it stays readable one tick more.
    pub fn end_tick(&mut self)
        ensures
            final(self)@ == old(self)@.end_tick(),
    {
        let mut b: Vec<ButtonState> = Vec::new();
        core::mem::swap(&mut self.buttons, &mut b);
        self.last_buttons = b;
        let mut c: Vec<CustomEvent> = Vec::new();
        core::mem::swap(&mut self.customs, &mut c);
        self.last_customs = c;
        assert(customs_view(self.customs@) =~= Seq::empty());
    }

    /// Every visible button state, oldest first.
    pub fn visible_buttons(&self) -> (r: Vec<ButtonState>)
        ensures
            r@ == self@.visible_buttons(),
    {
        let mut r: Vec<ButtonState> = Vec::new();
        let mut i: usize = 0;
        while i < self.last_buttons.len()
            invariant
                i <= self.last_buttons.len(),
                r@ == self.last_buttons@.subrange(0, i as int),
            decreases self.last_buttons.len() - i,
        {
            r.push(self.last_buttons[i]);
            i = i + 1;
        }
        let mut j: usize = 0;
        while j < self.buttons.len()
            invariant
                j <= self.buttons.len(),
                r@ == self.last_buttons@ + self.buttons@.subrange(0, j as int),
            decreases self.buttons.len() - j,
        {
            r.push(self.buttons[j]);
            j = j + 1;
        }
        assert(r@ =~= self@.visible_buttons());
        r
    }

    /// The oldest visible button state on wire `id`.
    pub fn first_button(&self, id: u64) -> (r: Option<ButtonState>)
        ensures
            r == first_with_id(self@.visible_buttons(), id),
    {
        self.scan_buttons(id, true)
    }

    /// The newest visible button state on wire `id`.
    pub fn latest_button(&self, id: u64) -> (r: Option<ButtonState>)
        ensures
            r == last_with_id(self@.visible_buttons(), id),
    {
        self.scan_buttons(id, false)
    }

    fn scan_buttons(&self, id: u64, oldest: bool) -> (r: Option<ButtonState>)
        ensures
            oldest ==> r == first_with_id(self@.visible_buttons(), id),
            !oldest ==> r == last_with_id(self@.visible_buttons(), id),
    {
        let ghost s = self@.visible_buttons();
        let mut r: Option<ButtonState> = None;
        let mut i: usize = 0;
        while i < self.last_buttons.len()
            invariant
                s == self.last_buttons@ + self.buttons@,
                i <= self.last_buttons.len(),
                oldest ==> r == first_with_id(s.subrange(0, i as int), id),
                !oldest ==> r == last_with_id(s.subrange(0, i as int), id),
            decreases self.last_buttons.len() - i,
        {
            let b = self.last_buttons[i];
            assert(s.subrange(0, i + 1).drop_last() =~= s.subrange(0, i as int));
            assert(s[i as int] == b);
            if b.id == id && (r.is_none() || !oldest) {
                r = Some(b);
            }
            i = i + 1;
        }
        let m = self.last_buttons.len();
        let mut j: usize = 0;
        while j < self.buttons.len()
            invariant
                s == self.last_buttons@ + self.buttons@,
                m == self.last_buttons.len(),
                j <= self.buttons.len(),
                oldest ==> r == first_with_id(s.subrange(0, m + j), id),
                !oldest ==> r == last_with_id(s.subrange(0, m + j), id),
            decreases self.buttons.len() - j,
        {
            let b = self.buttons[j];
            assert(s.subrange(0, m + j + 1).drop_last() =~= s.subrange(0, m + j));
            assert(s[m + j] == b);
            if b.id == id && (r.is_none() || !oldest) {
                r = Some(b);
            }
            j = j + 1;
        }
        assert(s.subrange(0, m + j) =~= s);
        r
    }

    /// The oldest visible custom event named `name`.
    pub fn first_custom(&self, name: &String) -> (r: Option<&CustomEvent>)
        ensures
            match first_named(self@.visible_customs(), name@) {
                None => r is None,
                Some(i) => r matches Some(e) && e.view() == self@.visible_customs()[i],
            },
    {
        let ghost s = self@.visible_customs();
        let ghost lv = customs_view(self.last_customs@);
        let ghost cv = customs_view(self.customs@);
        let mut i: usize = 0;
        while i < self.last_customs.len()
            invariant
                s == lv + cv,
                lv == customs_view(self.last_customs@),
                cv == customs_view(self.customs@),
                i <= self.last_customs.len(),
                first_named(s.subrange(0, i as int), name@) is None,
            decreases self.last_customs.len() - i,
        {
            assert(s.subrange(0, i + 1).drop_last() =~= s.subrange(0, i as int));
            assert(s[i as int] == self.last_customs@[i as int].view());
            if self.last_customs[i].name == *name {
                assert(first_named(s.subrange(0, i + 1), name@) == Some(i as int));
                proof { lemma_first_named_prefix(s, name@, i + 1); }
                return Some(&self.last_customs[i]);
            }
            i = i + 1;
        }
        let m = self.last_customs.len();
        let mut j: usize = 0;
        while j < self.customs.len()
            invariant
                s == lv + cv,
                lv == customs_view(self.last_customs@),
                cv == customs_view(self.customs@),
                m == self.last_customs.len(),
                j <= self.customs.len(),
                first_named(s.subrange(0, m + j), name@) is None,
            decreases self.customs.len() - j,
        {
            assert(s.subrange(0, m + j + 1).drop_last() =~= s.subrange(0, m + j));
            assert(s[m + j] == self.customs@[j as int].view());
            if self.customs[j].name == *name {
                assert(first_named(s.subrange(0, m + j + 1), name@) == Some(m + j));
                proof { lemma_first_named_prefix(s, name@, m + j + 1); }
                return Some(&self.customs[j]);
            }
            j = j + 1;
        }
        assert(s.subrange(0, m + j) =~= s);
        None
    }
}

/// A match found in a prefix is the first match of the whole sequence.
proof fn lemma_first_named_prefix(s: Seq<CustomView>, name: Seq<char>, k: int)
    requires
        0 <= k <= s.len(),
        first_named(s.subrange(0, k), name) is Some,
    ensures
        first_named(s, name) == first_named(s.subrange(0, k), name),
    decreases s.len() - k,
{
    if k == s.len() {
        assert(s.subrange(0, k) =~= s);
    } else {
        assert(s.subrange(0, k + 1).drop_last() =~= s.subrange(0, k));
        lemma_first_named_prefix(s, name, k + 1);
    }
}

/// A button state sent in one tick is seen by every reader in that tick and
/// the next, whatever else is sent meanwhile; after a second tick boundary
/// only what was sent since the first one is left.
pub proof fn lemma_button_retention(
    v: BusView,
    b: ButtonState,
    same_tick: Seq<ButtonState>,
    next_tick: Seq<ButtonState>,
    third_tick: Seq<ButtonState>,
)
    ensures
        v.emit_button(b).emit_buttons(same_tick).visible_buttons().contains(b),
        v.emit_button(b).emit_buttons(same_tick).end_tick().emit_buttons(
            next_tick,
        ).visible_buttons().contains(b),
        v.emit_button(b).emit_buttons(same_tick).end_tick().emit_buttons(
            next_tick,
        ).end_tick().emit_buttons(third_tick).visible_buttons() == next_tick + third_tick,
{
    let w = v.emit_button(b).emit_buttons(same_tick);
    let k = (v.last_buttons.len() + v.buttons.len()) as int;
    assert(w.visible_buttons()[k] == b);
    let x = w.end_tick().emit_buttons(next_tick);
    assert(x.visible_buttons()[v.buttons.len() as int] == b);
    let y = x.end_tick().emit_buttons(third_tick);
    assert(y.visible_buttons() =~= next_tick + third_tick);
}

} // verus!
