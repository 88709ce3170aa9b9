//! A quiz chamber: a trigger picks a route, whose scenery is switched on and
//! whose answer is checked against a named input event.

use vstd::prelude::*;
use vstd::string::*;
use crate::error::{Param, Reason};
use crate::meta::{MetaValue, Metadata};
use crate::signal::BusView;
use crate::signal::{first_named, first_with_id, lemma_first_named_bound, ButtonState, SignalBus};
use crate::text::chars_of;

verus! {

/// One route: the wire that activates it, the wires for a right and a wrong
/// answer, and the expected answer.
pub struct Route {
    pub trigger: u64,
    pub right_path: u64,
    pub wrong_path: u64,
    pub answer: String,
}

pub struct TestChamberAction {
    pub is_started: bool,
    pub is_triggered: bool,
    pub trigger: u64,
    pub routes: Vec<Route>,
    pub repeats_globally: bool,
    pub chosen_route_index: usize,
    pub name: String,
    pub input_field: String,
}

/// Relies on `rand::Rng::gen_range` over `0..n` with the thread-local
/// generator (rand 0.8): a value below `n`; it panics on an empty range.
#[verifier::external_body]
fn random_below(n: usize) -> (r: usize)
    requires
        n > 0,
    ensures
        r < n,
{
    rand::Rng::gen_range(&mut rand::thread_rng(), 0..n)
}

/// An array parameter whose entries are all non-negative integers.
pub open spec fn nat_list(p: Option<MetaValue>) -> Option<Seq<u64>> {
    match p {
        Some(MetaValue::Array(a)) => if forall|i: int| 0 <= i < a@.len() ==> #[trigger] a@[i] is Nat {
            Some(a@.map_values(|v: MetaValue| v->Nat_0))
        } else {
            None
        },
        _ => None,
    }
}

/// An array parameter whose entries are all strings.
pub open spec fn str_list(p: Option<MetaValue>) -> Option<Seq<String>> {
    match p {
        Some(MetaValue::Array(a)) => if forall|i: int| 0 <= i < a@.len() ==> #[trigger] a@[i] is Str {
            Some(a@.map_values(|v: MetaValue| v->Str_0))
        } else {
            None
        },
        _ => None,
    }
}

/// A chamber's configuration, as read from its node.
pub struct ChamberSpec {
    pub trigger: u64,
    pub routes: Seq<Route>,
    pub repeats_globally: bool,
    pub input_field: Seq<char>,
}

/// What a chamber's value and parameters configure, or why they are rejected.
pub open spec fn chamber_spec(value: MetaValue, main: Metadata) -> Result<ChamberSpec, Reason> {
    let q = nat_list(main.get_spec("#test_chamber_routes"@));
    let w = nat_list(main.get_spec("#test_chamber_wrongs"@));
    let r = nat_list(main.get_spec("#test_chamber_rights"@));
    let a = str_list(main.get_spec("#test_chamber_answer"@));
    if q is None {
        Err(Reason::BadParam(Param::ChamberRoutes))
    } else if w is None {
        Err(Reason::BadParam(Param::ChamberWrongs))
    } else if r is None {
        Err(Reason::BadParam(Param::ChamberRights))
    } else if a is None {
        Err(Reason::BadParam(Param::ChamberAnswer))
    } else {
        let (q, w, r, a) = (q.unwrap(), w.unwrap(), r.unwrap(), a.unwrap());
        if q.len() != w.len() || q.len() != r.len() || q.len() != a.len() {
            Err(Reason::Arity)
        } else {
            match (main.get_spec("#test_chamber_repeats_globally"@), value, main.get_spec("#test_chamber_input_name"@)) {
                (Some(MetaValue::Bool(g)), MetaValue::Nat(t), Some(MetaValue::Str(n))) => Ok(ChamberSpec {
                    trigger: t,
                    routes: Seq::new(q.len(), |i: int| Route { trigger: q[i], wrong_path: w[i], right_path: r[i], answer: a[i] }),
                    repeats_globally: g,
                    input_field: n@,
                }),
                (Some(MetaValue::Bool(_)), MetaValue::Nat(_), _) => Err(Reason::BadParam(Param::ChamberInputName)),
                (Some(MetaValue::Bool(_)), _, _) => Err(Reason::BadValue),
                _ => Err(Reason::BadParam(Param::ChamberRepeatsGlobally)),
            }
        }
    }
}

fn read_nat_list(v: &MetaValue) -> (r: Option<Vec<u64>>)
    ensures
        match nat_list(Some(*v)) {
            Some(s) => r matches Some(x) && x@ == s,
            None => r is None,
        },
{
    let a = match v.as_array() {
        Some(a) => a,
        None => {
            return None;
        },
    };
    let mut out: Vec<u64> = Vec::new();
    let mut i: usize = 0;
    while i < a.len()
        invariant
            i <= a@.len(),
            out@.len() == i,
            forall|k: int| 0 <= k < i ==> #[trigger] a@[k] is Nat,
            forall|k: int| 0 <= k < i ==> #[trigger] out@[k] == a@[k]->Nat_0,
            *v matches MetaValue::Array(x) && x@ == a@,
        decreases a@.len() - i,
    {
        let ghost old_out = out@;
        let item = &a[i];
        assert(*item == a@[i as int]);
        match item.as_u64() {
            Some(n) => {
                assert(a@[i as int] is Nat);
                out.push(n);
                assert(out@[i as int] == a@[i as int]->Nat_0);
                assert(forall|k: int| 0 <= k < i ==> out@[k] == old_out[k]);
            },
            None => {
                assert(!((*v)->Array_0@[i as int] is Nat));
                return None;
            },
        }
        i = i + 1;
    }
    assert(forall|k: int| 0 <= k < a@.len() ==> #[trigger] a@[k] is Nat);
    assert(out@ =~= a@.map_values(|v: MetaValue| v->Nat_0));
    Some(out)
}

fn read_str_list(v: &MetaValue) -> (r: Option<Vec<String>>)
    ensures
        match str_list(Some(*v)) {
            Some(s) => r matches Some(x) && x@ == s,
            None => r is None,
        },
{
    let a = match v.as_array() {
        Some(a) => a,
        None => {
            return None;
        },
    };
    let mut out: Vec<String> = Vec::new();
    let mut i: usize = 0;
    while i < a.len()
        invariant
            i <= a@.len(),
            out@.len() == i,
            forall|k: int| 0 <= k < i ==> #[trigger] a@[k] is Str,
            forall|k: int| 0 <= k < i ==> #[trigger] out@[k] == a@[k]->Str_0,
            *v matches MetaValue::Array(x) && x@ == a@,
        decreases a@.len() - i,
    {
        match &a[i] {
            MetaValue::Str(s) => {
                let ghost old_out = out@;
                out.push(s.clone());
                assert(out@[i as int] == a@[i as int]->Str_0);
                assert(forall|k: int| 0 <= k < i ==> out@[k] == old_out[k]);
            },
            _ => {
                assert(!((*v)->Array_0@[i as int] is Str));
                return None;
            },
        }
        i = i + 1;
    }
    assert(forall|k: int| 0 <= k < a@.len() ==> #[trigger] a@[k] is Str);
    assert(out@ =~= a@.map_values(|v: MetaValue| v->Str_0));
    Some(out)
}

/// Whether `c` is printable ASCII: a space or a visible character.
pub open spec fn printable(c: char) -> bool {
    32 <= (c as u32) && (c as u32) < 127
}

/// The characters of `s` that are printable ASCII.
pub open spec fn ascii_only(s: Seq<char>) -> Seq<char>
    decreases s.len(),
{
    if s.len() == 0 {
        Seq::empty()
    } else if printable(s.last()) {
        ascii_only(s.drop_last()).push(s.last())
    } else {
        ascii_only(s.drop_last())
    }
}

fn strip_non_ascii(s: &str) -> (r: Vec<char>)
    ensures
        r@ == ascii_only(s@),
{
    let n = s.unicode_len();
    let mut r: Vec<char> = Vec::new();
    let mut i: usize = 0;
    while i < n
        invariant
            n == s@.len(),
            i <= n,
            r@ == ascii_only(s@.subrange(0, i as int)),
        decreases n - i,
    {
        let c = s.get_char(i);
        assert(s@.subrange(0, i + 1).drop_last() =~= s@.subrange(0, i as int));
        assert(s@.subrange(0, i + 1).last() == c);
        if 32 <= (c as u32) && (c as u32) < 127 {
            r.push(c);
        }
        i = i + 1;
    }
    assert(s@.subrange(0, n as int) =~= s@);
    r
}

fn same_chars(a: &Vec<char>, b: &Vec<char>) -> (r: bool)
    ensures
        r == (a@ == b@),
{
    if a.len() != b.len() {
        return false;
    }
    let mut i: usize = 0;
    while i < a.len()
        invariant
            a@.len() == b@.len(),
            i <= a@.len(),
            forall|k: int| 0 <= k < i ==> a@[k] == b@[k],
        decreases a@.len() - i,
    {
        if a[i] != b[i] {
            return false;
        }
        i = i + 1;
    }
    assert(a@ =~= b@);
    true
}

impl TestChamberAction {
    /// Reads the chamber from its trigger wire and its node's
    /// `#test_chamber_*` parameters, with route `index % n` chosen among the
    /// `n` routes.
    pub fn new_with_route(value: &MetaValue, main: &Metadata, index: usize) -> (r: Result<TestChamberAction, Reason>)
        ensures
            match chamber_spec(*value, *main) {
                Ok(c) => r matches Ok(t) && t.trigger == c.trigger && t.routes@ == c.routes
                    && t.repeats_globally == c.repeats_globally && t.input_field@ == c.input_field
                    && t.chosen_route_index == (if c.routes.len() == 0 { 0 } else { index % (c.routes.len() as usize) })
                    && !t.is_triggered && !t.is_started && t.name@ == "test_chamber"@,
                Err(e) => r == Err::<TestChamberAction, Reason>(e),
            },
    {
        let q = match (match main.get("#test_chamber_routes") { Some(v) => read_nat_list(v), None => None }) {
            Some(q) => q,
            None => {
                return Err(Reason::BadParam(Param::ChamberRoutes));
            },
        };
        let w = match (match main.get("#test_chamber_wrongs") { Some(v) => read_nat_list(v), None => None }) {
            Some(w) => w,
            None => {
                return Err(Reason::BadParam(Param::ChamberWrongs));
            },
        };
        let rt = match (match main.get("#test_chamber_rights") { Some(v) => read_nat_list(v), None => None }) {
            Some(rt) => rt,
            None => {
                return Err(Reason::BadParam(Param::ChamberRights));
            },
        };
        let a = match (match main.get("#test_chamber_answer") { Some(v) => read_str_list(v), None => None }) {
            Some(a) => a,
            None => {
                return Err(Reason::BadParam(Param::ChamberAnswer));
            },
        };
        let n = q.len();
        if n != w.len() || n != rt.len() || n != a.len() {
            return Err(Reason::Arity);
        }
        let g = match main.get("#test_chamber_repeats_globally") {
            Some(MetaValue::Bool(g)) => *g,
            _ => {
                return Err(Reason::BadParam(Param::ChamberRepeatsGlobally));
            },
        };
        let t = match value.as_u64() {
            Some(t) => t,
            None => {
                return Err(Reason::BadValue);
            },
        };
        let input_field = match main.get("#test_chamber_input_name") {
            Some(MetaValue::Str(s)) => s.clone(),
            _ => {
                return Err(Reason::BadParam(Param::ChamberInputName));
            },
        };
        let ghost spec_routes = Seq::new(n as nat, |i: int| Route { trigger: q@[i], wrong_path: w@[i], right_path: rt@[i], answer: a@[i] });
        let mut routes: Vec<Route> = Vec::new();
        let mut i: usize = 0;
        while i < n
            invariant
                n == q@.len(),
                n == w@.len(),
                n == rt@.len(),
                n == a@.len(),
                i <= n,
                routes@ == spec_routes.subrange(0, i as int),
                spec_routes == Seq::new(n as nat, |i: int| Route { trigger: q@[i], wrong_path: w@[i], right_path: rt@[i], answer: a@[i] }),
            decreases n - i,
        {
            routes.push(Route { trigger: q[i], wrong_path: w[i], right_path: rt[i], answer: a[i].clone() });
            assert(routes@ =~= spec_routes.subrange(0, i + 1));
            i = i + 1;
        }
        assert(routes@ =~= spec_routes);
        Ok(TestChamberAction {
            is_started: false,
            is_triggered: false,
            trigger: t,
            routes,
            repeats_globally: g,
            chosen_route_index: if n == 0 { 0 } else { index % n },
            name: "test_chamber".to_owned(),
            input_field,
        })
    }

    /// What `new` guarantees.
    pub open spec fn new_post(value: MetaValue, main: &Metadata, r: Result<TestChamberAction, Reason>) -> bool {
        &&& (match chamber_spec(value, *main) {
                    Ok(c) => r matches Ok(t) && t.trigger == c.trigger && t.routes@ == c.routes
                        && t.repeats_globally == c.repeats_globally && t.input_field@ == c.input_field
                        && (c.routes.len() > 0 ==> t.chosen_route_index < c.routes.len()) && !t.is_triggered && !t.is_started && t.name@ == "test_chamber"@,
                    Err(e) => r == Err::<TestChamberAction, Reason>(e),
                })
    }

    /// Reads the chamber as `new_with_route` does, with a route drawn at random.
    pub fn new(value: &MetaValue, main: &Metadata) -> (r: Result<TestChamberAction, Reason>)
        ensures
            Self::new_post(*value, main, r),

    {
        match Self::new_with_route(value, main, 0) {
            Ok(mut t) => {
                if t.routes.len() > 0 {
                    let k = random_below(t.routes.len());
                    t.chosen_route_index = k;
                }
                Ok(t)
            },
            Err(e) => Err(e),
        }
    }

    pub fn try_startup(&mut self)
        ensures
            *final(self) == (TestChamberAction { is_started: true, ..*old(self) }),
    {
        if !self.is_started {
            self.is_started = true;
        }
    }

    /// What `predicate` guarantees.
    pub open spec fn predicate_post(pre: Self, post: Self, b0: BusView, b1: BusView, r: bool) -> bool {
        &&& (post.chosen_route_index == pre.chosen_route_index)
        &&& (post.routes == pre.routes)
        &&& (post.trigger == pre.trigger)
        &&& (post.input_field == pre.input_field)
        &&& (post.repeats_globally == pre.repeats_globally)
        &&& (post.is_started == pre.is_started)
        &&& (post.name == pre.name)
        &&& (!pre.is_triggered ==> {
                    let fire = first_with_id(b0.visible_buttons(), pre.trigger) matches Some(b)
                        && b.is_pressed && b.just_changed;
                    &&& r == fire
                    &&& post.is_triggered == fire
                    &&& b1 == b0
                })
        &&& (pre.is_triggered ==> {
                    &&& !r
                    &&& post.is_triggered
                    &&& if pre.chosen_route_index < pre.routes@.len() {
                        let route = pre.routes@[pre.chosen_route_index as int];
                        match first_named(b0.visible_customs(), pre.input_field@) {
                            Some(i) => b1 == b0.emit_button(ButtonState {
                                is_pressed: true,
                                just_changed: true,
                                id: if ascii_only(b0.visible_customs()[i].payload) == route.answer@ {
                                    route.right_path
                                } else {
                                    route.wrong_path
                                },
                            }),
                            None => b1 == b0,
                        }
                    } else {
                        b1 == b0
                    }
                })
    }

    /// Before the trigger: holds (once) on a pressed, changed state of the
    /// trigger wire. After it: on an event named after the input field,
    /// compares its ASCII characters with the chosen route's answer and
    /// signals the right or the wrong path. The chosen route never changes.
    pub fn predicate(&mut self, bus: &mut SignalBus) -> (r: bool)
        ensures
            Self::predicate_post(*old(self), *final(self), old(bus)@, final(bus)@, r),

    {
        if self.is_triggered {
            if self.chosen_route_index >= self.routes.len() {
                return false;
            }
            proof { lemma_first_named_bound(bus@.visible_customs(), self.input_field@); }
            let id = match bus.first_custom(&self.input_field) {
                Some(e) => {
                    let got = strip_non_ascii(e.json_encoded.as_str());
                    let route = &self.routes[self.chosen_route_index];
                    let want = chars_of(route.answer.as_str());
                    if same_chars(&got, &want) {
                        Some(route.right_path)
                    } else {
                        Some(route.wrong_path)
                    }
                },
                None => None,
            };
            if let Some(id) = id {
                bus.emit_button(ButtonState { is_pressed: true, just_changed: true, id });
            }
            return false;
        }
        match bus.first_button(self.trigger) {
            Some(b) => {
                if b.is_pressed && b.just_changed {
                    self.is_triggered = true;
                    return true;
                }
                false
            },
            None => false,
        }
    }

    /// What `execute` guarantees.
    pub open spec fn execute_post(a: Self, b0: BusView, b1: BusView, r: bool) -> bool {
        &&& (r == (a.chosen_route_index < a.routes@.len()))
        &&& (r ==> b1 == b0.emit_button(ButtonState {
                    is_pressed: true,
                    just_changed: true,
                    id: a.routes@[a.chosen_route_index as int].trigger,
                }))
        &&& (!r ==> b1 == b0)
    }

    /// Switches on the chosen route's scenery.
    pub fn execute(&self, bus: &mut SignalBus) -> (r: bool)
        ensures
            Self::execute_post(*self, old(bus)@, final(bus)@, r),

    {
        if self.chosen_route_index >= self.routes.len() {
            return false;
        }
        bus.emit_button(ButtonState {
            is_pressed: true,
            just_changed: true,
            id: self.routes[self.chosen_route_index].trigger,
        });
        true
    }
}

} // verus!
