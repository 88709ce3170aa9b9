//! A node's bag of actions, filed by unique name, and the per-tick driver
//! that runs startup, predicate and execute for each of them.

use vstd::prelude::*;
use crate::action::{execute_post, predicate_post, Action};
use crate::signal::BusView;
use crate::error::StartupError;
use crate::signal::SignalBus;
use crate::text::text_eq;
use crate::world::{Effect, Frame, Sense, Surroundings};

verus! {

/// One action and the name it is filed under.
pub struct ActorEntry {
    pub name: String,
    pub action: Action,
}

/// The actions of one node; no two share a name.
pub struct Actor {
    entries: Vec<ActorEntry>,
}

/// What happened to one action in one tick.
#[derive(Clone, Copy, Debug, PartialEq, Eq, Structural)]
pub struct TickOutcome {
    /// Whether this tick's call of startup did the startup work.
    pub started_now: bool,
    pub predicate: bool,
    pub executed: bool,
}

/// The states an action passes through in one tick: after startup, after
/// predicate, and what execute returned.
pub struct StepTrace {
    pub started: Action,
    pub fx_started: Seq<Effect>,
    pub decided: Action,
    pub bus_mid: BusView,
    pub fx_mid: Seq<Effect>,
    pub executed_result: bool,
}

/// One action's tick, from `a0` to `a1`: startup (which does nothing once
/// done), then predicate, then execute exactly when predicate held.
pub open spec fn step_via(
    a0: Action, a1: Action, sense: Sense, frame: Frame,
    b0: BusView, b1: BusView, f0: Seq<Effect>, f1: Seq<Effect>, t: StepTrace, o: TickOutcome,
) -> bool {
    &&& a0.started() ==> t.started == a0 && t.fx_started == f0
    &&& t.started.started()
    &&& t.started.name_spec() == a0.name_spec()
    &&& o.started_now == !a0.started()
    &&& predicate_post(t.started, t.decided, frame, sense, b0, t.bus_mid, t.fx_started, t.fx_mid, o.predicate)
    &&& o.executed == o.predicate
    &&& o.predicate ==> execute_post(t.decided, a1, frame, t.bus_mid, b1, t.fx_mid, f1, t.executed_result)
    &&& !o.predicate ==> a1 == t.decided && b1 == t.bus_mid && f1 == t.fx_mid
}

/// A tick over the actions `e0` (becoming `e1`), described step by step:
/// `bs` and `fs` are the bus and the effects between steps.
pub open spec fn traced(
    e0: Seq<ActorEntry>, e1: Seq<ActorEntry>, senses: Seq<Sense>, frame: Frame,
    b0: BusView, b1: BusView, f0: Seq<Effect>, f1: Seq<Effect>,
    out: Seq<TickOutcome>, t: Seq<StepTrace>, bs: Seq<BusView>, fs: Seq<Seq<Effect>>,
) -> bool {
    &&& t.len() == out.len()
    &&& bs.len() == out.len() + 1
    &&& fs.len() == out.len() + 1
    &&& bs[0] == b0
    &&& bs[out.len() as int] == b1
    &&& fs[0] == f0
    &&& fs[out.len() as int] == f1
    &&& forall|i: int| 0 <= i < out.len() ==> #[trigger] step_via(
        e0[i].action, e1[i].action, sense_at(senses, i), frame,
        bs[i], bs[i + 1], fs[i], fs[i + 1], t[i], out[i],
    )
}

/// Some step-by-step description of the tick exists; see `traced`.
pub open spec fn traced_some(
    e0: Seq<ActorEntry>, e1: Seq<ActorEntry>, senses: Seq<Sense>, frame: Frame,
    b0: BusView, b1: BusView, f0: Seq<Effect>, f1: Seq<Effect>, out: Seq<TickOutcome>,
) -> bool {
    exists|t: Seq<StepTrace>, bs: Seq<BusView>, fs: Seq<Seq<Effect>>| #[trigger] traced(e0, e1, senses, frame, b0, b1, f0, f1, out, t, bs, fs)
}

/// The sense of the i-th action: the given one, or nothing sensed.
pub open spec fn sense_at(senses: Seq<Sense>, i: int) -> Sense {
    if 0 <= i < senses.len() { senses[i] } else { Sense { aimed: false, touching: false } }
}

pub open spec fn names_of(e: Seq<ActorEntry>) -> Seq<Seq<char>> {
    e.map_values(|x: ActorEntry| x.name@)
}

pub open spec fn unique(s: Seq<Seq<char>>) -> bool {
    forall|i: int, j: int| 0 <= i < s.len() && 0 <= j < s.len() && i != j ==> s[i] != s[j]
}

impl Actor {
    pub closed spec fn entries_spec(&self) -> Seq<ActorEntry> {
        self.entries@
    }

    /// The names, in the order the actions were added.
    pub open spec fn names(&self) -> Seq<Seq<char>> {
        names_of(self.entries_spec())
    }

    pub open spec fn wf(&self) -> bool {
        &&& unique(self.names())
        &&& forall|i: int| 0 <= i < self.entries_spec().len()
            ==> #[trigger] self.entries_spec()[i].name@ == self.entries_spec()[i].action.name_spec()
    }

    pub fn new() -> (r: Actor)
        ensures
            r.wf(),
            r.names().len() == 0,
    {
        let r = Actor { entries: Vec::new() };
        assert(r.names() =~= Seq::empty());
        r
    }

    pub fn len(&self) -> (r: usize)
        ensures
            r == self.names().len(),
    {
        self.entries.len()
    }

    /// Whether an action is filed under `name`.
    pub fn contains(&self, name: &str) -> (r: bool)
        ensures
            r == self.names().contains(name@),
    {
        let mut i: usize = 0;
        while i < self.entries.len()
            invariant
                i <= self.entries@.len(),
                forall|k: int| 0 <= k < i ==> self.names()[k] != name@,
            decreases self.entries@.len() - i,
        {
            if text_eq(self.entries[i].name.as_str(), name) {
                assert(self.names()[i as int] == name@);
                return true;
            }
            i = i + 1;
        }
        false
    }

    /// Files `action` under its name. A name already in use is an authoring
    /// error: the bag is left as it was and the name is handed back.
    pub fn insert(&mut self, action: Action) -> (r: Result<(), String>)
        requires
            old(self).wf(),
        ensures
            final(self).wf(),
            old(self).names().contains(action.name_spec()) ==> (r matches Err(n) && n@ == action.name_spec()
                && final(self).names() == old(self).names()),
            !old(self).names().contains(action.name_spec()) ==> r is Ok
                && final(self).names() == old(self).names().push(action.name_spec()),
    {
        let name = action.name();
        if self.contains(name.as_str()) {
            return Err(name);
        }
        let ghost before = self.entries@;
        self.entries.push(ActorEntry { name, action });
        assert(self.names() =~= names_of(before).push(action.name_spec()));
        assert forall|i: int| 0 <= i < self.entries_spec().len() implies
            #[trigger] self.entries_spec()[i].name@ == self.entries_spec()[i].action.name_spec() by {
            if i < before.len() {
                assert(self.entries_spec()[i] == before[i]);
            }
        }
        Ok(())
    }

    /// Whether every action has done its startup work.
    pub open spec fn all_started(&self) -> bool {
        forall|i: int| 0 <= i < self.entries_spec().len() ==> #[trigger] self.entries_spec()[i].action.started()
    }

    /// Runs one tick: for each action in turn, startup (which works only the
    /// first time), then predicate, then execute exactly when predicate held.
    /// `senses[i]` is what the physics engine reports for the i-th action; an
    /// action without one senses nothing. A startup failure stops the tick.
    pub fn run_tick(
        &mut self,
        me: u64,
        s: &Surroundings,
        senses: &Vec<Sense>,
        frame: &Frame,
        bus: &mut SignalBus,
        fx: &mut Vec<Effect>,
    ) -> (r: Result<Vec<TickOutcome>, StartupError>)
        requires
            old(self).wf(),
        ensures
            final(self).wf(),
            final(self).names() == old(self).names(),
            r matches Ok(out) ==> out@.len() == old(self).names().len(),
            r is Ok ==> final(self).all_started(),
            r matches Ok(out) ==> forall|i: int| 0 <= i < out@.len() ==> (#[trigger] out@[i]).executed == out@[i].predicate,
            r matches Ok(out) ==> forall|i: int| 0 <= i < out@.len() ==> (#[trigger] out@[i]).started_now
                == !old(self).entries_spec()[i].action.started(),
            r matches Ok(out) ==> traced_some(
                old(self).entries_spec(), final(self).entries_spec(), senses@, *frame,
                old(bus)@, final(bus)@, old(fx)@, final(fx)@, out@,
            ),
    {
        let mut out: Vec<TickOutcome> = Vec::new();
        let n = self.entries.len();
        let mut i: usize = 0;
        let ghost mut t: Seq<StepTrace> = Seq::empty();
        let ghost mut bs: Seq<BusView> = seq![bus@];
        let ghost mut fs: Seq<Seq<Effect>> = seq![fx@];
        while i < n
            invariant
                t.len() == i,
                bs.len() == i + 1,
                fs.len() == i + 1,
                bs[0] == old(bus)@,
                bs[i as int] == bus@,
                fs[0] == old(fx)@,
                fs[i as int] == fx@,
                forall|k: int| 0 <= k < i ==> #[trigger] step_via(
                    old(self).entries@[k].action,
                    self.entries@[k].action,
                    sense_at(senses@, k),
                    *frame,
                    bs[k], bs[k + 1], fs[k], fs[k + 1], t[k], out@[k],
                ),
                n == self.entries@.len(),
                n == old(self).entries@.len(),
                i <= n,
                out@.len() == i,
                self.names() == old(self).names(),
                self.wf(),
                forall|k: int| 0 <= k < i ==> #[trigger] self.entries@[k].action.started(),
                forall|k: int| i <= k < n ==> #[trigger] self.entries@[k] == old(self).entries@[k],
                forall|k: int| 0 <= k < i ==> (#[trigger] out@[k]).executed == out@[k].predicate,
                forall|k: int| 0 <= k < i ==> (#[trigger] out@[k]).started_now
                    == !old(self).entries@[k].action.started(),
            decreases n - i,
        {
            let ghost before = self.entries@;
            let sense = if i < senses.len() { senses[i] } else { Sense { aimed: false, touching: false } };
            let mut entry = self.entries.remove(i);
            let was_started = entry.action.is_started();
            let ghost a0 = entry.action;
            let ghost b0 = bus@;
            let ghost f0 = fx@;
            let started = entry.action.try_startup(me, s, fx);
            let ghost a_s = entry.action;
            let ghost f_s = fx@;
            let outcome = match started {
                Ok(()) => {
                    let p = entry.action.predicate(frame, sense, bus, fx);
                    let ghost a_m = entry.action;
                    let ghost b_m = bus@;
                    let ghost f_m = fx@;
                    let mut er = false;
                    if p {
                        er = entry.action.execute(frame, bus, fx);
                    }
                    let o = TickOutcome { started_now: !was_started, predicate: p, executed: p };
                    proof {
                        let tr = StepTrace { started: a_s, fx_started: f_s, decided: a_m, bus_mid: b_m, fx_mid: f_m, executed_result: er };
                        assert(sense == sense_at(senses@, i as int));
                        assert(step_via(a0, entry.action, sense, *frame, b0, bus@, f0, fx@, tr, o));
                        t = t.push(tr);
                        bs = bs.push(bus@);
                        fs = fs.push(fx@);
                    }
                    Ok(o)
                },
                Err(err) => Err(err),
            };
            self.entries.insert(i, entry);
            assert(self.entries@ =~= before.update(i as int, self.entries@[i as int]));
            assert(self.names() =~= names_of(before)) by {
                assert forall|k: int| 0 <= k < n implies #[trigger] self.names()[k] == names_of(before)[k] by {
                    if k != i {
                        assert(self.entries@[k] == before[k]);
                    }
                }
            }
            assert forall|k: int| 0 <= k < self.entries_spec().len() implies
                #[trigger] self.entries_spec()[k].name@ == self.entries_spec()[k].action.name_spec() by {
                if k != i {
                    assert(self.entries@[k] == before[k]);
                }
            }
            assert(a0 == old(self).entries@[i as int].action);
            match outcome {
                Ok(o) => {
                    out.push(o);
                    assert forall|k: int| 0 <= k < i + 1 implies #[trigger] step_via(
                        old(self).entries@[k].action,
                        self.entries@[k].action,
                        sense_at(senses@, k),
                        *frame,
                        bs[k], bs[k + 1], fs[k], fs[k + 1], t[k], out@[k],
                    ) by {
                        if k < i {
                            assert(self.entries@[k] == before[k]);
                        }
                    }
                },
                Err(err) => {
                    return Err(err);
                },
            }
            i = i + 1;
        }
        assert(traced(old(self).entries@, self.entries@, senses@, *frame, old(bus)@, bus@, old(fx)@, fx@, out@, t, bs, fs));
        assert(old(self).entries_spec() == old(self).entries@ && self.entries_spec() == self.entries@);
        assert(traced(old(self).entries_spec(), self.entries_spec(), senses@, *frame, old(bus)@, bus@, old(fx)@, fx@, out@, t, bs, fs));
        assert(traced_some(old(self).entries_spec(), self.entries_spec(), senses@, *frame, old(bus)@, bus@, old(fx)@, fx@, out@));
        let r = Ok(out);
        r
    }
}

} // verus!
