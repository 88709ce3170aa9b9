//! The action runtime over every node that carries actions, and the hint
//! overlay that shows the winning "press E" advice of each tick.

use vstd::prelude::*;
use crate::actor::{traced_some, Actor, TickOutcome};
use crate::signal::BusView;
use crate::error::StartupError;
use crate::signal::SignalBus;
use crate::world::{best_hint, is_best_hint, Effect, Frame, Sense, Surroundings};

verus! {

/// A node and its actions.
pub struct NodeActor {
    pub node: u64,
    pub actor: Actor,
}

/// How many nodes a tick runs: those that have a view.
pub open spec fn ran(nodes: nat, views: nat) -> nat {
    if views < nodes { views } else { nodes }
}

/// The tick of every node that has a view, in order, each as `Actor::run_tick`
/// describes it; `bs` and `fs` are the bus and effects between nodes.
pub open spec fn nodes_traced(
    n0: Seq<NodeActor>, n1: Seq<NodeActor>, views: Seq<NodeView>, frame: Frame,
    b0: BusView, b1: BusView, f0: Seq<Effect>, f1: Seq<Effect>, out: Seq<Vec<TickOutcome>>,
    bs: Seq<BusView>, fs: Seq<Seq<Effect>>,
) -> bool {
    &&& bs.len() == out.len() + 1
    &&& fs.len() == out.len() + 1
    &&& bs[0] == b0
    &&& bs[out.len() as int] == b1
    &&& fs[0] == f0
    &&& fs[out.len() as int] == f1
    &&& forall|i: int| 0 <= i < out.len() ==> #[trigger] traced_some(
        n0[i].actor.entries_spec(), n1[i].actor.entries_spec(), views[i].senses@, frame,
        bs[i], bs[i + 1], fs[i], fs[i + 1], out[i]@,
    )
}

pub open spec fn nodes_traced_some(
    n0: Seq<NodeActor>, n1: Seq<NodeActor>, views: Seq<NodeView>, frame: Frame,
    b0: BusView, b1: BusView, f0: Seq<Effect>, f1: Seq<Effect>, out: Seq<Vec<TickOutcome>>,
) -> bool {
    exists|bs: Seq<BusView>, fs: Seq<Seq<Effect>>| #[trigger] nodes_traced(n0, n1, views, frame, b0, b1, f0, f1, out, bs, fs)
}

/// Runs every node's actions each tick.
pub struct ManagerPlugin {
    nodes: Vec<NodeActor>,
}

/// What a node's host-side view is for one tick.
pub struct NodeView {
    pub surroundings: Surroundings,
    /// One per action of the node, in the actor's order.
    pub senses: Vec<Sense>,
}

impl ManagerPlugin {
    pub closed spec fn nodes_spec(&self) -> Seq<NodeActor> {
        self.nodes@
    }

    pub open spec fn wf(&self) -> bool {
        forall|i: int| 0 <= i < self.nodes_spec().len() ==> (#[trigger] self.nodes_spec()[i]).actor.wf()
    }

    pub fn new() -> (r: ManagerPlugin)
        ensures
            r.wf(),
            r.nodes_spec().len() == 0,
    {
        ManagerPlugin { nodes: Vec::new() }
    }

    /// Adds a node's actions.
    pub fn add(&mut self, node: u64, actor: Actor)
        requires
            old(self).wf(),
            actor.wf(),
        ensures
            final(self).wf(),
            final(self).nodes_spec().len() == old(self).nodes_spec().len() + 1,
            final(self).nodes_spec().last().node == node,
    {
        self.nodes.push(NodeActor { node, actor });
        assert forall|i: int| 0 <= i < self.nodes_spec().len() implies (#[trigger] self.nodes_spec()[i]).actor.wf() by {
            if i < old(self).nodes_spec().len() {
                assert(self.nodes_spec()[i] == old(self).nodes_spec()[i]);
            }
        }
    }

    /// The node ids, in the order they were added.
    pub fn node_ids(&self) -> (r: Vec<u64>)
        ensures
            r@ == self.nodes_spec().map_values(|n: NodeActor| n.node),
    {
        let mut r: Vec<u64> = Vec::new();
        let mut i: usize = 0;
        while i < self.nodes.len()
            invariant
                i <= self.nodes@.len(),
                r@ == self.nodes@.subrange(0, i as int).map_values(|n: NodeActor| n.node),
            decreases self.nodes@.len() - i,
        {
            r.push(self.nodes[i].node);
            i = i + 1;
            assert(r@ =~= self.nodes@.subrange(0, i as int).map_values(|n: NodeActor| n.node));
        }
        assert(self.nodes@.subrange(0, i as int) =~= self.nodes@);
        r
    }

    /// One tick for every node, in order: each node's actions start up,
    /// test their predicate, and execute exactly when it held. `views[i]`
    /// is the host's view of the i-th node; a node without one is skipped.
    /// A startup failure stops the tick.
    pub fn run_all(
        &mut self,
        views: &Vec<NodeView>,
        frame: &Frame,
        bus: &mut SignalBus,
        fx: &mut Vec<Effect>,
    ) -> (r: Result<Vec<Vec<TickOutcome>>, StartupError>)
        requires
            old(self).wf(),
        ensures
            final(self).wf(),
            final(self).nodes_spec().len() == old(self).nodes_spec().len(),
            r matches Ok(out) ==> forall|i: int, j: int| 0 <= i < out@.len() && 0 <= j < out@[i]@.len()
                ==> (#[trigger] out@[i]@[j]).executed == out@[i]@[j].predicate,
            r matches Ok(out) ==> out@.len() == ran(old(self).nodes_spec().len(), views@.len()),
            r matches Ok(out) ==> forall|i: int| 0 <= i < out@.len() ==> {
                &&& (#[trigger] final(self).nodes_spec()[i]).actor.all_started()
                &&& final(self).nodes_spec()[i].node == old(self).nodes_spec()[i].node
                &&& out@[i]@.len() == old(self).nodes_spec()[i].actor.names().len()
            },
            r matches Ok(out) ==> forall|i: int| out@.len() <= i < old(self).nodes_spec().len()
                ==> #[trigger] final(self).nodes_spec()[i] == old(self).nodes_spec()[i],
            r matches Ok(out) ==> nodes_traced_some(
                old(self).nodes_spec(), final(self).nodes_spec(), views@, *frame,
                old(bus)@, final(bus)@, old(fx)@, final(fx)@, out@,
            ),
    {
        let mut out: Vec<Vec<TickOutcome>> = Vec::new();
        let n = self.nodes.len();
        let mut i: usize = 0;
        let ghost mut bs: Seq<BusView> = seq![bus@];
        let ghost mut fs: Seq<Seq<Effect>> = seq![fx@];
        while i < n
            invariant
                n == self.nodes@.len(),
                n == old(self).nodes@.len(),
                i <= n,
                self.wf(),
                out@.len() == ran(i as nat, views@.len()),
                bs.len() == out@.len() + 1,
                fs.len() == out@.len() + 1,
                bs[0] == old(bus)@,
                bs[out@.len() as int] == bus@,
                fs[0] == old(fx)@,
                fs[out@.len() as int] == fx@,
                forall|k: int| 0 <= k < out@.len() ==> #[trigger] traced_some(
                    old(self).nodes@[k].actor.entries_spec(), self.nodes@[k].actor.entries_spec(), views@[k].senses@, *frame,
                    bs[k], bs[k + 1], fs[k], fs[k + 1], out@[k]@,
                ),
                forall|k: int| 0 <= k < out@.len() ==> {
                    &&& (#[trigger] self.nodes@[k]).actor.all_started()
                    &&& self.nodes@[k].node == old(self).nodes@[k].node
                    &&& out@[k]@.len() == old(self).nodes@[k].actor.names().len()
                },
                forall|k: int| out@.len() <= k < n ==> #[trigger] self.nodes@[k] == old(self).nodes@[k],
                out@.len() <= i,
                forall|a: int, b: int| 0 <= a < out@.len() && 0 <= b < out@[a]@.len()
                    ==> (#[trigger] out@[a]@[b]).executed == out@[a]@[b].predicate,
            decreases n - i,
        {
            if i < views.len() {
                let ghost before = self.nodes@;
                assert(self.nodes_spec()[i as int].actor.wf());
                let mut na = self.nodes.remove(i);
                assert(na == before[i as int]);
                let res = na.actor.run_tick(na.node, &views[i].surroundings, &views[i].senses, frame, bus, fx);
                let ghost done = na;
                self.nodes.insert(i, na);
                assert(self.nodes@[i as int] == done);
                assert forall|k: int| 0 <= k < self.nodes_spec().len() implies (#[trigger] self.nodes_spec()[k]).actor.wf() by {
                    if k != i {
                        assert(self.nodes@[k] == before[k]);
                        assert(before[k].actor.wf());
                    }
                }
                match res {
                    Ok(o) => {
                        let ghost before_out = out@;
                        out.push(o);
                        proof {
                            bs = bs.push(bus@);
                            fs = fs.push(fx@);
                        }
                        assert forall|k: int| 0 <= k < out@.len() implies #[trigger] traced_some(
                            old(self).nodes@[k].actor.entries_spec(), self.nodes@[k].actor.entries_spec(), views@[k].senses@, *frame,
                            bs[k], bs[k + 1], fs[k], fs[k + 1], out@[k]@,
                        ) by {
                            if k < i {
                                assert(self.nodes@[k] == before[k]);
                                assert(out@[k] == before_out[k]);
                            }
                        }
                        assert forall|k: int| 0 <= k < out@.len() implies {
                            &&& (#[trigger] self.nodes@[k]).actor.all_started()
                            &&& self.nodes@[k].node == old(self).nodes@[k].node
                            &&& out@[k]@.len() == old(self).nodes@[k].actor.names().len()
                        } by {
                            if k < i {
                                assert(self.nodes@[k] == before[k]);
                                assert(out@[k] == before_out[k]);
                            }
                        }
                    },
                    Err(e) => {
                        return Err(e);
                    },
                }
            }
            i = i + 1;
        }
        assert(nodes_traced(old(self).nodes@, self.nodes@, views@, *frame, old(bus)@, bus@, old(fx)@, fx@, out@, bs, fs));
        Ok(out)
    }
}

/// The hint overlay: shows the winning hint of a tick, hides itself when none came.
pub struct HintOverlayPlugin {
    pub visible: bool,
    pub text: String,
    pub key_e: bool,
}

impl HintOverlayPlugin {
    pub fn new() -> (r: HintOverlayPlugin)
        ensures
            !r.visible,
            r.text@.len() == 0,
    {
        HintOverlayPlugin { visible: false, text: String::new(), key_e: false }
    }

    /// Shows the first hint of the highest priority among this tick's
    /// effects, or hides the overlay when there is none.
    pub fn show_hint(&mut self, fx: &Vec<Effect>) -> (r: Option<usize>)
        ensures
            match r {
                Some(i) => is_best_hint(fx@, i as int) && final(self).visible
                    && final(self).text == fx@[i as int]->Hint_text
                    && final(self).key_e == fx@[i as int]->Hint_key_e,
                None => (forall|j: int| 0 <= j < fx@.len() ==> !(fx@[j] is Hint)) && !final(self).visible
                    && final(self).text == old(self).text,
            },
    {
        let best = best_hint(fx);
        match best {
            Some(i) => {
                if let Effect::Hint { text, key_e, .. } = &fx[i] {
                    self.text = text.clone();
                    self.key_e = *key_e;
                }
                self.visible = true;
            },
            None => {
                self.visible = false;
            },
        }
        best
    }
}

} // verus!
