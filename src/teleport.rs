//! Moves the player when a signal arrives on a wire.

use vstd::prelude::*;
use crate::error::{Reason, StartupError};
use crate::meta::MetaValue;
use crate::number::{decimal_milli, digits_value, is_u64_text, parse_milli, parse_u64};
use crate::signal::BusView;
use crate::signal::{first_with_id, SignalBus};
use crate::text::text_eq;
use crate::world::{Child, Effect, Point, Surroundings, Target};

verus! {

pub enum TeleportDestination {
    Relative(Point),
    Absolute(Point),
    /// A node named so, not looked up yet.
    EntityStr(String),
    Entity(u64),
}

pub struct DelayedTeleportAction {
    pub is_started: bool,
    pub name: String,
    pub me: u64,
    pub destination: TeleportDestination,
    pub id: u64,
}

/// A string entry that is a decimal, in thousandths.
pub open spec fn coord_of(v: MetaValue) -> Option<i64> {
    match v {
        MetaValue::Str(s) => match decimal_milli(s@) {
            Some(m) => Some(m as i64),
            None => None,
        },
        _ => None,
    }
}

/// A string entry that is an unsigned integer.
pub open spec fn wire_of(v: MetaValue) -> Option<u64> {
    match v {
        MetaValue::Str(s) => if is_u64_text(s@) { Some(digits_value(s@) as u64) } else { None },
        _ => None,
    }
}

pub open spec fn point_of(a: Seq<MetaValue>) -> Option<Point> {
    if a.len() >= 5 && coord_of(a[2]) is Some && coord_of(a[3]) is Some && coord_of(a[4]) is Some {
        Some(Point { x: coord_of(a[2]).unwrap(), y: coord_of(a[3]).unwrap(), z: coord_of(a[4]).unwrap() })
    } else {
        None
    }
}

/// What `[kind, wire, ...]` configures: `"absolute"` or `"relative"` with three
/// coordinates, or `"entity"` with a node name; all entries are strings.
pub open spec fn teleport_of(a: Seq<MetaValue>) -> Option<(TeleportDestination, u64)> {
    if a.len() >= 3 && wire_of(a[1]) is Some {
        let id = wire_of(a[1]).unwrap();
        match a[0] {
            MetaValue::Str(k) => if k@ == "absolute"@ {
                match point_of(a) {
                    Some(p) => Some((TeleportDestination::Absolute(p), id)),
                    None => None,
                }
            } else if k@ == "relative"@ {
                match point_of(a) {
                    Some(p) => Some((TeleportDestination::Relative(p), id)),
                    None => None,
                }
            } else if k@ == "entity"@ {
                match a[2] {
                    MetaValue::Str(n) => Some((TeleportDestination::EntityStr(n), id)),
                    _ => None,
                }
            } else {
                None
            },
            _ => None,
        }
    } else {
        None
    }
}

fn read_coord(v: &MetaValue) -> (r: Option<i64>)
    ensures
        r == coord_of(*v),
{
    match v.as_str() {
        Some(s) => parse_milli(s),
        None => None,
    }
}

fn read_wire(v: &MetaValue) -> (r: Option<u64>)
    ensures
        r == wire_of(*v),
{
    match v.as_str() {
        Some(s) => parse_u64(s),
        None => None,
    }
}

fn read_point(a: &Vec<MetaValue>) -> (r: Option<Point>)
    ensures
        r == point_of(a@),
{
    if a.len() < 5 {
        return None;
    }
    match (read_coord(&a[2]), read_coord(&a[3]), read_coord(&a[4])) {
        (Some(x), Some(y), Some(z)) => Some(Point { x, y, z }),
        _ => None,
    }
}

/// The first node named `name`.
pub open spec fn node_named(c: Seq<Child>, name: Seq<char>) -> Option<u64>
    decreases c.len(),
{
    if c.len() == 0 {
        None
    } else {
        match node_named(c.drop_last(), name) {
            Some(n) => Some(n),
            None => if c.last().name@ == name { Some(c.last().node) } else { None },
        }
    }
}

/// The first node of `c` named `name`.
pub fn find_named(c: &Vec<Child>, name: &str) -> (r: Option<u64>)
    ensures
        r == node_named(c@, name@),
{
    let mut i: usize = 0;
    while i < c.len()
        invariant
            i <= c@.len(),
            node_named(c@.subrange(0, i as int), name@) is None,
        decreases c@.len() - i,
    {
        assert(c@.subrange(0, i + 1).drop_last() =~= c@.subrange(0, i as int));
        if text_eq(c[i].name.as_str(), name) {
            proof { lemma_node_named_prefix(c@, name@, i + 1); }
            return Some(c[i].node);
        }
        i = i + 1;
    }
    assert(c@.subrange(0, i as int) =~= c@);
    None
}

proof fn lemma_node_named_prefix(c: Seq<Child>, name: Seq<char>, k: int)
    requires
        0 <= k <= c.len(),
        node_named(c.subrange(0, k), name) is Some,
    ensures
        node_named(c, name) == node_named(c.subrange(0, k), name),
    decreases c.len() - k,
{
    if k == c.len() {
        assert(c.subrange(0, k) =~= c);
    } else {
        assert(c.subrange(0, k + 1).drop_last() =~= c.subrange(0, k));
        lemma_node_named_prefix(c, name, k + 1);
    }
}

impl DelayedTeleportAction {
    /// What `new` guarantees.
    pub open spec fn new_post(value: MetaValue, r: Result<DelayedTeleportAction, Reason>) -> bool {
        &&& (match value {
                    MetaValue::Array(a) => match teleport_of(a@) {
                        Some((d, id)) => r matches Ok(t) && t.destination == d && t.id == id && !t.is_started
                            && t.name@ == "teleport"@,
                        None => r == Err::<DelayedTeleportAction, Reason>(Reason::BadValue),
                    },
                    _ => r == Err::<DelayedTeleportAction, Reason>(Reason::BadValue),
                })
    }

    /// Builds a teleport from `[kind, wire, ...]`.
    pub fn new(value: &MetaValue) -> (r: Result<DelayedTeleportAction, Reason>)
        ensures
            Self::new_post(*value, r),

    {
        let a = match value.as_array() {
            Some(a) => a,
            None => {
                return Err(Reason::BadValue);
            },
        };
        if a.len() < 3 {
            return Err(Reason::BadValue);
        }
        let id = match read_wire(&a[1]) {
            Some(id) => id,
            None => {
                return Err(Reason::BadValue);
            },
        };
        let kind = match a[0].as_str() {
            Some(k) => k,
            None => {
                return Err(Reason::BadValue);
            },
        };
        let destination = if text_eq(kind, "absolute") {
            match read_point(a) {
                Some(p) => TeleportDestination::Absolute(p),
                None => {
                    return Err(Reason::BadValue);
                },
            }
        } else if text_eq(kind, "relative") {
            match read_point(a) {
                Some(p) => TeleportDestination::Relative(p),
                None => {
                    return Err(Reason::BadValue);
                },
            }
        } else if text_eq(kind, "entity") {
            match &a[2] {
                MetaValue::Str(n) => TeleportDestination::EntityStr(n.clone()),
                _ => {
                    return Err(Reason::BadValue);
                },
            }
        } else {
            return Err(Reason::BadValue);
        };
        Ok(DelayedTeleportAction {
            is_started: false,
            name: "teleport".to_owned(),
            me: 0,
            destination,
            id,
        })
    }

    /// Remembers the node, and turns a destination given by name into the
    /// first node of that name.
    pub fn try_startup(&mut self, me: u64, s: &Surroundings) -> (r: Result<(), StartupError>)
        ensures
            final(self).is_started,
            final(self).id == old(self).id,
            final(self).name == old(self).name,
            final(self).me == (if old(self).is_started { old(self).me } else { me }),
            match old(self).destination {
                TeleportDestination::EntityStr(n) => match node_named(s.nodes@, n@) {
                    Some(node) => r is Ok && final(self).destination == TeleportDestination::Entity(node),
                    None => r is Err && final(self).destination == old(self).destination,
                },
                _ => r is Ok && final(self).destination == old(self).destination,
            },
    {
        if !self.is_started {
            self.me = me;
            self.is_started = true;
        }
        let found = match &self.destination {
            TeleportDestination::EntityStr(n) => match find_named(&s.nodes, n.as_str()) {
                Some(node) => Some(node),
                None => {
                    return Err(StartupError::UnknownNode(n.clone()));
                },
            },
            _ => None,
        };
        if let Some(node) = found {
            self.destination = TeleportDestination::Entity(node);
        }
        Ok(())
    }

    /// What `predicate` guarantees.
    pub open spec fn predicate_post(a: Self, bus: BusView, r: bool) -> bool {
        &&& (r == first_with_id(bus.visible_buttons(), a.id) is Some)
    }

    /// Holds while a state on the wire is visible; the state stays for others.
    pub fn predicate(&self, bus: &SignalBus) -> (r: bool)
        ensures
            Self::predicate_post(*self, bus@, r),

    {
        bus.first_button(self.id).is_some()
    }

    /// What `execute` guarantees.
    pub open spec fn execute_post(a: Self, f0: Seq<Effect>, f1: Seq<Effect>, r: bool) -> bool {
        &&& (match a.destination {
                    TeleportDestination::Absolute(p) => r && f1 == f0.push(Effect::Teleport(Target::Absolute(p))),
                    TeleportDestination::Relative(p) => r && f1 == f0.push(Effect::Teleport(Target::Relative(p))),
                    TeleportDestination::Entity(n) => r && f1 == f0.push(Effect::Teleport(Target::Node(n))),
                    TeleportDestination::EntityStr(_) => !r && f1 == f0,
                })
    }

    /// Asks the host to move the player, keeping rotation and scale.
    pub fn execute(&self, fx: &mut Vec<Effect>) -> (r: bool)
        ensures
            Self::execute_post(*self, old(fx)@, final(fx)@, r),

    {
        let t = match &self.destination {
            TeleportDestination::Absolute(p) => Target::Absolute(*p),
            TeleportDestination::Relative(p) => Target::Relative(*p),
            TeleportDestination::Entity(n) => Target::Node(*n),
            TeleportDestination::EntityStr(_) => {
                return false;
            },
        };
        fx.push(Effect::Teleport(t));
        true
    }
}

} // verus!
