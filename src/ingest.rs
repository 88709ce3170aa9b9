//! Scene ingestion: each node's metadata is decoded once, its actions are
//! gathered into an actor bag, and collision groups are merged.

use vstd::prelude::*;
use crate::actor::Actor;
use crate::decoder::{convert, convert_spec, Ambient, ColliderType, Directive, RigidBodyKind};
use crate::actor::unique;
use crate::error::Reason;
use crate::meta::{MetaValue, Metadata};

verus! {

/// The group of everything the player collides with.
pub const PLAYER_COLLISION: u32 = 1;
/// The group of mirrors and the planes they can be placed on.
pub const MIRROR_SYSTEM: u32 = 2;
/// No group at all.
pub const EMPTY: u32 = 0;

/// Collision memberships and filters after a change: an override replaces
/// them, otherwise the new bits are added to the current ones (none when the
/// node has no groups yet).
pub fn merge_groups(current: Option<(u32, u32)>, members: u32, filters: u32, override_groups: bool) -> (r: (u32, u32))
    ensures
        override_groups ==> r == (members, filters),
        !override_groups ==> match current {
            Some((m, f)) => r == ((m | members) as u32, (f | filters) as u32),
            None => r == (members, filters),
        },
{
    if override_groups {
        return (members, filters);
    }
    match current {
        Some((m, f)) => (m | members, f | filters),
        None => {
            assert(EMPTY | members == members) by (bit_vector);
            (members, filters)
        },
    }
}

/// A child of a node with a collider directive: its id and whether it has a mesh.
#[derive(Clone, Copy, Debug, PartialEq, Eq, Structural)]
pub struct MeshChild {
    pub node: u64,
    pub has_mesh: bool,
}

/// The children that receive a node's collider: those with a mesh, in order;
/// the others are skipped. With at least one collider attached, the node
/// gets the player-collision groups when it has no groups (`node_groups`) yet.
pub fn attach_collider(children: &Vec<MeshChild>, node_groups: Option<(u32, u32)>) -> (r: (Vec<u64>, Option<(u32, u32)>))
    ensures
        r.0@ == children@.filter(|c: MeshChild| c.has_mesh).map_values(|c: MeshChild| c.node),
        r.1 == (if r.0@.len() > 0 && node_groups is None { Some((PLAYER_COLLISION, PLAYER_COLLISION)) } else { None }),
{
    let targets = mesh_children(children);
    let groups = if targets.len() > 0 { default_groups(node_groups) } else { None };
    (targets, groups)
}

fn mesh_children(children: &Vec<MeshChild>) -> (r: Vec<u64>)
    ensures
        r@ == children@.filter(|c: MeshChild| c.has_mesh).map_values(|c: MeshChild| c.node),
{
    let mut r: Vec<u64> = Vec::new();
    let mut i: usize = 0;
    while i < children.len()
        invariant
            i <= children@.len(),
            r@ == children@.subrange(0, i as int).filter(|c: MeshChild| c.has_mesh).map_values(|c: MeshChild| c.node),
        decreases children@.len() - i,
    {
        let c = children[i];
        let ghost pre = children@.subrange(0, i as int);
        assert(children@.subrange(0, i + 1) == pre.push(c));
        reveal(Seq::filter);
        assert(pre.push(c).drop_last() =~= pre);
        if c.has_mesh {
            r.push(c.node);
            assert(pre.push(c).filter(|c: MeshChild| c.has_mesh) == pre.filter(|c: MeshChild| c.has_mesh).push(c));
            assert(r@ =~= pre.push(c).filter(|c: MeshChild| c.has_mesh).map_values(|c: MeshChild| c.node));
        } else {
            assert(pre.push(c).filter(|c: MeshChild| c.has_mesh) == pre.filter(|c: MeshChild| c.has_mesh));
        }
        i = i + 1;
    }
    assert(children@.subrange(0, i as int) =~= children@);
    r
}

/// What the engine must do for a node's directive.
#[derive(Debug)]
pub enum EngineIntent {
    /// Spawn the player where the node stands, with the node's camera settings.
    SpawnPlayer { node: u64, ambient: Option<Ambient>, skybox: Option<String> },
    /// Remove the node from the scene.
    Despawn { node: u64 },
    AttachCollider { node: u64, collider: ColliderType },
    ModifyCollisionGroup { node: u64, members: u32, filters: u32, override_groups: bool },
    /// Show or hide the node; a hidden node neither casts nor receives shadows.
    SetVisibility { node: u64, visible: bool },
    /// Switch shadows of whichever light the node holds.
    LightShadows { node: u64, shadows: bool },
    /// Give the node a rigid body at rest, tracked for sleeping.
    RigidBody { node: u64, kind: RigidBodyKind },
    /// Make the node's collider a sensor.
    Sensor { node: u64 },
    /// Mass density in thousandths.
    Density { node: u64, milli: i64 },
    /// Attach a collision sound loaded from `path`.
    CollisionSound { node: u64, path: String },
}

/// Collider attachments for each child with a mesh, in order.
pub open spec fn collider_intents(children: Seq<MeshChild>, c: ColliderType) -> Seq<EngineIntent>
    decreases children.len(),
{
    if children.len() == 0 {
        Seq::empty()
    } else {
        let p = collider_intents(children.drop_last(), c);
        if children.last().has_mesh {
            p.push(EngineIntent::AttachCollider { node: children.last().node, collider: c })
        } else {
            p
        }
    }
}

/// The engine intents of directive `d` on `node`. Actions go to the node's
/// actor instead, and parameters ask for nothing.
pub open spec fn intents_of(node: u64, children: Seq<MeshChild>, d: Directive) -> Seq<EngineIntent> {
    match d {
        Directive::PlayerSpawnPoint { ambient, skybox } => seq![
            EngineIntent::SpawnPlayer { node, ambient, skybox },
            EngineIntent::Despawn { node },
        ],
        Directive::MeshCollider(c) => collider_intents(children, c),
        Directive::MeshRigidBody(kind) => seq![EngineIntent::RigidBody { node, kind }],
        Directive::ConstructorPlacablePlane | Directive::PlayerPlacedMirror => seq![
            EngineIntent::ModifyCollisionGroup { node, members: MIRROR_SYSTEM, filters: MIRROR_SYSTEM, override_groups: false },
        ],
        Directive::IsVisible(visible) => seq![EngineIntent::SetVisibility { node, visible }],
        Directive::ColliderSensor => seq![EngineIntent::Sensor { node }],
        Directive::Light { shadows } => seq![EngineIntent::LightShadows { node, shadows }],
        Directive::MassProp(milli) => seq![EngineIntent::Density { node, milli }],
        Directive::CollisionAudio(path) => seq![EngineIntent::CollisionSound { node, path }],
        _ => Seq::empty(),
    }
}

/// Turns a decoded directive of `node` into what the engine must do;
/// `children` are the node's children.
pub fn dispatch(node: u64, children: &Vec<MeshChild>, d: &Directive) -> (r: Vec<EngineIntent>)
    ensures
        r@ == intents_of(node, children@, *d),
{
    let mut r: Vec<EngineIntent> = Vec::new();
    match d {
        Directive::PlayerSpawnPoint { ambient, skybox } => {
            r.push(EngineIntent::SpawnPlayer { node, ambient: *ambient, skybox: skybox.clone() });
            r.push(EngineIntent::Despawn { node });
        },
        Directive::MeshCollider(c) => {
            let mut i: usize = 0;
            while i < children.len()
                invariant
                    i <= children@.len(),
                    r@ == collider_intents(children@.subrange(0, i as int), *c),
                decreases children@.len() - i,
            {
                assert(children@.subrange(0, i + 1).drop_last() =~= children@.subrange(0, i as int));
                assert(children@.subrange(0, i + 1).last() == children@[i as int]);
                if children[i].has_mesh {
                    r.push(EngineIntent::AttachCollider { node: children[i].node, collider: *c });
                }
                i = i + 1;
            }
            assert(children@.subrange(0, i as int) =~= children@);
        },
        Directive::MeshRigidBody(kind) => r.push(EngineIntent::RigidBody { node, kind: *kind }),
        Directive::ConstructorPlacablePlane | Directive::PlayerPlacedMirror => {
            r.push(EngineIntent::ModifyCollisionGroup { node, members: MIRROR_SYSTEM, filters: MIRROR_SYSTEM, override_groups: false });
        },
        Directive::IsVisible(v) => r.push(EngineIntent::SetVisibility { node, visible: *v }),
        Directive::ColliderSensor => r.push(EngineIntent::Sensor { node }),
        Directive::Light { shadows } => r.push(EngineIntent::LightShadows { node, shadows: *shadows }),
        Directive::MassProp(m) => r.push(EngineIntent::Density { node, milli: *m }),
        Directive::CollisionAudio(p) => r.push(EngineIntent::CollisionSound { node, path: p.clone() }),
        _ => {},
    }
    assert(r@ =~= intents_of(node, children@, *d));
    r
}

/// The groups a collider's parent gets when it has none yet: it collides with the player.
pub fn default_groups(current: Option<(u32, u32)>) -> (r: Option<(u32, u32)>)
    ensures
        current is None ==> r == Some((PLAYER_COLLISION, PLAYER_COLLISION)),
        current is Some ==> r is None,
{
    match current {
        None => Some((PLAYER_COLLISION, PLAYER_COLLISION)),
        Some(_) => None,
    }
}

/// Why a node's metadata was rejected.
#[derive(Debug)]
pub enum IngestError {
    /// The entry under `key` is malformed.
    Entry { key: String, reason: Reason },
    /// Two actions of the node share `name`.
    DuplicateName { name: String },
}

/// What a node's metadata amounts to.
pub struct Ingested {
    /// The non-action directives, each with the key it came from.
    pub directives: Vec<(String, Directive)>,
    /// The node's actions.
    pub actor: Actor,
}

/// Whether `ds` holds the successful decoding of the first `k` entries of `e`.
pub open spec fn decoded_prefix(e: Seq<(String, MetaValue)>, blob: Metadata, ds: Seq<Directive>, k: int) -> bool {
    &&& 0 <= k <= e.len()
    &&& ds.len() == k
    &&& forall|j: int| 0 <= j < k ==> convert_spec(e[j].0@, e[j].1, blob, Ok(#[trigger] ds[j]))
}

/// The non-action directives of `ds`, each with the key of its entry, in order.
pub open spec fn plain_of(e: Seq<(String, MetaValue)>, ds: Seq<Directive>) -> Seq<(String, Directive)>
    decreases ds.len(),
{
    if ds.len() == 0 || e.len() == 0 {
        Seq::empty()
    } else {
        let p = plain_of(e.drop_last(), ds.drop_last());
        if ds.last() is Action {
            p
        } else {
            p.push((e.last().0, ds.last()))
        }
    }
}

/// The names of the actions among `ds`, in order.
pub open spec fn action_names(ds: Seq<Directive>) -> Seq<Seq<char>>
    decreases ds.len(),
{
    if ds.len() == 0 {
        Seq::empty()
    } else if ds.last() is Action {
        action_names(ds.drop_last()).push(ds.last()->Action_0.name_spec())
    } else {
        action_names(ds.drop_last())
    }
}

/// Remembers which nodes were ingested, so that none is decoded twice.
pub struct Ingestor {
    visited: Vec<u64>,
}

impl Ingestor {
    pub closed spec fn visited(&self) -> Set<u64> {
        Set::new(|n: u64| self.visited@.contains(n))
    }

    pub fn new() -> (r: Ingestor)
        ensures
            r.visited() == Set::<u64>::empty(),
    {
        let r = Ingestor { visited: Vec::new() };
        assert(r.visited() =~= Set::<u64>::empty());
        r
    }

    pub fn was_visited(&self, node: u64) -> (r: bool)
        ensures
            r == self.visited().contains(node),
    {
        let mut i: usize = 0;
        while i < self.visited.len()
            invariant
                i <= self.visited@.len(),
                forall|k: int| 0 <= k < i ==> self.visited@[k] != node,
            decreases self.visited@.len() - i,
        {
            if self.visited[i] == node {
                assert(self.visited@.contains(node));
                return true;
            }
            i = i + 1;
        }
        assert(!self.visited@.contains(node));
        false
    }

    /// Decodes the node's metadata, entry by entry, the first time the node
    /// is seen; later calls for the same node do nothing and give `None`.
    /// The node counts as seen even when its metadata is rejected.
    pub fn ingest(&mut self, node: u64, blob: &Metadata) -> (r: Result<Option<Ingested>, IngestError>)
        ensures
            old(self).visited().contains(node) ==> (r matches Ok(None) && final(self).visited() == old(self).visited()),
            !old(self).visited().contains(node) ==> !(r matches Ok(None)) && final(self).visited() == old(self).visited().insert(node),
            r matches Ok(Some(ing)) ==> ing.actor.wf() && exists|ds: Seq<Directive>| {
                &&& decoded_prefix(blob.entries@, *blob, ds, blob.entries@.len() as int)
                &&& #[trigger] plain_of(blob.entries@, ds) == ing.directives@
                &&& ing.actor.names() == action_names(ds)
            },
            r matches Err(IngestError::Entry { key, reason }) ==> exists|k: int, ds: Seq<Directive>| {
                &&& #[trigger] decoded_prefix(blob.entries@, *blob, ds, k)
                &&& k < blob.entries@.len()
                &&& unique(action_names(ds))
                &&& key@ == blob.entries@[k].0@
                &&& convert_spec(blob.entries@[k].0@, blob.entries@[k].1, *blob, Err(reason))
            },
            r matches Err(IngestError::DuplicateName { name }) ==> exists|k: int, ds: Seq<Directive>| {
                &&& #[trigger] decoded_prefix(blob.entries@, *blob, ds, k + 1)
                &&& ds[k] is Action
                &&& ds[k]->Action_0.name_spec() == name@
                &&& action_names(ds.drop_last()).contains(name@)
            },
    {
        if self.was_visited(node) {
            return Ok(None);
        }
        let ghost before = self.visited@;
        self.visited.push(node);
        assert forall|n: u64| self.visited@.contains(n) <==> (before.contains(n) || n == node) by {
            if before.contains(n) {
                let k = choose|k: int| 0 <= k < before.len() && before[k] == n;
                assert(self.visited@[k] == n);
            }
            if self.visited@.contains(n) && n != node {
                let k = choose|k: int| 0 <= k < self.visited@.len() && self.visited@[k] == n;
                assert(before[k] == n);
            }
            if n == node {
                assert(self.visited@[before.len() as int] == n);
            }
        }
        assert(self.visited() =~= old(self).visited().insert(node));
        let mut directives: Vec<(String, Directive)> = Vec::new();
        let mut actor = Actor::new();
        let ghost e = blob.entries@;
        let ghost mut ds: Seq<Directive> = Seq::empty();
        let mut i: usize = 0;
        while i < blob.entries.len()
            invariant
                e == blob.entries@,
                i <= e.len(),
                actor.wf(),
                decoded_prefix(e, *blob, ds, i as int),
                directives@ == plain_of(e.subrange(0, i as int), ds),
                actor.names() == action_names(ds),
                self.visited() == old(self).visited().insert(node),
                !old(self).visited().contains(node),
            decreases e.len() - i,
        {
            let key = &blob.entries[i].0;
            let res = convert(key.as_str(), &blob.entries[i].1, blob);
            let ghost before = ds;
            proof {
                if res is Ok {
                    ds = ds.push(res->Ok_0);
                    assert(e.subrange(0, i + 1).drop_last() =~= e.subrange(0, i as int));
                    assert(ds.drop_last() =~= before);
                    assert forall|j: int| 0 <= j < i + 1 implies convert_spec(e[j].0@, e[j].1, *blob, Ok(#[trigger] ds[j])) by {
                        if j < i {
                            assert(ds[j] == before[j]);
                        }
                    }
                }
            }
            match res {
                Ok(Directive::Action(a)) => {
                    match actor.insert(a) {
                        Ok(()) => {},
                        Err(name) => {
                            assert(decoded_prefix(e, *blob, ds, i + 1));
                            return Err(IngestError::DuplicateName { name });
                        },
                    }
                },
                Ok(d) => {
                    directives.push((key.clone(), d));
                },
                Err(reason) => {
                    assert(decoded_prefix(e, *blob, ds, i as int));
                    return Err(IngestError::Entry { key: key.clone(), reason });
                },
            }
            i = i + 1;
        }
        assert(e.subrange(0, i as int) =~= e);
        assert(plain_of(e, ds) == directives@);
        Ok(Some(Ingested { directives, actor }))
    }
}

/// A node is decoded at most once: once it has been visited, ingesting any
/// further nodes keeps it visited, so a later call for it gives `None`.
pub proof fn lemma_visited_stays(v: Set<u64>, node: u64, later: Seq<u64>)
    requires
        v.contains(node),
    ensures
        later.fold_left(v, |s: Set<u64>, n: u64| s.insert(n)).contains(node),
    decreases later.len(),
{
    if later.len() > 0 {
        lemma_visited_stays(v, node, later.drop_last());
    }
}

} // verus!
