use level_logic::action::Action;
use level_logic::actor::Actor;
use level_logic::animation::{FullAnimationAction, NamedAnimationAction, OneAnimationAction};
use level_logic::chamber::TestChamberAction;
use level_logic::decoder::{convert, ColliderType, Directive, RigidBodyKind};
use level_logic::delay::DelayedAction;
use level_logic::door::OpenDoorAction;
use level_logic::button::StandButtonAction;
use level_logic::error::{Param, Reason, Role, StartupError};
use level_logic::ingest::{dispatch, EngineIntent, attach_collider, default_groups, merge_groups, IngestError, Ingestor, MeshChild, MIRROR_SYSTEM, PLAYER_COLLISION};
use level_logic::meta::{MetaValue, Metadata};
use level_logic::props::{BallFalling01Action, LinkOpenerAction};
use level_logic::number::{parse_milli, parse_u64};
use level_logic::runtime::{HintOverlayPlugin, ManagerPlugin, NodeView};
use level_logic::signal::{ButtonState, SignalBus};
use level_logic::teleport::DelayedTeleportAction;
use level_logic::world::{best_hint, Child, Effect, Frame, Repeat, Sense, Surroundings, Target};

fn meta(entries: Vec<(&str, MetaValue)>) -> Metadata {
    Metadata { entries: entries.into_iter().map(|(k, v)| (k.to_string(), v)).collect() }
}

fn s(text: &str) -> MetaValue {
    MetaValue::Str(text.to_string())
}

fn frame(now_ms: u64) -> Frame {
    Frame { now_ms, e_pressed: false, enter_pressed: false, escape_pressed: false, back_pressed: false, typed: vec![] }
}

fn empty_surroundings() -> Surroundings {
    Surroundings { children: vec![], nodes: vec![], compatible_clip: None, named_clips: vec![] }
}

fn press(id: u64, changed: bool) -> ButtonState {
    ButtonState { id, is_pressed: true, just_changed: changed }
}

#[test]
fn node_is_ingested_once() {
    let blob = meta(vec![("is_visible", MetaValue::Bool(false)), ("action:link", s("https://example.org"))]);
    let mut ing = Ingestor::new();
    let first = ing.ingest(7, &blob).unwrap().unwrap();
    assert_eq!(first.directives.len(), 1);
    assert!(matches!(first.directives[0].1, Directive::IsVisible(false)));
    assert_eq!(first.actor.len(), 1);
    assert!(ing.ingest(8, &meta(vec![])).unwrap().is_some());
    assert!(ing.ingest(7, &blob).unwrap().is_none());
    assert!(ing.was_visited(7));
}

#[test]
fn rejected_node_still_counts_as_visited() {
    let blob = meta(vec![("is_visible", s("yes"))]);
    let mut ing = Ingestor::new();
    match ing.ingest(3, &blob) {
        Err(IngestError::Entry { key, reason }) => {
            assert_eq!(key, "is_visible");
            assert_eq!(reason, Reason::BadValue);
        },
        _ => panic!("expected an entry error"),
    }
    assert!(ing.ingest(3, &blob).unwrap().is_none());
}

#[test]
fn startup_once_and_execute_iff_predicate() {
    let mut actor = Actor::new();
    actor.insert(Action::OneAnimation(OneAnimationAction::new(&MetaValue::Nat(4)).unwrap())).unwrap();
    let sur = Surroundings { children: vec![], nodes: vec![], compatible_clip: Some(77), named_clips: vec![] };
    let mut bus = SignalBus::new();
    let mut fx = vec![];
    let out = actor.run_tick(9, &sur, &vec![], &frame(0), &mut bus, &mut fx).unwrap();
    assert!(out[0].started_now);
    assert!(!out[0].predicate && !out[0].executed);
    bus.emit_button(press(4, true));
    let out = actor.run_tick(9, &sur, &vec![], &frame(10), &mut bus, &mut fx).unwrap();
    assert!(!out[0].started_now);
    assert!(out[0].predicate && out[0].executed);
    assert!(matches!(fx[0], Effect::PlayAnimation { node: 9, clip: 77, repeat: Repeat::Never }));
    let out = actor.run_tick(9, &sur, &vec![], &frame(20), &mut bus, &mut fx).unwrap();
    assert!(!out[0].predicate && !out[0].executed);
    assert_eq!(fx.len(), 1);
}

#[test]
fn startup_failure_stops_the_tick() {
    let mut actor = Actor::new();
    actor.insert(Action::OpenDoor(OpenDoorAction::new(&s("openable")).unwrap())).unwrap();
    let mut bus = SignalBus::new();
    let mut fx = vec![];
    match actor.run_tick(1, &empty_surroundings(), &vec![], &frame(0), &mut bus, &mut fx) {
        Err(StartupError::MissingChild(Role::UsageArea)) => {},
        _ => panic!("a door without its children cannot start"),
    }
}

#[test]
fn signals_last_two_ticks() {
    let mut bus = SignalBus::new();
    bus.emit_button(press(5, true));
    bus.emit_button(press(6, true));
    assert_eq!(bus.first_button(5), Some(press(5, true)));
    bus.end_tick();
    assert_eq!(bus.first_button(5), Some(press(5, true)));
    bus.emit_button(ButtonState { id: 5, is_pressed: false, just_changed: true });
    assert_eq!(bus.first_button(5), Some(press(5, true)));
    assert_eq!(bus.latest_button(5), Some(ButtonState { id: 5, is_pressed: false, just_changed: true }));
    bus.end_tick();
    assert_eq!(bus.first_button(5), Some(ButtonState { id: 5, is_pressed: false, just_changed: true }));
    assert!(bus.first_button(6).is_none());
    bus.end_tick();
    assert!(bus.first_button(5).is_none());
    assert!(bus.visible_buttons().is_empty());
}

#[test]
fn delay_only_edge_ignores_unchanged() {
    let v = MetaValue::Array(vec![MetaValue::Nat(3), MetaValue::Nat(4), MetaValue::Nat(1), MetaValue::Nat(0), MetaValue::Frac(1000)]);
    let mut d = DelayedAction::new(&v).unwrap();
    assert!(d.only_edge);
    let mut bus = SignalBus::new();
    bus.emit_button(press(3, false));
    assert!(!d.predicate(0, &bus));
    assert!(d.start_time.is_none());
    bus.end_tick();
    bus.end_tick();
    bus.emit_button(press(3, true));
    assert!(!d.predicate(100, &bus));
    assert_eq!(d.start_time, Some(100));
    assert_eq!(d.button_state, Some(press(4, true)));
}

#[test]
fn delay_configuration_errors() {
    let short = MetaValue::Array(vec![MetaValue::Nat(3), MetaValue::Nat(4)]);
    assert_eq!(DelayedAction::new(&short).err(), Some(Reason::Arity));
    let bad_flag = MetaValue::Array(vec![MetaValue::Nat(3), MetaValue::Nat(4), MetaValue::Nat(1), MetaValue::Nat(2), MetaValue::Nat(0)]);
    assert_eq!(DelayedAction::new(&bad_flag).err(), Some(Reason::BadValue));
    assert_eq!(DelayedAction::new(&MetaValue::Nat(3)).err(), Some(Reason::BadValue));
    let frac_ids = MetaValue::Array(vec![MetaValue::Frac(3700), MetaValue::Neg(-2), MetaValue::Frac(250), MetaValue::Nat(1), MetaValue::Nat(0)]);
    let d = DelayedAction::new(&frac_ids).unwrap();
    assert_eq!((d.from_id, d.to_id, d.duration_ms, d.will_not_override), (3, 0, 250, true));
}

#[test]
fn remote_door_follows_latest_signal() {
    let mut door = OpenDoorAction::new(&MetaValue::Nat(7)).unwrap();
    let mut bus = SignalBus::new();
    let mut fx = vec![];
    assert!(door.predicate(Sense { aimed: false, touching: false }));
    assert!(!door.execute(&frame(0), &bus, &mut fx));
    bus.emit_button(press(7, true));
    bus.emit_button(ButtonState { id: 7, is_pressed: false, just_changed: true });
    bus.emit_button(press(7, true));
    assert!(door.execute(&frame(0), &bus, &mut fx));
    assert!(door.is_opened);
    bus.emit_button(ButtonState { id: 7, is_pressed: false, just_changed: false });
    door.execute(&frame(0), &bus, &mut fx);
    assert!(!door.is_opened);
    door.execute(&frame(0), &bus, &mut fx);
    assert_eq!(fx.len(), 4);
}

#[test]
fn door_value_forms() {
    assert!(OpenDoorAction::new(&s("12")).is_ok());
    assert_eq!(OpenDoorAction::new(&s("twelve")).err(), Some(Reason::BadValue));
    assert_eq!(OpenDoorAction::new(&MetaValue::Bool(true)).err(), Some(Reason::BadValue));
}

#[test]
fn chamber_route_is_constant() {
    let m = meta(vec![
        ("#test_chamber_routes", MetaValue::Array(vec![MetaValue::Nat(100), MetaValue::Nat(200), MetaValue::Nat(300)])),
        ("#test_chamber_rights", MetaValue::Array(vec![MetaValue::Nat(101), MetaValue::Nat(201), MetaValue::Nat(301)])),
        ("#test_chamber_wrongs", MetaValue::Array(vec![MetaValue::Nat(102), MetaValue::Nat(202), MetaValue::Nat(302)])),
        ("#test_chamber_answer", MetaValue::Array(vec![s("a"), s("b"), s("c")])),
        ("#test_chamber_input_name", s("answer")),
        ("#test_chamber_repeats_globally", MetaValue::Bool(true)),
    ]);
    for _ in 0..20 {
        let c = TestChamberAction::new(&MetaValue::Nat(9), &m).unwrap();
        assert!(c.chosen_route_index < 3);
    }
    let mut c = TestChamberAction::new_with_route(&MetaValue::Nat(9), &m, 4).unwrap();
    assert_eq!(c.chosen_route_index, 1);
    let mut bus = SignalBus::new();
    bus.emit_button(press(9, true));
    assert!(c.predicate(&mut bus));
    c.execute(&mut bus);
    assert!(bus.first_button(200).is_some());
    for _ in 0..3 {
        bus.emit_custom(level_logic::signal::CustomEvent::new("answer".to_string(), "b".to_string()));
        c.predicate(&mut bus);
        assert_eq!(c.chosen_route_index, 1);
    }
    assert!(bus.first_button(201).is_some());
}

#[test]
fn chamber_errors() {
    let mut m = meta(vec![
        ("#test_chamber_routes", MetaValue::Array(vec![MetaValue::Nat(100), MetaValue::Nat(200)])),
        ("#test_chamber_rights", MetaValue::Array(vec![MetaValue::Nat(101)])),
        ("#test_chamber_wrongs", MetaValue::Array(vec![MetaValue::Nat(102)])),
        ("#test_chamber_answer", MetaValue::Array(vec![s("a")])),
        ("#test_chamber_input_name", s("answer")),
        ("#test_chamber_repeats_globally", MetaValue::Bool(false)),
    ]);
    assert_eq!(TestChamberAction::new(&MetaValue::Nat(9), &m).err(), Some(Reason::Arity));
    m.entries[0].1 = MetaValue::Array(vec![MetaValue::Nat(100)]);
    assert!(TestChamberAction::new(&MetaValue::Nat(9), &m).is_ok());
    assert_eq!(TestChamberAction::new(&s("9"), &m).err(), Some(Reason::BadValue));
    m.entries[4].1 = MetaValue::Nat(1);
    assert_eq!(TestChamberAction::new(&MetaValue::Nat(9), &m).err(), Some(Reason::BadParam(Param::ChamberInputName)));
    m.entries.remove(1);
    assert_eq!(TestChamberAction::new(&MetaValue::Nat(9), &m).err(), Some(Reason::BadParam(Param::ChamberRights)));
}

#[test]
fn decoder_directives() {
    let m = meta(vec![
        ("spawn_point", MetaValue::Bool(true)),
        ("ambient_intensity", MetaValue::Frac(500)),
        ("ambient_color", MetaValue::Array(vec![MetaValue::Nat(1), MetaValue::Frac(250), MetaValue::Nat(0), MetaValue::Nat(1)])),
        ("skybox", s("sky.png")),
        ("collider_type", s("hull")),
    ]);
    match convert("spawn_point", &MetaValue::Bool(true), &m).unwrap() {
        Directive::PlayerSpawnPoint { ambient: Some(a), skybox: Some(k) } => {
            assert_eq!((a.intensity, a.red, a.green, a.blue, a.alpha), (500, 1000, 250, 0, 1000));
            assert_eq!(k, "sky.png");
        },
        _ => panic!("expected a spawn point"),
    }
    assert!(matches!(convert("ambient_color", &MetaValue::Nat(1), &m), Ok(Directive::Resolved)));
    assert!(matches!(convert("mesh_collider_marker", &MetaValue::Bool(true), &m), Ok(Directive::MeshCollider(ColliderType::FromMeshConvexHull))));
    assert!(matches!(convert("rigidbody", &s("KPB"), &m), Ok(Directive::MeshRigidBody(RigidBodyKind::KinematicPositionBased))));
    assert!(matches!(convert("rigidbody", &s("Floaty"), &m), Ok(Directive::Unhandled)));
    assert!(matches!(convert("shadows", &MetaValue::Nat(1), &m), Ok(Directive::Light { shadows: false })));
    assert!(matches!(convert("shadows", &MetaValue::Bool(true), &m), Ok(Directive::Light { shadows: true })));
    assert!(matches!(convert("density", &MetaValue::Frac(2500), &m), Ok(Directive::MassProp(2500))));
    assert!(matches!(convert("density", &MetaValue::Nat(2), &m), Ok(Directive::Unhandled)));
    assert!(matches!(convert("placed_mirror", &MetaValue::Bool(true), &m), Ok(Directive::PlayerPlacedMirror)));
    assert!(matches!(convert("placable_plane", &MetaValue::Bool(false), &m), Ok(Directive::Unhandled)));
    assert!(matches!(convert("collider_sensor", &MetaValue::Bool(true), &m), Ok(Directive::ColliderSensor)));
    assert!(matches!(convert("audio_on_collision", &s("a.ogg"), &m), Ok(Directive::CollisionAudio(p)) if p == "a.ogg"));
    assert!(matches!(convert("action:mystery", &MetaValue::Nat(1), &m), Ok(Directive::Unhandled)));
    assert!(matches!(convert("action:link:extra", &s("x"), &m), Ok(Directive::Unhandled)));
    assert!(matches!(convert("something", &MetaValue::Nat(1), &m), Ok(Directive::Unhandled)));
    assert!(matches!(convert("action:link", &s("https://example.org"), &m), Ok(Directive::Action(Action::Link(_)))));
}

#[test]
fn decoder_collider_errors() {
    let none = meta(vec![]);
    assert_eq!(convert("mesh_collider_marker", &MetaValue::Bool(true), &none).err(), Some(Reason::MissingColliderType));
    let cone = meta(vec![("collider_type", s("cone"))]);
    assert!(matches!(convert("mesh_collider_marker", &MetaValue::Bool(true), &cone), Ok(Directive::MeshCollider(ColliderType::Cone))));
    let odd = meta(vec![("collider_type", s("blob"))]);
    assert_eq!(convert("mesh_collider_marker", &MetaValue::Bool(true), &odd).err(), Some(Reason::UnknownColliderType));
    assert_eq!(convert("action:stand_button", &s("7"), &none).err(), Some(Reason::BadValue));
    assert_eq!(convert("action:stand_button", &MetaValue::Nat(7), &none).err(), Some(Reason::BadParam(Param::Cooldown)));
}

#[test]
fn numbers_from_text() {
    assert_eq!(parse_u64("0"), Some(0));
    assert_eq!(parse_u64("18446744073709551615"), Some(u64::MAX));
    assert_eq!(parse_u64("18446744073709551616"), None);
    assert_eq!(parse_u64(""), None);
    assert_eq!(parse_u64("1a"), None);
    assert_eq!(parse_milli("10"), Some(10000));
    assert_eq!(parse_milli("-2.5"), Some(-2500));
    assert_eq!(parse_milli("0.125"), Some(125));
    assert_eq!(parse_milli("1.2345"), None);
    assert_eq!(parse_milli("1."), None);
    assert_eq!(parse_milli("abc"), None);
}

#[test]
fn hint_with_highest_priority_wins() {
    let fx = vec![
        Effect::PauseAnimation { node: 1 },
        Effect::Hint { text: "a".to_string(), priority: 1, key_e: true },
        Effect::Hint { text: "b".to_string(), priority: 3, key_e: false },
        Effect::Hint { text: "c".to_string(), priority: 3, key_e: true },
    ];
    assert_eq!(best_hint(&fx), Some(2));
    let mut overlay = HintOverlayPlugin::new();
    assert_eq!(overlay.show_hint(&fx), Some(2));
    assert!(overlay.visible);
    assert_eq!(overlay.text, "b");
    assert_eq!(overlay.show_hint(&vec![]), None);
    assert!(!overlay.visible);
}

#[test]
fn collision_groups_merge() {
    assert_eq!(merge_groups(Some((PLAYER_COLLISION, PLAYER_COLLISION)), MIRROR_SYSTEM, MIRROR_SYSTEM, false), (3, 3));
    assert_eq!(merge_groups(Some((5, 6)), 8, 1, true), (8, 1));
    assert_eq!(merge_groups(None, 2, 4, false), (2, 4));
}

#[test]
fn full_animation_counts_loops_and_pauses() {
    let v = MetaValue::Array(vec![MetaValue::Nat(1), MetaValue::Nat(3), MetaValue::Nat(2), MetaValue::Nat(5)]);
    let mut a = FullAnimationAction::new(&v).unwrap();
    let sur = Surroundings { children: vec![], nodes: vec![], compatible_clip: Some(4), named_clips: vec![] };
    a.try_startup(8, &sur);
    let mut fx = vec![];
    let mut bus = SignalBus::new();
    bus.emit_button(press(5, true));
    bus.emit_button(press(1, true));
    assert!(a.predicate(&bus, &mut fx));
    assert!(matches!(fx[0], Effect::PauseAnimation { node: 8 }));
    assert!(a.execute(&mut fx));
    assert!(matches!(fx[1], Effect::PlayAnimation { node: 8, clip: 4, repeat: Repeat::Count(3) }));
    assert!(a.predicate(&bus, &mut fx));
    assert!(!a.predicate(&bus, &mut fx));
    assert_eq!(a.loops_passed, 2);
}

#[test]
fn named_animation_looks_up_clip() {
    let v = MetaValue::Array(vec![s("6"), s("open")]);
    let mut a = NamedAnimationAction::new(&v).unwrap();
    let sur = Surroundings {
        children: vec![],
        nodes: vec![],
        compatible_clip: None,
        named_clips: vec![Child { node: 31, name: "close".to_string() }, Child { node: 32, name: "open".to_string() }],
    };
    a.try_startup(3, &sur);
    assert_eq!(a.animation, Some(32));
    let mut bus = SignalBus::new();
    bus.emit_button(press(6, false));
    assert!(a.predicate(&bus));
    assert!(!a.predicate(&bus));
}

#[test]
fn ball_reset_and_start() {
    let v = MetaValue::Array(vec![MetaValue::Nat(1), MetaValue::Nat(2)]);
    let mut b = BallFalling01Action::new(&v).unwrap();
    let sur = Surroundings { children: vec![Child { node: 50, name: "TheBall.002".to_string() }], nodes: vec![], compatible_clip: None, named_clips: vec![] };
    b.try_startup(4, &sur);
    let mut bus = SignalBus::new();
    bus.emit_button(press(2, true));
    bus.emit_button(press(1, true));
    let mut fx = vec![];
    assert!(b.predicate(&bus));
    b.execute(&mut fx);
    assert!(matches!(fx[0], Effect::BallReset { ball: 50 }));
}

#[test]
fn teleport_to_named_node() {
    let v = MetaValue::Array(vec![s("entity"), s("3"), s("Target")]);
    let mut t = DelayedTeleportAction::new(&v).unwrap();
    let sur = Surroundings { children: vec![], nodes: vec![Child { node: 90, name: "Target".to_string() }], compatible_clip: None, named_clips: vec![] };
    t.try_startup(1, &sur).unwrap();
    let mut fx = vec![];
    assert!(t.execute(&mut fx));
    assert!(matches!(fx[0], Effect::Teleport(Target::Node(90))));
    let mut lost = DelayedTeleportAction::new(&v).unwrap();
    assert!(lost.try_startup(1, &empty_surroundings()).is_err());
    let rel = MetaValue::Array(vec![s("relative"), s("3"), s("0.5"), s("-1"), s("2")]);
    assert!(DelayedTeleportAction::new(&rel).is_ok());
    let bad = MetaValue::Array(vec![s("sideways"), s("3"), s("0")]);
    assert!(DelayedTeleportAction::new(&bad).is_err());
}

#[test]
fn link_opener_opens_on_e() {
    let link = LinkOpenerAction::new(&s("https://example.org")).unwrap();
    let mut fx = vec![];
    let mut f = frame(0);
    f.e_pressed = true;
    assert!(link.execute(&f, &mut fx));
    assert!(matches!(&fx[1], Effect::OpenLink(l) if l == "https://example.org"));
}

#[test]
fn manager_runs_every_node() {
    let mut m = ManagerPlugin::new();
    let mut a = Actor::new();
    a.insert(Action::OneAnimation(OneAnimationAction::new(&MetaValue::Nat(4)).unwrap())).unwrap();
    m.add(3, a);
    let mut b = Actor::new();
    b.insert(Action::Delay(DelayedAction::new(&MetaValue::Array(vec![MetaValue::Nat(4), MetaValue::Nat(5), MetaValue::Nat(0), MetaValue::Nat(0), MetaValue::Nat(0)])).unwrap())).unwrap();
    m.add(6, b);
    assert_eq!(m.node_ids(), vec![3, 6]);
    let views = vec![
        NodeView { surroundings: Surroundings { children: vec![], nodes: vec![], compatible_clip: Some(1), named_clips: vec![] }, senses: vec![] },
        NodeView { surroundings: empty_surroundings(), senses: vec![] },
    ];
    let mut bus = SignalBus::new();
    bus.emit_button(press(4, true));
    let mut fx = vec![];
    let out = m.run_all(&views, &frame(0), &mut bus, &mut fx).unwrap();
    assert_eq!(out.len(), 2);
    assert!(out[0][0].executed);
    assert!(!out[1][0].executed);
}

#[test]
fn collider_goes_to_mesh_children() {
    let children = vec![
        MeshChild { node: 1, has_mesh: false },
        MeshChild { node: 2, has_mesh: true },
        MeshChild { node: 3, has_mesh: true },
    ];
    assert_eq!(attach_collider(&children, None), (vec![2, 3], Some((PLAYER_COLLISION, PLAYER_COLLISION))));
    assert_eq!(attach_collider(&children, Some((2, 2))), (vec![2, 3], None));
    assert_eq!(attach_collider(&vec![MeshChild { node: 4, has_mesh: false }], None), (vec![], None));
    assert_eq!(default_groups(None), Some((PLAYER_COLLISION, PLAYER_COLLISION)));
    assert_eq!(default_groups(Some((2, 2))), None);
}

#[test]
fn directives_become_engine_intents() {
    let children = vec![MeshChild { node: 5, has_mesh: true }, MeshChild { node: 6, has_mesh: false }];
    let m = meta(vec![]);
    let spawn = convert("spawn_point", &MetaValue::Bool(true), &m).unwrap();
    let fx = dispatch(1, &children, &spawn);
    assert!(matches!(fx[0], EngineIntent::SpawnPlayer { node: 1, ambient: None, skybox: None }));
    assert!(matches!(fx[1], EngineIntent::Despawn { node: 1 }));
    let fx = dispatch(1, &children, &Directive::MeshCollider(ColliderType::Ball));
    assert_eq!(fx.len(), 1);
    assert!(matches!(fx[0], EngineIntent::AttachCollider { node: 5, collider: ColliderType::Ball }));
    let fx = dispatch(1, &children, &Directive::PlayerPlacedMirror);
    assert!(matches!(fx[0], EngineIntent::ModifyCollisionGroup { node: 1, members: 2, filters: 2, override_groups: false }));
    let fx = dispatch(1, &children, &Directive::IsVisible(false));
    assert!(matches!(fx[0], EngineIntent::SetVisibility { node: 1, visible: false }));
    let fx = dispatch(1, &children, &Directive::Light { shadows: true });
    assert!(matches!(fx[0], EngineIntent::LightShadows { node: 1, shadows: true }));
    let fx = dispatch(1, &children, &Directive::MeshRigidBody(RigidBodyKind::Fixed));
    assert!(matches!(fx[0], EngineIntent::RigidBody { node: 1, kind: RigidBodyKind::Fixed }));
    assert!(dispatch(1, &children, &Directive::Resolved).is_empty());
}

#[test]
fn decoded_actions_are_named_after_their_kind() {
    let m = meta(vec![]);
    let names = [
        ("action:teleport", MetaValue::Array(vec![s("absolute"), s("1"), s("0"), s("0"), s("0")]), "teleport"),
        ("action:delay_trasmitter", MetaValue::Array(vec![MetaValue::Nat(1), MetaValue::Nat(2), MetaValue::Nat(1), MetaValue::Nat(0), MetaValue::Nat(0)]), "delay_transmitter"),
        ("action:link", s("https://example.org"), "link"),
        ("action:one_animation", MetaValue::Nat(3), "one_animation"),
        ("action:collision_audio", s("a.ogg"), "collision_audio"),
    ];
    for (key, value, name) in names {
        match convert(key, &value, &m) {
            Ok(Directive::Action(a)) => assert_eq!(a.name(), name),
            _ => panic!("expected an action for {}", key),
        }
    }
}

#[test]
fn chamber_without_routes_is_accepted() {
    let m = meta(vec![
        ("#test_chamber_routes", MetaValue::Array(vec![])),
        ("#test_chamber_rights", MetaValue::Array(vec![])),
        ("#test_chamber_wrongs", MetaValue::Array(vec![])),
        ("#test_chamber_answer", MetaValue::Array(vec![])),
        ("#test_chamber_input_name", s("answer")),
        ("#test_chamber_repeats_globally", MetaValue::Bool(false)),
    ]);
    let mut c = TestChamberAction::new(&MetaValue::Nat(9), &m).unwrap();
    assert_eq!(c.chosen_route_index, 0);
    let mut bus = SignalBus::new();
    bus.emit_button(press(9, true));
    assert!(c.predicate(&mut bus));
    assert!(!c.execute(&mut bus));
}

#[test]
fn chamber_drops_control_characters() {
    let m = meta(vec![
        ("#test_chamber_routes", MetaValue::Array(vec![MetaValue::Nat(100)])),
        ("#test_chamber_rights", MetaValue::Array(vec![MetaValue::Nat(101)])),
        ("#test_chamber_wrongs", MetaValue::Array(vec![MetaValue::Nat(102)])),
        ("#test_chamber_answer", MetaValue::Array(vec![s("42")])),
        ("#test_chamber_input_name", s("answer")),
        ("#test_chamber_repeats_globally", MetaValue::Bool(false)),
    ]);
    let mut c = TestChamberAction::new(&MetaValue::Nat(9), &m).unwrap();
    let mut bus = SignalBus::new();
    bus.emit_button(press(9, true));
    c.predicate(&mut bus);
    bus.emit_custom(level_logic::signal::CustomEvent::new("answer".to_string(), "4\t2\n".to_string()));
    c.predicate(&mut bus);
    assert!(bus.first_button(101).is_some());
}

#[test]
fn stand_button_without_cooldown_presses_again() {
    let m = meta(vec![("#cooldown", MetaValue::Nat(0)), ("#press_longetivity", MetaValue::Nat(0))]);
    let mut b = StandButtonAction::new(&MetaValue::Nat(3), &m).unwrap();
    let mut bus = SignalBus::new();
    let mut fx = vec![];
    let mut f = frame(0);
    f.e_pressed = true;
    assert!(b.execute(&f, &mut bus, &mut fx));
    f.now_ms = 10;
    assert!(b.execute(&f, &mut bus, &mut fx));
}

#[test]
fn door_names_the_missing_leaf() {
    let mut door = OpenDoorAction::new(&s("openable")).unwrap();
    let sur = Surroundings {
        children: vec![Child { node: 1, name: "system:Usage_door".to_string() }, Child { node: 2, name: "system:Door_Left".to_string() }],
        nodes: vec![],
        compatible_clip: None,
        named_clips: vec![],
    };
    let mut fx = vec![];
    assert!(matches!(door.try_startup(&sur, &mut fx), Err(StartupError::MissingChild(Role::DoorRight))));
    assert!(fx.is_empty());
}
