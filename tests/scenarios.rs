use level_logic::action::Action;
use level_logic::actor::Actor;
use level_logic::chamber::TestChamberAction;
use level_logic::decoder::{convert, Directive};
use level_logic::delay::DelayedAction;
use level_logic::door::{DoorOpenStrategy, OpenDoorAction};
use level_logic::button::{CollisionButtonAction, StandButtonAction};
use level_logic::ingest::{IngestError, Ingestor};
use level_logic::input::InputFieldAction;
use level_logic::meta::{MetaValue, Metadata};
use level_logic::props::CollisionAction;
use level_logic::settings::PlayerState;
use level_logic::signal::{ButtonState, CustomEvent, SignalBus};
use level_logic::teleport::DelayedTeleportAction;
use level_logic::world::{Child, Effect, Frame, Point, Sense, Surroundings, Target};

fn meta(entries: Vec<(&str, MetaValue)>) -> Metadata {
    Metadata { entries: entries.into_iter().map(|(k, v)| (k.to_string(), v)).collect() }
}

fn s(text: &str) -> MetaValue {
    MetaValue::Str(text.to_string())
}

fn frame(now_ms: u64, e: bool) -> Frame {
    Frame { now_ms, e_pressed: e, enter_pressed: false, escape_pressed: false, back_pressed: false, typed: vec![] }
}

fn aimed() -> Sense {
    Sense { aimed: true, touching: false }
}

fn nothing() -> Sense {
    Sense { aimed: false, touching: false }
}

fn child(node: u64, name: &str) -> Child {
    Child { node, name: name.to_string() }
}

fn empty_surroundings() -> Surroundings {
    Surroundings { children: vec![], nodes: vec![], compatible_clip: None, named_clips: vec![] }
}

fn door_surroundings() -> Surroundings {
    Surroundings {
        children: vec![child(11, "system:Usage_door.001"), child(12, "system:Door_Left"), child(13, "system:Door_Right")],
        nodes: vec![],
        compatible_clip: None,
        named_clips: vec![],
    }
}

fn only_action(d: Result<Directive, level_logic::error::Reason>) -> Action {
    match d {
        Ok(Directive::Action(a)) => a,
        _ => panic!("expected an action"),
    }
}

fn rotations(fx: &[Effect]) -> Vec<(u64, i64)> {
    fx.iter()
        .filter_map(|e| match e {
            Effect::RotateLeaf { node, quarter_turns } => Some((*node, *quarter_turns)),
            _ => None,
        })
        .collect()
}

#[test]
fn door_via_button() {
    let stand_meta = meta(vec![
        ("action:stand_button", MetaValue::Nat(7)),
        ("#cooldown", MetaValue::Nat(5)),
        ("#press_longetivity", MetaValue::Nat(2)),
    ]);
    let door_meta = meta(vec![("action:open_door", s("7"))]);
    let mut stand = Actor::new();
    stand.insert(only_action(convert("action:stand_button", &stand_meta.entries[0].1, &stand_meta))).unwrap();
    let mut door = Actor::new();
    door.insert(only_action(convert("action:open_door", &door_meta.entries[0].1, &door_meta))).unwrap();
    let mut bus = SignalBus::new();

    // t = 0: the player looks at the stand and presses E.
    let mut fx = vec![];
    stand.run_tick(1, &empty_surroundings(), &vec![aimed()], &frame(0, true), &mut bus, &mut fx).unwrap();
    door.run_tick(10, &door_surroundings(), &vec![nothing()], &frame(0, false), &mut bus, &mut fx).unwrap();
    assert_eq!(rotations(&fx), vec![(12, 1), (13, -1)]);
    bus.end_tick();

    // t = 1 s: nothing changes.
    let mut fx = vec![];
    stand.run_tick(1, &empty_surroundings(), &vec![nothing()], &frame(1000, false), &mut bus, &mut fx).unwrap();
    door.run_tick(10, &door_surroundings(), &vec![nothing()], &frame(1000, false), &mut bus, &mut fx).unwrap();
    assert!(rotations(&fx).is_empty());
    bus.end_tick();

    // t = 2.5 s: the press has expired, the leaves turn back.
    let mut fx = vec![];
    stand.run_tick(1, &empty_surroundings(), &vec![nothing()], &frame(2500, false), &mut bus, &mut fx).unwrap();
    door.run_tick(10, &door_surroundings(), &vec![nothing()], &frame(2500, false), &mut bus, &mut fx).unwrap();
    assert_eq!(rotations(&fx), vec![(12, -1), (13, 1)]);
    bus.end_tick();

    // t = 3 s: E again, within the cooldown: ignored.
    let mut fx = vec![];
    stand.run_tick(1, &empty_surroundings(), &vec![aimed()], &frame(3000, true), &mut bus, &mut fx).unwrap();
    assert_eq!(bus.first_button(7), Some(ButtonState { is_pressed: false, just_changed: true, id: 7 }));
    assert!(bus.latest_button(7).map(|b| !b.is_pressed).unwrap());
    door.run_tick(10, &door_surroundings(), &vec![nothing()], &frame(3000, false), &mut bus, &mut fx).unwrap();
    assert!(rotations(&fx).is_empty());
}

#[test]
fn delayed_teleport() {
    let delay_value = MetaValue::Array(vec![
        MetaValue::Nat(3),
        MetaValue::Nat(4),
        MetaValue::Frac(1000),
        MetaValue::Nat(0),
        MetaValue::Nat(1),
    ]);
    let mut delay = DelayedAction::new(&delay_value).unwrap();
    let tp_value = MetaValue::Array(vec![s("absolute"), s("4"), s("10"), s("1"), s("0")]);
    let mut tp = DelayedTeleportAction::new(&tp_value).unwrap();
    tp.try_startup(2, &empty_surroundings()).unwrap();
    let mut bus = SignalBus::new();
    bus.emit_button(ButtonState { id: 3, is_pressed: true, just_changed: true });
    let mut fx = vec![];
    for now in [0u64, 500, 999] {
        if delay.predicate(now, &bus) {
            delay.execute(&mut bus);
        }
        if tp.predicate(&bus) {
            tp.execute(&mut fx);
        }
        assert!(fx.is_empty(), "no teleport before one second");
        bus.end_tick();
    }
    assert!(delay.predicate(1000, &bus));
    assert!(delay.execute(&mut bus));
    assert!(tp.predicate(&bus));
    assert!(tp.execute(&mut fx));
    assert!(matches!(fx[0], Effect::Teleport(Target::Absolute(Point { x: 10000, y: 1000, z: 0 }))));
}

fn chamber_meta() -> Metadata {
    meta(vec![
        ("action:test_chamber", MetaValue::Nat(9)),
        ("#test_chamber_routes", MetaValue::Array(vec![MetaValue::Nat(100)])),
        ("#test_chamber_rights", MetaValue::Array(vec![MetaValue::Nat(101)])),
        ("#test_chamber_wrongs", MetaValue::Array(vec![MetaValue::Nat(102)])),
        ("#test_chamber_answer", MetaValue::Array(vec![s("42")])),
        ("#test_chamber_input_name", s("answer")),
        ("#test_chamber_repeats_globally", MetaValue::Bool(false)),
    ])
}

#[test]
fn quiz_right_answer() {
    let m = chamber_meta();
    let mut chamber = TestChamberAction::new(&MetaValue::Nat(9), &m).unwrap();
    assert_eq!(chamber.chosen_route_index, 0);
    let mut bus = SignalBus::new();
    bus.emit_button(ButtonState { id: 9, is_pressed: true, just_changed: true });
    assert!(chamber.predicate(&mut bus));
    assert!(chamber.execute(&mut bus));
    assert!(bus.first_button(100).is_some());
    bus.end_tick();
    bus.end_tick();
    bus.emit_custom(CustomEvent::new("answer".to_string(), "42".to_string()));
    assert!(!chamber.predicate(&mut bus));
    assert_eq!(bus.first_button(101), Some(ButtonState { is_pressed: true, just_changed: true, id: 101 }));
    assert!(bus.first_button(102).is_none());
}

#[test]
fn quiz_wrong_answer_and_non_ascii_dropped() {
    let m = chamber_meta();
    let mut chamber = TestChamberAction::new_with_route(&MetaValue::Nat(9), &m, 5).unwrap();
    assert_eq!(chamber.chosen_route_index, 0);
    let mut bus = SignalBus::new();
    bus.emit_button(ButtonState { id: 9, is_pressed: true, just_changed: true });
    chamber.predicate(&mut bus);
    bus.end_tick();
    bus.end_tick();
    bus.emit_custom(CustomEvent::new("answer".to_string(), "4é2".to_string()));
    chamber.predicate(&mut bus);
    assert!(bus.first_button(101).is_some());
    bus.end_tick();
    bus.end_tick();
    bus.emit_custom(CustomEvent::new("answer".to_string(), "43".to_string()));
    chamber.predicate(&mut bus);
    assert!(bus.first_button(102).is_some());
}

#[test]
fn duplicate_action_name() {
    let mut actor = Actor::new();
    actor.insert(Action::OpenDoor(OpenDoorAction::new(&s("openable")).unwrap())).unwrap();
    let mut other = Action::CollisionButton(CollisionButtonAction::new(&MetaValue::Nat(3)).unwrap());
    other.change_name("open_door".to_string());
    assert_eq!(actor.insert(other), Err("open_door".to_string()));
    assert_eq!(actor.len(), 1);

    let blob = meta(vec![
        ("action:delay_transmitter", MetaValue::Array(vec![MetaValue::Nat(1), MetaValue::Nat(2), MetaValue::Nat(1), MetaValue::Nat(0), MetaValue::Nat(0)])),
        ("action:delay_trasmitter", MetaValue::Array(vec![MetaValue::Nat(5), MetaValue::Nat(6), MetaValue::Nat(1), MetaValue::Nat(0), MetaValue::Nat(0)])),
    ]);
    let mut ing = Ingestor::new();
    match ing.ingest(42, &blob) {
        Err(IngestError::DuplicateName { name }) => assert_eq!(name, "delay_transmitter"),
        _ => panic!("duplicate names must be rejected"),
    }
}

#[test]
fn collision_audio_cooldown() {
    let m = meta(vec![("action:collision_audio", s("thud.ogg")), ("#collision_audio_cooldown", MetaValue::Frac(1000))]);
    let mut a = CollisionAction::new(&s("thud.ogg"), &m).unwrap();
    let touching = Sense { aimed: false, touching: true };
    let mut plays = 0;
    for (now, sense) in [(0u64, touching), (500, touching), (600, nothing()), (700, touching), (800, nothing()), (1200, touching)] {
        let mut fx = vec![];
        a.predicate(now, sense, &mut fx);
        for e in &fx {
            if let Effect::PlayAudio { path, volume_milli } = e {
                assert_eq!(path, "thud.ogg");
                assert_eq!(*volume_milli, 500);
                plays += 1;
                assert!(now == 0 || now == 1200, "unexpected play at {}", now);
            }
        }
    }
    assert_eq!(plays, 2);
}

#[test]
fn input_field_isolation() {
    let mut field = InputFieldAction::new(&s("answer")).unwrap();
    field.try_startup(5);
    let mut bus = SignalBus::new();
    let mut fx = vec![];
    assert!(field.predicate(&frame(0, true), aimed(), &mut fx));
    field.execute(&mut bus, &mut fx);
    assert!(field.typing_mode);
    assert!(fx.iter().any(|e| matches!(e, Effect::SetPlayerState(PlayerState::Restricted))));

    let mut fx = vec![];
    let typing = Frame { now_ms: 1000, e_pressed: true, enter_pressed: false, escape_pressed: false, back_pressed: false, typed: vec!['4', '2', '#', 'x'] };
    assert!(!field.predicate(&typing, aimed(), &mut fx));
    assert!(!fx.iter().any(|e| matches!(e, Effect::SetPlayerState(PlayerState::Interactive))));
    assert!(fx.iter().any(|e| matches!(e, Effect::InputText { text, .. } if text == "42x ")));

    let mut fx = vec![];
    let enter = Frame { now_ms: 2000, e_pressed: false, enter_pressed: true, escape_pressed: false, back_pressed: true, typed: vec![] };
    assert!(field.predicate(&enter, nothing(), &mut fx));
    assert!(fx.iter().any(|e| matches!(e, Effect::SetPlayerState(PlayerState::Interactive))));
    assert!(fx.iter().any(|e| matches!(e, Effect::InputText { text, .. } if text == "42|")));
    field.execute(&mut bus, &mut fx);
    assert!(!field.typing_mode);
    let name = "answer".to_string();
    let ev = bus.first_custom(&name).unwrap();
    assert_eq!(ev.json_encoded, "42");
}

#[test]
fn input_field_escape_aborts() {
    let mut field = InputFieldAction::new(&s("answer")).unwrap();
    let mut bus = SignalBus::new();
    let mut fx = vec![];
    field.predicate(&frame(0, true), aimed(), &mut fx);
    field.execute(&mut bus, &mut fx);
    let esc = Frame { now_ms: 10, e_pressed: false, enter_pressed: false, escape_pressed: true, back_pressed: false, typed: vec!['a'] };
    let mut fx = vec![];
    assert!(!field.predicate(&esc, nothing(), &mut fx));
    assert!(!field.typing_mode);
    assert!(fx.iter().any(|e| matches!(e, Effect::SetPlayerState(PlayerState::Interactive))));
    assert!(bus.first_custom(&"answer".to_string()).is_none());
}

#[test]
fn door_player_mode_toggles_on_e() {
    let mut door = OpenDoorAction::new(&s("openable")).unwrap();
    assert_eq!(door.opening_strategy, DoorOpenStrategy::Player);
    let mut fx = vec![];
    door.try_startup(&door_surroundings(), &mut fx).unwrap();
    assert!(matches!(fx[0], Effect::CollisionGroups { node: 11, members: 0xFFFF_FFFE, filters: 0xFFFF_FFFE, override_groups: true }));
    assert!(door.predicate(aimed()));
    assert!(!door.predicate(nothing()));
    let bus = SignalBus::new();
    let mut fx = vec![];
    assert!(!door.execute(&frame(0, false), &bus, &mut fx));
    assert!(matches!(&fx[0], Effect::Hint { text, priority: 1, key_e: true } if text == "Open door"));
    assert!(door.execute(&frame(0, true), &bus, &mut fx));
    assert!(door.is_opened);
    assert!(door.execute(&frame(10, true), &bus, &mut fx));
    assert!(!door.is_opened);
}

#[test]
fn stand_button_reads_parameters() {
    let m = meta(vec![("#cooldown", MetaValue::Frac(500)), ("#press_longetivity", MetaValue::Nat(0))]);
    let b = StandButtonAction::new(&MetaValue::Nat(3), &m).unwrap();
    assert_eq!(b.cooldown_ms, 500);
    assert_eq!(b.press_longetivity_ms, 0);
    assert_eq!(b.retarget_index, 3);
    let missing = meta(vec![("#cooldown", MetaValue::Nat(1))]);
    assert!(StandButtonAction::new(&MetaValue::Nat(3), &missing).is_err());
}

#[test]
fn input_field_takes_unicode_letters() {
    let mut field = InputFieldAction::new(&s("name")).unwrap();
    let mut bus = SignalBus::new();
    let mut fx = vec![];
    field.predicate(&frame(0, true), aimed(), &mut fx);
    field.execute(&mut bus, &mut fx);
    let typing = Frame { now_ms: 0, e_pressed: false, enter_pressed: true, escape_pressed: false, back_pressed: false, typed: vec!['é', '€', 'Z', '^'] };
    let mut fx = vec![];
    assert!(field.predicate(&typing, nothing(), &mut fx));
    field.execute(&mut bus, &mut fx);
    assert_eq!(bus.first_custom(&"name".to_string()).unwrap().json_encoded, "éZ^");
}
