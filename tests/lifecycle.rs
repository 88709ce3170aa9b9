use level_logic::audio::CollisionAudio;
use level_logic::lifecycle::{LoadError, SceneLoaderPlugin};
use level_logic::settings::GameState;

#[test]
fn level_loads_then_unloads() {
    let mut loader = SceneLoaderPlugin::new();
    assert_eq!(loader.load_gltf_file(&vec![]), Ok(None));
    assert_eq!(loader.load_gltf_file(&vec!["one".to_string()]), Ok(Some("levels/one/main.gltf".to_string())));
    assert_eq!(loader.load_gltf_file(&vec!["one".to_string(), "two".to_string()]), Err(LoadError::TwoRequests));
    loader.begin_loading("one".to_string(), 17);
    assert!(!loader.spawn_loaded_gltf_scene(false));
    assert_eq!(loader.state, GameState::MainMenu);
    assert!(loader.spawn_loaded_gltf_scene(true));
    assert_eq!(loader.state, GameState::Game);
    assert!(loader.loading.as_ref().unwrap().is_loaded);
    assert_eq!(loader.loading.as_ref().unwrap().handle, 17);
    assert!(!loader.spawn_loaded_gltf_scene(true));
    assert_eq!(loader.load_gltf_file(&vec!["two".to_string()]), Err(LoadError::NotInMenu));
    assert!(loader.unload());
    assert_eq!(loader.state, GameState::MainMenu);
    assert!(loader.loading.is_none());
    assert!(!loader.unload());
}

#[test]
fn collision_sound_component_cooldown() {
    let mut sound = CollisionAudio::from_handle(4).with_volume(250);
    assert_eq!(sound.volume_milli, 250);
    sound.recursive_cooldown_ms = Some(1000);
    assert!(sound.handle_audio_collision(0, true));
    assert!(!sound.handle_audio_collision(100, true));
    assert!(!sound.handle_audio_collision(200, false));
    assert!(!sound.handle_audio_collision(700, true));
    assert!(!sound.handle_audio_collision(800, false));
    assert!(sound.handle_audio_collision(1200, true));
    assert_eq!(sound.last_played, Some(1200));
}

#[test]
fn collision_sound_without_cooldown_plays_once() {
    let mut sound = CollisionAudio::from_handle(1);
    assert_eq!(sound.volume_milli, 1000);
    assert!(sound.handle_audio_collision(0, true));
    assert!(!sound.handle_audio_collision(10, false));
    assert!(!sound.handle_audio_collision(50000, true));
}
