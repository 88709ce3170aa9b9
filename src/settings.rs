//! Plain settings and modes around the core: the level description, the player's
//! modes, menu pages, and object placement stages.

use vstd::prelude::*;

verus! {

/// A level's `config.json`.
pub struct LevelSchema {
    pub name: String,
    pub version: u32,
}

/// Whether the player controller may move; typing into an input field restricts it.
#[derive(Clone, Copy, Debug, PartialEq, Eq, Structural)]
pub enum PlayerState {
    /// No player in the world.
    Absent,
    Interactive,
    Restricted,
}

/// Whether the game shows the main menu or runs a level.
#[derive(Clone, Copy, Debug, PartialEq, Eq, Structural)]
pub enum GameState {
    MainMenu,
    Game,
}

#[derive(Clone, Copy, Debug, PartialEq, Eq, Structural)]
pub enum UiState {
    NotSettings,
    PauseSettings,
}

#[derive(Clone, Copy, Debug, PartialEq, Eq, Structural)]
pub enum CameraPlayerMode {
    Body,
    Freecam,
    Controlled,
}

#[derive(Clone, Copy, Debug, PartialEq, Eq, Structural)]
pub enum CreationMode {
    Adventure,
    Creative,
}

#[derive(Clone, Copy, Debug, PartialEq, Eq, Structural)]
pub struct PlayerSettings {
    pub camera_mode: CameraPlayerMode,
    pub creation_mode: CreationMode,
}

/// A page of the main menu.
#[derive(Clone, Copy, Debug, PartialEq, Eq, Structural)]
pub enum MainMenuVariants {
    Main,
    Settings,
    About,
    Levels,
}

#[derive(Clone, Copy, Debug, PartialEq, Eq, Structural)]
pub enum SettingsButtonEnum {
    VolumeUp(u64),
    VolumeDown(u64),
    FovChange(i32),
}

#[derive(Clone, Copy, Debug, PartialEq, Eq, Structural)]
pub struct SettingsButtonMarker(pub SettingsButtonEnum);

#[derive(Clone, Copy, Debug, PartialEq, Eq, Structural)]
pub enum SettingsLabelEnum {
    Volume,
    Fov,
}

#[derive(Clone, Copy, Debug, PartialEq, Eq, Structural)]
pub struct SettingsLabel(pub SettingsLabelEnum);

#[derive(Clone, Copy, Debug, PartialEq, Eq, Structural)]
pub enum PlacingObjectChoosingStage {
    NotChoosing,
    ChooseCarousel,
    ChoseAndPlacing,
}

#[derive(Clone, Copy, Debug, PartialEq, Eq, Structural)]
pub enum PlacingObject {
    LaserPointer,
    LaserMirror,
}

#[derive(Clone, Copy, Debug, PartialEq, Eq, Structural)]
pub enum PlacingForm {
    Grid,
    Snap,
    Free,
}

} // verus!
