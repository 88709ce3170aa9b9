//! The level lifecycle: a load request names a level package, the host loads
//! its scene, and once the scene is ready the game leaves the main menu.
//! Leaving the game tears the level down.

use vstd::prelude::*;
use vstd::string::*;
use crate::settings::GameState;

verus! {

/// The level being loaded: its name, the host's handle to its scene, and
/// whether the scene was instantiated.
pub struct LoadingSceneInfo {
    pub name: String,
    pub handle: u64,
    pub is_loaded: bool,
}

/// Why a load request was refused.
#[derive(Clone, Copy, Debug, PartialEq, Eq, Structural)]
pub enum LoadError {
    /// Two levels were requested in one tick.
    TwoRequests,
    /// Levels are loaded from the main menu only.
    NotInMenu,
}

/// The path of a level's scene inside the asset folder.
pub open spec fn level_path(name: Seq<char>) -> Seq<char> {
    "levels/"@ + name + "/main.gltf"@
}

/// Decides level loading and unloading; the host performs them.
pub struct SceneLoaderPlugin {
    pub state: GameState,
    pub loading: Option<LoadingSceneInfo>,
}

impl SceneLoaderPlugin {
    pub fn new() -> (r: SceneLoaderPlugin)
        ensures
            r.state == GameState::MainMenu,
            r.loading is None,
    {
        SceneLoaderPlugin { state: GameState::MainMenu, loading: None }
    }

    /// This tick's load requests: none does nothing, one gives the scene path
    /// to load, two or more are refused.
    pub fn load_gltf_file(&self, requests: &Vec<String>) -> (r: Result<Option<String>, LoadError>)
        ensures
            self.state != GameState::MainMenu ==> r == Err::<Option<String>, LoadError>(LoadError::NotInMenu),
            self.state == GameState::MainMenu ==> {
                &&& requests@.len() == 0 ==> (r matches Ok(None))
                &&& requests@.len() == 1 ==> (r matches Ok(Some(p)) && p@ == level_path(requests@[0]@))
                &&& requests@.len() > 1 ==> r == Err::<Option<String>, LoadError>(LoadError::TwoRequests)
            },
    {
        if self.state != GameState::MainMenu {
            return Err(LoadError::NotInMenu);
        }
        if requests.len() > 1 {
            return Err(LoadError::TwoRequests);
        }
        if requests.len() == 0 {
            return Ok(None);
        }
        let p = String::from_str("levels/");
        let p = p.concat(requests[0].as_str());
        let p = p.concat("/main.gltf");
        Ok(Some(p))
    }

    /// Records that the host started loading level `name` as `handle`.
    pub fn begin_loading(&mut self, name: String, handle: u64)
        ensures
            final(self).state == old(self).state,
            final(self).loading matches Some(l) && l.name@ == name@ && l.handle == handle && !l.is_loaded,
    {
        self.loading = Some(LoadingSceneInfo { name, handle, is_loaded: false });
    }

    /// Once the loading scene is ready, asks for it to be instantiated (the
    /// result) and enters the game; nothing happens twice for one level.
    pub fn spawn_loaded_gltf_scene(&mut self, ready: bool) -> (r: bool)
        ensures
            r == (old(self).state == GameState::MainMenu && ready
                && (old(self).loading matches Some(l) && !l.is_loaded)),
            r ==> final(self).state == GameState::Game,
            r ==> (final(self).loading matches Some(l) && l.is_loaded
                && l.handle == old(self).loading->Some_0.handle && l.name == old(self).loading->Some_0.name),
            !r ==> final(self).state == old(self).state && final(self).loading == old(self).loading,
    {
        if self.state != GameState::MainMenu || !ready {
            return false;
        }
        match &mut self.loading {
            Some(l) => {
                if l.is_loaded {
                    return false;
                }
                l.is_loaded = true;
            },
            None => {
                return false;
            },
        }
        self.state = GameState::Game;
        true
    }

    /// Leaves the game: the host despawns the level and the player.
    pub fn unload(&mut self) -> (r: bool)
        ensures
            r == (old(self).state == GameState::Game),
            final(self).state == GameState::MainMenu,
            final(self).loading is None,
    {
        let was_in_game = self.state == GameState::Game;
        self.state = GameState::MainMenu;
        self.loading = None;
        was_in_game
    }
}

} // verus!
