//! The game's own configuration, read from its asset files.
use vstd::prelude::*;

verus! {

/// Where the game finds the assets it loads at start.
#[derive(Clone, Debug, Default, PartialEq, Eq)]
pub struct GameConfig {
    /// Paths of the prefabs to load.
    pub prefabs: Vec<String>,
    /// Root folder of the models.
    pub models_path: String,
}

} // verus!
