//! The configuration file's contents: asset paths and settings.

use vstd::prelude::*;

verus! {

/// Paths of the game's textures and sounds.
#[derive(Clone, Debug, PartialEq, Eq)]
pub struct Assets {
    pub background: String,
    pub turret: String,
    pub turret_base: String,
    pub crosshair: String,
    pub bgmusic: String,
    pub bullet: String,
    pub fire_sound_fx: String,
    pub meteor: String,
    pub collision_smoke: String,
    pub collision_sound: String,
}

/// Game settings; none are defined yet.
#[derive(Clone, Copy, Debug, PartialEq, Eq)]
pub struct Settings {}

/// The contents of the configuration file: asset paths and settings.
#[derive(Clone, Debug, PartialEq, Eq)]
pub struct Config {
    pub assets: Assets,
    pub settings: Settings,
}

/// Reads configuration files; it claims files by their extension.
#[derive(Clone, Copy, Debug, Default, PartialEq, Eq)]
pub struct ConfigLoader;

impl ConfigLoader {
    /// The file extensions this loader reads: `toml` alone.
    pub fn extensions(&self) -> (r: Vec<&'static str>)
        ensures
            r@.len() == 1,
            r@[0]@ == seq!['t', 'o', 'm', 'l'],
    {
        let ext: &'static str = "toml";
        proof {
            reveal_strlit("toml");
            assert(ext@ =~= seq!['t', 'o', 'm', 'l']);
        }
        let mut r: Vec<&'static str> = Vec::new();
        r.push(ext);
        r
    }
}

} // verus!
