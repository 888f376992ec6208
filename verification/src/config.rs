//! Structure definitions for the configuration: profiles, mods, and loaders.

use vstd::prelude::*;

verus! {

/// The mod-loading runtime a game instance uses.
#[derive(Clone, Copy, Debug, PartialEq, Eq, Structural)]
pub enum ModLoaders {
    Fabric,
    Forge,
    Quilt,
}

impl ModLoaders {
    /// The loader's canonical name, as platform metadata declares it.
    pub open spec fn spec_name(self) -> Seq<char> {
        match self {
            ModLoaders::Fabric => "Fabric"@,
            ModLoaders::Forge => "Forge"@,
            ModLoaders::Quilt => "Quilt"@,
        }
    }

    /// The loader's canonical name.
    pub fn as_str(&self) -> (s: &str)
        ensures
            s@ == self.spec_name(),
    {
        match self {
            ModLoaders::Fabric => "Fabric",
            ModLoaders::Forge => "Forge",
            ModLoaders::Quilt => "Quilt",
        }
    }
}

/// A GitHub repository's full name: its owner and its repository name.
#[derive(Clone, Debug)]
pub struct RepoFullName {
    pub owner: String,
    pub repo: String,
}

/// A mod, which can be from 3 different sources.
///
/// Each variant carries a human-readable name, a platform-specific project
/// identifier, and two per-mod override flags: `Some(false)` in
/// `check_game_version` (resp. `check_mod_loader`) disables the game-version
/// (resp. mod-loader) compatibility check for this mod only.
#[derive(Clone, Debug)]
pub enum Mod {
    CurseForgeProject {
        name: String,
        project_id: i32,
        check_game_version: Option<bool>,
        check_mod_loader: Option<bool>,
    },
    ModrinthProject {
        name: String,
        project_id: String,
        check_game_version: Option<bool>,
        check_mod_loader: Option<bool>,
    },
    GitHubRepository {
        name: String,
        full_name: RepoFullName,
        check_game_version: Option<bool>,
        check_mod_loader: Option<bool>,
    },
}

impl Mod {
    /// The mod's human-readable name.
    pub open spec fn spec_name(&self) -> Seq<char> {
        match self {
            Mod::CurseForgeProject { name, .. } => name@,
            Mod::ModrinthProject { name, .. } => name@,
            Mod::GitHubRepository { name, .. } => name@,
        }
    }

    /// A well-formed mod has a non-empty name.
    pub open spec fn wf(&self) -> bool {
        self.spec_name().len() > 0
    }

    pub fn name(&self) -> (r: &str)
        ensures
            r@ == self.spec_name(),
    {
        match self {
            Mod::CurseForgeProject { name, .. } => name.as_str(),
            Mod::ModrinthProject { name, .. } => name.as_str(),
            Mod::GitHubRepository { name, .. } => name.as_str(),
        }
    }

    /// The game-version override flag of this mod.
    pub fn check_game_version(&self) -> (r: Option<bool>)
        ensures
            r == self.spec_check_game_version(),
    {
        match self {
            Mod::CurseForgeProject { check_game_version, .. } => *check_game_version,
            Mod::ModrinthProject { check_game_version, .. } => *check_game_version,
            Mod::GitHubRepository { check_game_version, .. } => *check_game_version,
        }
    }

    pub open spec fn spec_check_game_version(&self) -> Option<bool> {
        match self {
            Mod::CurseForgeProject { check_game_version, .. } => *check_game_version,
            Mod::ModrinthProject { check_game_version, .. } => *check_game_version,
            Mod::GitHubRepository { check_game_version, .. } => *check_game_version,
        }
    }

    /// The mod-loader override flag of this mod.
    pub fn check_mod_loader(&self) -> (r: Option<bool>)
        ensures
            r == self.spec_check_mod_loader(),
    {
        match self {
            Mod::CurseForgeProject { check_mod_loader, .. } => *check_mod_loader,
            Mod::ModrinthProject { check_mod_loader, .. } => *check_mod_loader,
            Mod::GitHubRepository { check_mod_loader, .. } => *check_mod_loader,
        }
    }

    pub open spec fn spec_check_mod_loader(&self) -> Option<bool> {
        match self {
            Mod::CurseForgeProject { check_mod_loader, .. } => *check_mod_loader,
            Mod::ModrinthProject { check_mod_loader, .. } => *check_mod_loader,
            Mod::GitHubRepository { check_mod_loader, .. } => *check_mod_loader,
        }
    }
}

/// A named collection of mods sharing one output directory, one target game
/// version, and one target mod loader.
#[derive(Clone, Debug)]
pub struct Profile {
    /// The profile's name
    pub name: String,
    /// The directory to download mod JARs to
    pub output_dir: String,
    /// Check if mod JARs are compatible with this Minecraft version
    pub game_version: String,
    /// Check if mod JARs are compatible with this mod loader
    pub mod_loader: ModLoaders,
    /// A list of all the mods configured
    pub mods: Vec<Mod>,
}

impl Profile {
    /// A well-formed profile holds only well-formed mods.
    pub open spec fn wf(&self) -> bool {
        forall|i: int| 0 <= i < self.mods@.len() ==> (#[trigger] self.mods@[i]).wf()
    }
}

/// The whole configuration: a set of profiles and the active one.
#[derive(Clone, Debug)]
pub struct Config {
    /// The index of the active profile
    pub active_profile: usize,
    /// The profiles
    pub profiles: Vec<Profile>,
}

impl Config {
    /// A well-formed configuration's active index points into its profiles.
    pub open spec fn wf(&self) -> bool {
        &&& self.active_profile < self.profiles@.len()
        &&& forall|i: int| 0 <= i < self.profiles@.len() ==> (#[trigger] self.profiles@[i]).wf()
    }
}

} // verus!
