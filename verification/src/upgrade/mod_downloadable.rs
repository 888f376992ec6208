//! Resolution of a mod into its latest compatible downloadable artifact,
//! under the per-mod override flags and the Quilt-to-Fabric fallback policy.

use vstd::prelude::*;

use crate::check::{
    candidates_view, gv_view, loader_view, spec_first_match, CandidateFile, CandidateFileView,
    first_compatible,
};
use crate::config::{Mod, ModLoaders};
use crate::upgrade::{is_normalized, Downloadable};

verus! {

/// Why resolution failed.
#[derive(Clone, Copy, Debug, PartialEq, Eq, Structural)]
pub enum Error {
    /// The upstream record forbids third-party applications from downloading
    /// the file; the user can place it in the cache directory by hand.
    DistributionDenied,
    /// No candidate satisfied the filters, even after the loader fallback.
    NoCompatibleFile,
}

/// The outcome of resolution with the loader-fallback policy: the index of
/// the chosen candidate and whether the Quilt-to-Fabric fallback chose it.
///
/// The first match under the supplied filters wins with no fallback; when
/// there is none and the loader filter is exactly Quilt, the first match
/// under a Fabric loader filter wins with the fallback flag set (Quilt loads
/// unmodified Fabric mods); otherwise resolution fails.
pub open spec fn spec_resolve(
    s: Seq<CandidateFileView>,
    gv: Option<Seq<char>>,
    loader: Option<ModLoaders>,
) -> Option<(int, bool)> {
    match spec_first_match(s, gv, loader) {
        Some(i) => Some((i, false)),
        None => {
            if loader == Some(ModLoaders::Quilt) {
                match spec_first_match(s, gv, Some(ModLoaders::Fabric)) {
                    Some(i) => Some((i, true)),
                    None => None,
                }
            } else {
                None
            }
        },
    }
}

/// Loader fallback: when the Quilt filter yields a first match, resolution
/// returns it with no fallback; when it yields none and the Fabric filter
/// yields one, resolution returns that with the fallback flag set; a loader
/// filter other than Quilt never falls back.
pub proof fn lemma_quilt_fallback(s: Seq<CandidateFileView>, gv: Option<Seq<char>>)
    ensures
        forall|i: int|
            spec_first_match(s, gv, Some(ModLoaders::Quilt)) == Some(i) ==> spec_resolve(
                s,
                gv,
                Some(ModLoaders::Quilt),
            ) == Some((i, false)),
        forall|i: int|
            spec_first_match(s, gv, Some(ModLoaders::Quilt)) is None && spec_first_match(
                s,
                gv,
                Some(ModLoaders::Fabric),
            ) == Some(i) ==> spec_resolve(s, gv, Some(ModLoaders::Quilt)) == Some((i, true)),
        forall|l: Option<ModLoaders>|
            l != Some(ModLoaders::Quilt) && spec_first_match(s, gv, l) is None ==> spec_resolve(
                s,
                gv,
                l,
            ) is None,
{
}

/// Resolve with the fallback policy, returning the chosen index and the
/// fallback flag.
fn latest_compatible(
    candidates: &Vec<CandidateFile>,
    game_version: Option<&String>,
    loader: Option<&ModLoaders>,
) -> (r: Option<(usize, bool)>)
    ensures
        match r {
            Some((i, fb)) => i < candidates@.len() && spec_resolve(
                candidates_view(candidates@),
                gv_view(game_version),
                loader_view(loader),
            ) == Some((i as int, fb)),
            None => spec_resolve(
                candidates_view(candidates@),
                gv_view(game_version),
                loader_view(loader),
            ) is None,
        },
{
    match first_compatible(candidates, game_version, loader) {
        Some(i) => Some((i, false)),
        None => {
            let is_quilt = match loader {
                Some(l) => *l == ModLoaders::Quilt,
                None => false,
            };
            if is_quilt {
                let fabric = ModLoaders::Fabric;
                match first_compatible(candidates, game_version, Some(&fabric)) {
                    Some(i) => Some((i, true)),
                    None => None,
                }
            } else {
                None
            }
        },
    }
}

/// Whether `r` is the correct resolution of `candidates` under the filters:
/// the resolved candidate paired with the fallback flag, or nothing when
/// resolution fails.
pub open spec fn resolve_post(
    s: Seq<CandidateFile>,
    gv: Option<Seq<char>>,
    loader: Option<ModLoaders>,
    r: Option<(CandidateFile, bool)>,
) -> bool {
    match (r, spec_resolve(candidates_view(s), gv, loader)) {
        (Some((c, fb)), Some((i, want_fb))) => fb == want_fb && 0 <= i < s.len() && c@ == s[i]@,
        (None, None) => true,
        _ => false,
    }
}

/// Get the latest version of a Modrinth project compatible with the supplied
/// filters. Also returns whether Fabric backwards compatibility was used.
pub fn get_latest_compatible_version(
    versions: &Vec<CandidateFile>,
    game_version_to_check: Option<&String>,
    mod_loader_to_check: Option<&ModLoaders>,
) -> (r: Option<(CandidateFile, bool)>)
    ensures
        resolve_post(versions@, gv_view(game_version_to_check), loader_view(mod_loader_to_check), r),
{
    match latest_compatible(versions, game_version_to_check, mod_loader_to_check) {
        Some((i, fb)) => Some((versions[i].clone(), fb)),
        None => None,
    }
}

/// Get the latest file of a CurseForge mod compatible with the supplied
/// filters. Also returns whether Fabric backwards compatibility was used.
pub fn get_latest_compatible_file(
    files: &Vec<CandidateFile>,
    game_version_to_check: Option<&String>,
    mod_loader_to_check: Option<&ModLoaders>,
) -> (r: Option<(CandidateFile, bool)>)
    ensures
        resolve_post(files@, gv_view(game_version_to_check), loader_view(mod_loader_to_check), r),
{
    match latest_compatible(files, game_version_to_check, mod_loader_to_check) {
        Some((i, fb)) => Some((files[i].clone(), fb)),
        None => None,
    }
}

/// Get the latest release asset of a GitHub repository compatible with the
/// supplied filters. Also returns whether Fabric backwards compatibility was
/// used.
pub fn get_latest_compatible_asset(
    releases: &Vec<CandidateFile>,
    game_version_to_check: Option<&String>,
    mod_loader_to_check: Option<&ModLoaders>,
) -> (r: Option<(CandidateFile, bool)>)
    ensures
        resolve_post(releases@, gv_view(game_version_to_check), loader_view(mod_loader_to_check), r),
{
    match latest_compatible(releases, game_version_to_check, mod_loader_to_check) {
        Some((i, fb)) => Some((releases[i].clone(), fb)),
        None => None,
    }
}

/// The game-version filter a mod is actually checked against: none when the
/// mod's override flag disables the check.
pub open spec fn effective_game_version(m: Mod, gv: Seq<char>) -> Option<Seq<char>> {
    if m.spec_check_game_version() == Some(false) {
        None
    } else {
        Some(gv)
    }
}

/// The loader filter a mod is actually checked against: none when the mod's
/// override flag disables the check.
pub open spec fn effective_mod_loader(m: Mod, loader: ModLoaders) -> Option<ModLoaders> {
    if m.spec_check_mod_loader() == Some(false) {
        None
    } else {
        Some(loader)
    }
}

/// Get the latest downloadable artifact of `mod_` compatible with the
/// profile's game version and loader, from the mod's already-fetched
/// newest-first candidate list. Also returns whether Fabric backwards
/// compatibility was used.
///
/// The mod's override flags collapse the corresponding filter. The chosen
/// candidate is normalized into a `Downloadable`; a chosen candidate whose
/// redistribution is denied fails with `DistributionDenied`, and a list with
/// no compatible candidate, even after the loader fallback, fails with
/// `NoCompatibleFile`.
pub fn get_latest_compatible_downloadable(
    mod_: &Mod,
    candidates: &Vec<CandidateFile>,
    game_version_to_check: &String,
    mod_loader_to_check: &ModLoaders,
) -> (r: Result<(Downloadable, bool), Error>)
    ensures
        ({
            let s = candidates_view(candidates@);
            let gv = effective_game_version(*mod_, game_version_to_check@);
            let l = effective_mod_loader(*mod_, *mod_loader_to_check);
            match (r, spec_resolve(s, gv, l)) {
                (Ok((d, fb)), Some((i, want_fb))) => fb == want_fb && is_normalized(s[i], d),
                (Err(Error::DistributionDenied), Some((i, _))) => s[i].download_url is None,
                (Err(Error::NoCompatibleFile), None) => true,
                _ => false,
            }
        }),
{
    let game_version = match mod_.check_game_version() {
        Some(false) => None,
        _ => Some(game_version_to_check),
    };
    let mod_loader = match mod_.check_mod_loader() {
        Some(false) => None,
        _ => Some(mod_loader_to_check),
    };
    match latest_compatible(candidates, game_version, mod_loader) {
        None => Err(Error::NoCompatibleFile),
        Some((i, fb)) => {
            proof {
                assert(candidates_view(candidates@)[i as int] == candidates@[i as int]@);
            }
            match Downloadable::from_candidate(&candidates[i]) {
                Some(d) => Ok((d, fb)),
                None => Err(Error::DistributionDenied),
            }
        },
    }
}

} // verus!
