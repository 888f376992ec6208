use ferium::check::{check_candidate, first_compatible, CandidateFile};
use ferium::config::{Config, Mod, ModLoaders, Profile, RepoFullName};
use ferium::upgrade::mod_downloadable::{
    get_latest_compatible_asset, get_latest_compatible_downloadable, get_latest_compatible_file,
    get_latest_compatible_version, Error,
};
use ferium::upgrade::modpack_downloadable;

fn candidate(name: &str, gvs: &[&str], loaders: &[&str]) -> CandidateFile {
    CandidateFile {
        filename: name.to_owned(),
        length: 1024,
        download_url: Some(format!("https://example.com/{}", name)),
        game_versions: gvs.iter().map(|s| (*s).to_owned()).collect(),
        loaders: loaders.iter().map(|s| (*s).to_owned()).collect(),
    }
}

#[test]
fn scenario_picks_matching_element() {
    let list = vec![
        candidate("a.jar", &["1.19"], &["Fabric"]),
        candidate("b.jar", &["1.20"], &["Fabric"]),
    ];
    let gv = "1.20".to_owned();
    let r = first_compatible(&list, Some(&gv), Some(&ModLoaders::Fabric));
    assert_eq!(r, Some(1));
    let picked = get_latest_compatible_version(&list, Some(&gv), Some(&ModLoaders::Fabric));
    let (c, fallback) = picked.expect("a compatible version exists");
    assert_eq!(c.filename, "b.jar");
    assert!(!fallback);
}

#[test]
fn scenario_no_match_yields_none() {
    let list = vec![
        candidate("a.jar", &["1.19"], &["Fabric"]),
        candidate("b.jar", &["1.20"], &["Fabric"]),
    ];
    let gv = "1.21".to_owned();
    assert_eq!(first_compatible(&list, Some(&gv), Some(&ModLoaders::Fabric)), None);
    assert!(get_latest_compatible_version(&list, Some(&gv), Some(&ModLoaders::Fabric)).is_none());
}

#[test]
fn scenario_quilt_falls_back_to_fabric() {
    let list = vec![
        candidate("old.jar", &["1.19"], &["Fabric"]),
        candidate("new.jar", &["1.20"], &["Fabric"]),
    ];
    let gv = "1.20".to_owned();
    let picked = get_latest_compatible_version(&list, Some(&gv), Some(&ModLoaders::Quilt));
    let (c, fallback) = picked.expect("the Fabric fallback applies");
    assert_eq!(c.filename, "new.jar");
    assert!(fallback);
}

#[test]
fn quilt_match_wins_without_fallback() {
    let list = vec![
        candidate("fabric.jar", &["1.20"], &["Fabric"]),
        candidate("quilt.jar", &["1.20"], &["Quilt"]),
    ];
    let gv = "1.20".to_owned();
    let picked = get_latest_compatible_file(&list, Some(&gv), Some(&ModLoaders::Quilt));
    let (c, fallback) = picked.expect("a Quilt file exists");
    assert_eq!(c.filename, "quilt.jar");
    assert!(!fallback);
}

#[test]
fn first_match_is_most_recent() {
    let list = vec![
        candidate("newest.jar", &["1.20"], &["Forge"]),
        candidate("older.jar", &["1.20"], &["Forge"]),
    ];
    let gv = "1.20".to_owned();
    let (c, fallback) =
        get_latest_compatible_asset(&list, Some(&gv), Some(&ModLoaders::Forge)).unwrap();
    assert_eq!(c.filename, "newest.jar");
    assert!(!fallback);
}

#[test]
fn empty_loader_list_is_universal() {
    let c = candidate("any.jar", &["1.20"], &[]);
    let gv = "1.20".to_owned();
    assert!(check_candidate(&c, Some(&gv), Some(&ModLoaders::Quilt)));
    assert!(check_candidate(&c, Some(&gv), Some(&ModLoaders::Forge)));
}

#[test]
fn absent_filters_check_nothing() {
    let c = candidate("any.jar", &["1.12"], &["Forge"]);
    assert!(check_candidate(&c, None, None));
    let list = vec![c];
    assert_eq!(first_compatible(&list, None, None), Some(0));
}

#[test]
fn game_version_must_match_exactly() {
    let c = candidate("a.jar", &["1.20.1"], &["Fabric"]);
    let gv = "1.20".to_owned();
    assert!(!check_candidate(&c, Some(&gv), Some(&ModLoaders::Fabric)));
}

#[test]
fn override_flags_disable_checks() {
    let list = vec![candidate("a.jar", &["1.12"], &["Forge"])];
    let m = Mod::ModrinthProject {
        name: "Some Mod".to_owned(),
        project_id: "abcdefgh".to_owned(),
        check_game_version: Some(false),
        check_mod_loader: Some(false),
    };
    let gv = "1.20".to_owned();
    let r = get_latest_compatible_downloadable(&m, &list, &gv, &ModLoaders::Fabric);
    let (d, fallback) = r.expect("both checks are disabled");
    assert_eq!(d.output, "a.jar");
    assert!(!fallback);
}

#[test]
fn resolution_failure_is_no_compatible_file() {
    let list = vec![candidate("a.jar", &["1.12"], &["Forge"])];
    let m = Mod::CurseForgeProject {
        name: "Some Mod".to_owned(),
        project_id: 7,
        check_game_version: None,
        check_mod_loader: None,
    };
    let gv = "1.20".to_owned();
    let r = get_latest_compatible_downloadable(&m, &list, &gv, &ModLoaders::Fabric);
    assert_eq!(r.unwrap_err(), Error::NoCompatibleFile);
}

#[test]
fn denied_distribution_is_reported() {
    let mut c = candidate("a.jar", &["1.20"], &["Fabric"]);
    c.download_url = None;
    let m = Mod::CurseForgeProject {
        name: "Some Mod".to_owned(),
        project_id: 7,
        check_game_version: None,
        check_mod_loader: None,
    };
    let gv = "1.20".to_owned();
    let r = get_latest_compatible_downloadable(&m, &vec![c], &gv, &ModLoaders::Fabric);
    assert_eq!(r.unwrap_err(), Error::DistributionDenied);
}

#[test]
fn downloadable_normalizes_the_winner() {
    let list = vec![
        candidate("skip.jar", &["1.19"], &["Fabric"]),
        candidate("win.jar", &["1.20"], &["Fabric"]),
    ];
    let m = Mod::GitHubRepository {
        name: "Some Mod".to_owned(),
        full_name: RepoFullName { owner: "owner".to_owned(), repo: "repo".to_owned() },
        check_game_version: None,
        check_mod_loader: None,
    };
    let gv = "1.20".to_owned();
    let (d, fallback) =
        get_latest_compatible_downloadable(&m, &list, &gv, &ModLoaders::Fabric).unwrap();
    assert_eq!(d.output, "win.jar");
    assert_eq!(d.length, 1024);
    assert_eq!(d.download_url, "https://example.com/win.jar");
    assert!(!fallback);
}

#[test]
fn mod_name_is_returned_for_each_source() {
    let cf = Mod::CurseForgeProject {
        name: "From CurseForge".to_owned(),
        project_id: 1,
        check_game_version: None,
        check_mod_loader: None,
    };
    let mr = Mod::ModrinthProject {
        name: "From Modrinth".to_owned(),
        project_id: "id".to_owned(),
        check_game_version: None,
        check_mod_loader: None,
    };
    let gh = Mod::GitHubRepository {
        name: "From GitHub".to_owned(),
        full_name: RepoFullName { owner: "o".to_owned(), repo: "r".to_owned() },
        check_game_version: None,
        check_mod_loader: None,
    };
    assert_eq!(cf.name(), "From CurseForge");
    assert_eq!(mr.name(), "From Modrinth");
    assert_eq!(gh.name(), "From GitHub");
}

#[test]
fn loader_names_are_canonical() {
    assert_eq!(ModLoaders::Fabric.as_str(), "Fabric");
    assert_eq!(ModLoaders::Forge.as_str(), "Forge");
    assert_eq!(ModLoaders::Quilt.as_str(), "Quilt");
}

#[test]
fn profiles_hold_their_mods() {
    let profile = Profile {
        name: "Main".to_owned(),
        output_dir: "mods".to_owned(),
        game_version: "1.20".to_owned(),
        mod_loader: ModLoaders::Fabric,
        mods: vec![],
    };
    let config = Config { active_profile: 0, profiles: vec![profile] };
    assert_eq!(config.profiles[0].name, "Main");
    assert_eq!(config.profiles[0].mod_loader, ModLoaders::Fabric);
}

#[test]
fn modpack_takes_latest_file_unfiltered() {
    let list = vec![
        candidate("pack-v2.zip", &["1.12"], &["Forge"]),
        candidate("pack-v1.zip", &["1.20"], &["Fabric"]),
    ];
    let d = modpack_downloadable::latest_modpack_downloadable(&list).unwrap();
    assert_eq!(d.output, "pack-v2.zip");
}

#[test]
fn modpack_denied_distribution_is_reported() {
    let mut c = candidate("pack.zip", &["1.20"], &[]);
    c.download_url = None;
    let r = modpack_downloadable::latest_modpack_downloadable(&vec![c]);
    assert_eq!(r.unwrap_err(), modpack_downloadable::Error::DistributionDenied);
}
