use ferium::modpack::check_component;
use ferium::modpack::modrinth::{create, read_metadata_file, ModFile, OverrideFile};
use ferium::upgrade::{plan_fetch, Downloadable, DownloadSession, FetchPlan};

fn override_file(parts: &[&str], data: &[u8]) -> OverrideFile {
    OverrideFile {
        path: parts.iter().map(|s| (*s).to_owned()).collect(),
        data: data.to_vec(),
    }
}

fn mod_file(name: &str, data: &[u8]) -> ModFile {
    ModFile { filename: name.to_owned(), data: data.to_vec() }
}

fn downloadable(output: &str, length: u64) -> Downloadable {
    Downloadable {
        download_url: format!("https://example.com/{}", output),
        output: output.to_owned(),
        length,
    }
}

#[test]
fn metadata_entry_comes_first_and_reads_back() {
    let metadata = "{\"formatVersion\":1,\"name\":\"Pack\"}".to_owned();
    let overrides = vec![override_file(&["config", "x.toml"], b"key = 1")];
    let mods = vec![mod_file("extra.jar", b"jarbytes")];
    let entries = create(&metadata, &overrides, &mods);
    assert_eq!(entries[0].name, "modrinth.index.json");
    let read = read_metadata_file(&entries).expect("the metadata entry exists");
    assert_eq!(read, metadata.as_bytes());
}

#[test]
fn missing_metadata_reads_back_none() {
    let entries = vec![];
    assert!(read_metadata_file(&entries).is_none());
}

#[test]
fn override_entries_preserve_relative_paths() {
    let metadata = "{}".to_owned();
    let overrides = vec![
        override_file(&["config", "x.toml"], b"a"),
        override_file(&["resourcepacks", "pack", "p.png"], b"b"),
    ];
    let entries = create(&metadata, &overrides, &vec![]);
    assert_eq!(entries.len(), 3);
    assert_eq!(entries[1].name, "overrides/config/x.toml");
    assert_eq!(entries[1].data, b"a");
    assert_eq!(entries[2].name, "overrides/resourcepacks/pack/p.png");
    assert_eq!(entries[2].data, b"b");
}

#[test]
fn additional_mods_land_under_overrides_mods() {
    let metadata = "{}".to_owned();
    let mods = vec![mod_file("extra.jar", b"jarbytes")];
    let entries = create(&metadata, &vec![], &mods);
    assert_eq!(entries.len(), 2);
    assert_eq!(entries[1].name, "overrides/mods/extra.jar");
    assert_eq!(entries[1].data, b"jarbytes");
}

#[test]
fn duplicate_entry_names_are_skipped_first_wins() {
    let metadata = "{}".to_owned();
    let mods = vec![mod_file("same.jar", b"first"), mod_file("same.jar", b"second")];
    let entries = create(&metadata, &vec![], &mods);
    assert_eq!(entries.len(), 2);
    assert_eq!(entries[1].name, "overrides/mods/same.jar");
    assert_eq!(entries[1].data, b"first");
}

#[test]
fn entry_names_are_pairwise_distinct() {
    let metadata = "{}".to_owned();
    let overrides = vec![
        override_file(&["mods", "a.jar"], b"from overrides"),
        override_file(&["config", "c.toml"], b"c"),
    ];
    let mods = vec![mod_file("a.jar", b"from mods dir"), mod_file("b.jar", b"b")];
    let entries = create(&metadata, &overrides, &mods);
    for i in 0..entries.len() {
        for j in (i + 1)..entries.len() {
            assert_ne!(entries[i].name, entries[j].name);
        }
    }
    assert_eq!(entries[1].data, b"from overrides");
}

#[test]
fn component_validation_rejects_traversal() {
    assert!(check_component(&"a.jar".to_owned()));
    assert!(check_component(&"...".to_owned()));
    assert!(!check_component(&"".to_owned()));
    assert!(!check_component(&".".to_owned()));
    assert!(!check_component(&"..".to_owned()));
    assert!(!check_component(&"a/b".to_owned()));
}

#[test]
fn cached_fetch_downloads_nothing() {
    let d = downloadable("pack.zip", 4096);
    assert_eq!(plan_fetch(&d, true), FetchPlan::UseCache);
}

#[test]
fn uncached_fetch_reports_full_length() {
    let d = downloadable("pack.zip", 4096);
    assert_eq!(plan_fetch(&d, false), FetchPlan::Download { total: 4096 });
}

#[test]
fn cache_and_temp_paths_are_deterministic_and_distinct() {
    let d = downloadable("mod.jar", 10);
    let cache = d.cache_path("/tmp/cache");
    let temp = d.temp_path("/tmp/cache");
    assert_eq!(cache, "/tmp/cache/mod.jar");
    assert_eq!(temp, "/tmp/cache/mod.jar.part");
    assert_ne!(cache, temp);
}

#[test]
fn chunk_sizes_sum_to_the_reported_total() {
    let mut session = DownloadSession::new(100);
    assert!(session.record_chunk(60));
    assert!(!session.is_complete());
    assert!(session.record_chunk(40));
    assert!(session.is_complete());
}

#[test]
fn overrunning_chunks_are_rejected() {
    let mut session = DownloadSession::new(10);
    assert!(session.record_chunk(6));
    assert!(!session.record_chunk(6));
    assert!(!session.is_complete());
    assert!(session.record_chunk(4));
    assert!(session.is_complete());
}

#[test]
fn empty_download_is_complete_at_once() {
    let session = DownloadSession::new(0);
    assert!(session.is_complete());
}
