//! Planning a Modrinth modpack archive: one metadata entry named
//! `modrinth.index.json`, the overrides tree, and bundled mod files under
//! `overrides/mods/`, with duplicate-free entry names.

use vstd::prelude::*;
use vstd::string::StrSliceExecFns;
use vstd::utf8::encode_utf8;

use crate::modpack::{
    distinct_names, entries_view, entry_name, lemma_add_entries_distinct,
    lemma_add_entries_members, lemma_add_entries_prefix, lemma_entry_name_in_tree, mods_entry_name,
    parts_view, push_unique, spec_add_entries, spec_entry_name, valid_component, valid_path,
    ArchiveEntry, ArchiveEntryView,
};

verus! {

/// A regular file found by recursively walking the overrides directory:
/// its path relative to that directory, split into components, and its
/// contents.
#[derive(Debug)]
pub struct OverrideFile {
    /// The file's relative path components, in order.
    pub path: Vec<String>,
    /// The file's contents.
    pub data: Vec<u8>,
}

/// A regular file directly inside the additional-mods directory: its
/// canonicalized filename (symlinks resolved) and its contents.
#[derive(Debug)]
pub struct ModFile {
    /// The file's name after canonicalizing its source path.
    pub filename: String,
    /// The file's contents.
    pub data: Vec<u8>,
}

/// The fixed name of the metadata entry.
pub open spec fn spec_metadata_name() -> Seq<char> {
    "modrinth.index.json"@
}

/// The metadata entry: the metadata string, UTF-8 encoded, under the fixed
/// entry name.
pub open spec fn metadata_entry_view(metadata: Seq<char>) -> ArchiveEntryView {
    ArchiveEntryView { name: spec_metadata_name(), data: encode_utf8(metadata) }
}

/// The entry planned for one override file.
pub open spec fn override_entry_view(f: OverrideFile) -> ArchiveEntryView {
    ArchiveEntryView { name: spec_entry_name(parts_view(f.path)), data: f.data@ }
}

/// The entry planned for one bundled mod file.
pub open spec fn mod_entry_view(f: ModFile) -> ArchiveEntryView {
    ArchiveEntryView { name: spec_entry_name(seq!["mods"@, f.filename@]), data: f.data@ }
}

/// The full entry plan of a Modrinth modpack archive: the metadata entry
/// first, then every override file under `overrides/`, then every bundled
/// mod under `overrides/mods/`, each added only when no entry of that name
/// is present yet.
pub open spec fn spec_create(
    metadata: Seq<char>,
    overrides: Seq<OverrideFile>,
    additional_mods: Seq<ModFile>,
) -> Seq<ArchiveEntryView> {
    spec_add_entries(
        spec_add_entries(
            seq![metadata_entry_view(metadata)],
            overrides.map_values(|f: OverrideFile| override_entry_view(f)),
        ),
        additional_mods.map_values(|f: ModFile| mod_entry_view(f)),
    )
}

/// Copy a byte vector.
fn clone_bytes(v: &Vec<u8>) -> (r: Vec<u8>)
    ensures
        r@ == v@,
{
    let mut r: Vec<u8> = Vec::new();
    let mut k: usize = 0;
    while k < v.len()
        invariant
            k <= v@.len(),
            r@ == v@.take(k as int),
        decreases v@.len() - k,
    {
        r.push(v[k]);
        proof {
            assert(v@.take(k + 1) =~= v@.take(k as int).push(v@[k as int]));
        }
        k += 1;
    }
    proof {
        assert(v@.take(v@.len() as int) =~= v@);
    }
    r
}

/// Plan a Modrinth modpack archive from the metadata string, the walked
/// overrides tree, and the canonicalized additional mod files.
///
/// The plan holds the metadata entry first; every override file under an
/// `overrides/` prefix, preserving its relative path; and every additional
/// mod under `overrides/mods/<filename>`. An entry whose name is already
/// taken is skipped, so entry names are pairwise distinct. The caller writes
/// the plan to a zip container, compressing every entry, and finalizes the
/// archive before treating it as valid.
pub fn create(
    metadata: &String,
    overrides: &Vec<OverrideFile>,
    additional_mods: &Vec<ModFile>,
) -> (r: Vec<ArchiveEntry>)
    requires
        forall|i: int| 0 <= i < overrides@.len() ==> valid_path(
            parts_view((#[trigger] overrides@[i]).path),
        ),
        forall|i: int| 0 <= i < additional_mods@.len() ==> valid_component(
            (#[trigger] additional_mods@[i]).filename@,
        ),
    ensures
        entries_view(r@) == spec_create(metadata@, overrides@, additional_mods@),
{
    let ghost ov_entries = overrides@.map_values(|f: OverrideFile| override_entry_view(f));
    let ghost mod_entries = additional_mods@.map_values(|f: ModFile| mod_entry_view(f));
    let mut entries: Vec<ArchiveEntry> = Vec::new();
    entries.push(
        ArchiveEntry {
            name: "modrinth.index.json".to_owned(),
            data: metadata.as_str().as_bytes_vec(),
        },
    );
    proof {
        assert(entries_view(entries@) =~= seq![metadata_entry_view(metadata@)]);
    }
    let ghost acc0 = seq![metadata_entry_view(metadata@)];
    let mut k: usize = 0;
    while k < overrides.len()
        invariant
            k <= overrides@.len(),
            ov_entries == overrides@.map_values(|f: OverrideFile| override_entry_view(f)),
            ov_entries.len() == overrides@.len(),
            acc0 == seq![metadata_entry_view(metadata@)],
            entries_view(entries@) == spec_add_entries(acc0, ov_entries.take(k as int)),
            forall|i: int| 0 <= i < overrides@.len() ==> valid_path(
                parts_view((#[trigger] overrides@[i]).path),
            ),
        decreases overrides@.len() - k,
    {
        let e = ArchiveEntry {
            name: entry_name(&overrides[k].path),
            data: clone_bytes(&overrides[k].data),
        };
        proof {
            assert(ov_entries[k as int] == override_entry_view(overrides@[k as int]));
            assert(e@ == ov_entries[k as int]);
            assert(ov_entries.take(k + 1).drop_last() =~= ov_entries.take(k as int));
            assert(ov_entries.take(k + 1).last() == ov_entries[k as int]);
        }
        push_unique(&mut entries, e);
        k += 1;
    }
    proof {
        assert(ov_entries.take(ov_entries.len() as int) =~= ov_entries);
    }
    let ghost acc1 = spec_add_entries(acc0, ov_entries);
    let mut k: usize = 0;
    while k < additional_mods.len()
        invariant
            k <= additional_mods@.len(),
            mod_entries == additional_mods@.map_values(|f: ModFile| mod_entry_view(f)),
            mod_entries.len() == additional_mods@.len(),
            acc1 == spec_add_entries(acc0, ov_entries),
            entries_view(entries@) == spec_add_entries(acc1, mod_entries.take(k as int)),
        decreases additional_mods@.len() - k,
    {
        let e = ArchiveEntry {
            name: mods_entry_name(&additional_mods[k].filename),
            data: clone_bytes(&additional_mods[k].data),
        };
        proof {
            assert(mod_entries[k as int] == mod_entry_view(additional_mods@[k as int]));
            assert(e@ == mod_entries[k as int]);
            assert(mod_entries.take(k + 1).drop_last() =~= mod_entries.take(k as int));
            assert(mod_entries.take(k + 1).last() == mod_entries[k as int]);
        }
        push_unique(&mut entries, e);
        k += 1;
    }
    proof {
        assert(mod_entries.take(mod_entries.len() as int) =~= mod_entries);
    }
    entries
}

/// The data of the first entry named `name`, or nothing.
pub open spec fn spec_find(s: Seq<ArchiveEntryView>, name: Seq<char>) -> Option<Seq<u8>>
    decreases s.len(),
{
    if s.len() == 0 {
        None
    } else if s[0].name == name {
        Some(s[0].data)
    } else {
        spec_find(s.drop_first(), name)
    }
}

/// Read the metadata entry back out of an archive's entries: the data of the
/// first entry named `modrinth.index.json`, or nothing when the archive
/// holds no such entry.
pub fn read_metadata_file(entries: &Vec<ArchiveEntry>) -> (r: Option<Vec<u8>>)
    ensures
        match r {
            Some(v) => spec_find(entries_view(entries@), spec_metadata_name()) == Some(v@),
            None => spec_find(entries_view(entries@), spec_metadata_name()) is None,
        },
{
    let ghost s = entries_view(entries@);
    let want = "modrinth.index.json".to_owned();
    proof {
        assert(s.skip(0) =~= s);
    }
    let mut k: usize = 0;
    while k < entries.len()
        invariant
            k <= entries@.len(),
            s == entries_view(entries@),
            s.len() == entries@.len(),
            want@ == spec_metadata_name(),
            spec_find(s, spec_metadata_name()) == spec_find(
                s.skip(k as int),
                spec_metadata_name(),
            ),
            forall|i: int| 0 <= i < k ==> (#[trigger] s[i]).name != spec_metadata_name(),
        decreases entries@.len() - k,
    {
        proof {
            assert(s[k as int] == entries@[k as int]@);
            assert(s.skip(k as int)[0] == s[k as int]);
        }
        if entries[k].name == want {
            return Some(clone_bytes(&entries[k].data));
        }
        proof {
            assert(s.skip(k as int).drop_first() =~= s.skip(k + 1));
        }
        k += 1;
    }
    proof {
        assert(s.skip(s.len() as int) =~= Seq::<ArchiveEntryView>::empty());
    }
    None
}

/// Archive round trip: reading the metadata entry back out of a freshly
/// planned archive yields the UTF-8 encoding of exactly the metadata string
/// the plan was created with.
pub proof fn lemma_metadata_round_trip(
    metadata: Seq<char>,
    overrides: Seq<OverrideFile>,
    additional_mods: Seq<ModFile>,
)
    ensures
        spec_find(spec_create(metadata, overrides, additional_mods), spec_metadata_name())
            == Some(encode_utf8(metadata)),
{
    let acc0 = seq![metadata_entry_view(metadata)];
    let ov = overrides.map_values(|f: OverrideFile| override_entry_view(f));
    let md = additional_mods.map_values(|f: ModFile| mod_entry_view(f));
    let acc1 = spec_add_entries(acc0, ov);
    lemma_add_entries_prefix(acc0, ov);
    lemma_add_entries_prefix(acc1, md);
    let result = spec_create(metadata, overrides, additional_mods);
    assert(result[0] == metadata_entry_view(metadata));
}

/// A planned archive never holds two entries of one name.
pub proof fn lemma_create_no_duplicates(
    metadata: Seq<char>,
    overrides: Seq<OverrideFile>,
    additional_mods: Seq<ModFile>,
)
    ensures
        distinct_names(spec_create(metadata, overrides, additional_mods)),
{
    let acc0 = seq![metadata_entry_view(metadata)];
    let ov = overrides.map_values(|f: OverrideFile| override_entry_view(f));
    let md = additional_mods.map_values(|f: ModFile| mod_entry_view(f));
    lemma_add_entries_distinct(acc0, ov);
    lemma_add_entries_distinct(spec_add_entries(acc0, ov), md);
}

/// Path safety: every entry of a planned archive is the metadata entry or
/// lies under the `overrides/` tree; nothing escapes it.
pub proof fn lemma_create_in_tree(
    metadata: Seq<char>,
    overrides: Seq<OverrideFile>,
    additional_mods: Seq<ModFile>,
)
    requires
        forall|i: int| 0 <= i < overrides.len() ==> valid_path(
            parts_view((#[trigger] overrides[i]).path),
        ),
    ensures
        forall|k: int|
            0 <= k < spec_create(metadata, overrides, additional_mods).len() ==> {
                let e = #[trigger] spec_create(metadata, overrides, additional_mods)[k];
                e == metadata_entry_view(metadata) || "overrides/"@.is_prefix_of(e.name)
            },
{
    let acc0 = seq![metadata_entry_view(metadata)];
    let ov = overrides.map_values(|f: OverrideFile| override_entry_view(f));
    let md = additional_mods.map_values(|f: ModFile| mod_entry_view(f));
    let acc1 = spec_add_entries(acc0, ov);
    let result = spec_create(metadata, overrides, additional_mods);
    lemma_add_entries_members(acc0, ov);
    lemma_add_entries_members(acc1, md);
    assert forall|k: int| 0 <= k < result.len() implies (#[trigger] result[k])
        == metadata_entry_view(metadata) || "overrides/"@.is_prefix_of(result[k].name) by {
        let e = result[k];
        if md.contains(e) {
            let j = choose|j: int| 0 <= j < md.len() && md[j] == e;
            assert(e == mod_entry_view(additional_mods[j]));
            lemma_entry_name_in_tree(seq!["mods"@, additional_mods[j].filename@]);
        } else {
            assert(acc1.contains(e));
            let j1 = choose|j: int| 0 <= j < acc1.len() && acc1[j] == e;
            assert(acc0.contains(acc1[j1]) || ov.contains(acc1[j1]));
            if ov.contains(e) {
                let j = choose|j: int| 0 <= j < ov.len() && ov[j] == e;
                assert(e == override_entry_view(overrides[j]));
                lemma_entry_name_in_tree(parts_view(overrides[j].path));
            } else {
                assert(acc0.contains(e));
                assert(e == acc0[0]);
            }
        }
    }
}

} // verus!
