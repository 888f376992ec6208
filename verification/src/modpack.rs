//! Archive entry planning shared by modpack formats: POSIX-style entry names
//! under the `overrides/` tree, and duplicate-free entry lists.

pub mod modrinth;

use vstd::prelude::*;
use vstd::string::{StrSliceExecFns, StringExecFns};

verus! {

/// One planned archive entry: its POSIX-style name and its contents.
/// Every entry of the produced archive is compressed uniformly.
#[derive(Debug)]
pub struct ArchiveEntry {
    /// The entry's name: forward-slash separated, relative, with no `.` or
    /// `..` components.
    pub name: String,
    /// The entry's contents.
    pub data: Vec<u8>,
}

/// The mathematical content of an `ArchiveEntry`.
pub ghost struct ArchiveEntryView {
    pub name: Seq<char>,
    pub data: Seq<u8>,
}

impl View for ArchiveEntry {
    type V = ArchiveEntryView;

    open spec fn view(&self) -> ArchiveEntryView {
        ArchiveEntryView { name: self.name@, data: self.data@ }
    }
}

/// The views of a list of archive entries.
pub open spec fn entries_view(s: Seq<ArchiveEntry>) -> Seq<ArchiveEntryView> {
    s.map_values(|e: ArchiveEntry| e@)
}

/// A path component that is safe inside an archive: non-empty, holding no
/// separator, and naming no current or parent directory.
pub open spec fn valid_component(s: Seq<char>) -> bool {
    &&& s.len() > 0
    &&& (forall|i: int| 0 <= i < s.len() ==> s[i] != '/')
    &&& !(s.len() == 1 && s[0] == '.')
    &&& !(s.len() == 2 && s[0] == '.' && s[1] == '.')
}

/// A relative path that is safe inside an archive: at least one component,
/// all of them valid.
pub open spec fn valid_path(p: Seq<Seq<char>>) -> bool {
    &&& p.len() > 0
    &&& (forall|i: int| 0 <= i < p.len() ==> valid_component(#[trigger] p[i]))
}

/// The views of a path's components.
pub open spec fn parts_view(p: Vec<String>) -> Seq<Seq<char>> {
    p@.map_values(|s: String| s@)
}

/// Whether one path component is safe inside an archive.
pub fn check_component(s: &String) -> (r: bool)
    ensures
        r == valid_component(s@),
{
    let n = s.as_str().unicode_len();
    if n == 0 {
        return false;
    }
    let first = s.as_str().get_char(0);
    if n == 1 && first == '.' {
        return false;
    }
    if n == 2 && first == '.' && s.as_str().get_char(1) == '.' {
        return false;
    }
    let mut k: usize = 0;
    while k < n
        invariant
            n == s@.len(),
            k <= n,
            forall|i: int| 0 <= i < k ==> s@[i] != '/',
        decreases n - k,
    {
        if s.as_str().get_char(k) == '/' {
            return false;
        }
        k += 1;
    }
    true
}

/// Each component of `parts`, prefixed by one separator: `/a/b/c`.
pub open spec fn spec_slash_join(parts: Seq<Seq<char>>) -> Seq<char>
    decreases parts.len(),
{
    if parts.len() == 0 {
        Seq::empty()
    } else {
        spec_slash_join(parts.drop_last()) + seq!['/'] + parts.last()
    }
}

/// The archive entry name of a file at relative path `parts` under the
/// overrides tree: `overrides/a/b/c`.
pub open spec fn spec_entry_name(parts: Seq<Seq<char>>) -> Seq<char> {
    "overrides"@ + spec_slash_join(parts)
}

/// Build the archive entry name of a file at relative path `parts` under the
/// overrides tree.
pub fn entry_name(parts: &Vec<String>) -> (r: String)
    requires
        parts@.len() > 0,
    ensures
        r@ == spec_entry_name(parts_view(*parts)),
{
    let ghost pv = parts_view(*parts);
    let mut name = "overrides".to_owned();
    proof {
        assert(name@ =~= "overrides"@ + spec_slash_join(pv.take(0)));
    }
    let mut k: usize = 0;
    while k < parts.len()
        invariant
            k <= parts@.len(),
            pv == parts_view(*parts),
            pv.len() == parts@.len(),
            name@ == "overrides"@ + spec_slash_join(pv.take(k as int)),
        decreases parts@.len() - k,
    {
        name.append("/");
        name.append(parts[k].as_str());
        proof {
            reveal_strlit("/");
            assert("/"@ =~= seq!['/']);
            assert(pv.take(k + 1).drop_last() =~= pv.take(k as int));
            assert(pv.take(k + 1).last() == pv[k as int]);
            assert(pv[k as int] == parts@[k as int]@);
            assert(name@ =~= "overrides"@ + spec_slash_join(pv.take(k + 1)));
        }
        k += 1;
    }
    proof {
        assert(pv.take(pv.len() as int) =~= pv);
    }
    name
}

/// The archive entry name of a bundled mod file: `overrides/mods/<filename>`.
pub fn mods_entry_name(filename: &String) -> (r: String)
    ensures
        r@ == spec_entry_name(seq!["mods"@, filename@]),
{
    let r = "overrides".to_owned().concat("/").concat("mods").concat("/").concat(
        filename.as_str(),
    );
    proof {
        reveal_strlit("/");
        let parts = seq!["mods"@, filename@];
        let one = seq!["mods"@];
        assert(parts.drop_last() =~= one);
        assert(parts.last() == filename@);
        assert(one.drop_last() =~= Seq::<Seq<char>>::empty());
        assert(one.last() == "mods"@);
        assert(spec_slash_join(Seq::<Seq<char>>::empty()) == Seq::<char>::empty());
        assert(spec_slash_join(one) == Seq::<char>::empty() + seq!['/'] + "mods"@);
        assert(spec_slash_join(parts) == spec_slash_join(one) + seq!['/'] + filename@);
        assert("/"@ =~= seq!['/']);
        assert(r@ =~= spec_entry_name(parts));
    }
    r
}

/// Whether some entry in `s` already has `name`.
pub open spec fn contains_name(s: Seq<ArchiveEntryView>, name: Seq<char>) -> bool {
    exists|i: int| 0 <= i < s.len() && (#[trigger] s[i]).name == name
}

/// Add `e` to `acc` unless an entry of that name is already present:
/// the archive never holds two entries of one name, first one wins.
pub open spec fn spec_add_entry(
    acc: Seq<ArchiveEntryView>,
    e: ArchiveEntryView,
) -> Seq<ArchiveEntryView> {
    if contains_name(acc, e.name) {
        acc
    } else {
        acc.push(e)
    }
}

/// Fold `spec_add_entry` over `es`, in order.
pub open spec fn spec_add_entries(
    acc: Seq<ArchiveEntryView>,
    es: Seq<ArchiveEntryView>,
) -> Seq<ArchiveEntryView>
    decreases es.len(),
{
    if es.len() == 0 {
        acc
    } else {
        spec_add_entry(spec_add_entries(acc, es.drop_last()), es.last())
    }
}

/// Push `e` onto `entries` unless an entry of that name is already present.
pub fn push_unique(entries: &mut Vec<ArchiveEntry>, e: ArchiveEntry)
    ensures
        entries_view(final(entries)@) == spec_add_entry(entries_view(old(entries)@), e@),
{
    let ghost acc = entries_view(old(entries)@);
    let mut k: usize = 0;
    while k < entries.len()
        invariant
            k <= entries@.len(),
            *entries == *old(entries),
            acc == entries_view(entries@),
            acc.len() == entries@.len(),
            forall|i: int| 0 <= i < k ==> (#[trigger] acc[i]).name != e@.name,
        decreases entries@.len() - k,
    {
        proof {
            assert(acc[k as int] == entries@[k as int]@);
        }
        if entries[k].name == e.name {
            return;
        }
        k += 1;
    }
    entries.push(e);
    proof {
        assert(!contains_name(acc, e@.name));
        assert(entries_view(entries@) =~= acc.push(e@));
    }
}

/// Folding entries onto `acc` only ever appends: the accumulator stays a
/// prefix of the result.
pub proof fn lemma_add_entries_prefix(acc: Seq<ArchiveEntryView>, es: Seq<ArchiveEntryView>)
    ensures
        acc.len() <= spec_add_entries(acc, es).len(),
        forall|i: int| 0 <= i < acc.len() ==> #[trigger] spec_add_entries(acc, es)[i] == acc[i],
    decreases es.len(),
{
    if es.len() > 0 {
        lemma_add_entries_prefix(acc, es.drop_last());
    }
}

/// Pairwise distinct entry names.
pub open spec fn distinct_names(s: Seq<ArchiveEntryView>) -> bool {
    forall|i: int, j: int| 0 <= i < j < s.len() ==> (#[trigger] s[i]).name != (#[trigger] s[j]).name
}

/// Folding entries onto a duplicate-free accumulator keeps it duplicate-free.
pub proof fn lemma_add_entries_distinct(acc: Seq<ArchiveEntryView>, es: Seq<ArchiveEntryView>)
    requires
        distinct_names(acc),
    ensures
        distinct_names(spec_add_entries(acc, es)),
    decreases es.len(),
{
    if es.len() > 0 {
        lemma_add_entries_distinct(acc, es.drop_last());
        let folded = spec_add_entries(acc, es.drop_last());
        let e = es.last();
        if !contains_name(folded, e.name) {
            assert forall|i: int, j: int| 0 <= i < j < folded.push(e).len() implies
                folded.push(e)[i].name != folded.push(e)[j].name by {
                if j == folded.len() {
                    assert(folded.push(e)[i] == folded[i]);
                }
            }
        }
    }
}

/// Every entry of the fold's result is the accumulator's or one of `es`.
pub proof fn lemma_add_entries_members(acc: Seq<ArchiveEntryView>, es: Seq<ArchiveEntryView>)
    ensures
        forall|k: int|
            0 <= k < spec_add_entries(acc, es).len() ==> acc.contains(
                #[trigger] spec_add_entries(acc, es)[k],
            ) || es.contains(spec_add_entries(acc, es)[k]),
    decreases es.len(),
{
    if es.len() > 0 {
        lemma_add_entries_members(acc, es.drop_last());
        let folded = spec_add_entries(acc, es.drop_last());
        let e = es.last();
        assert forall|k: int| 0 <= k < spec_add_entries(acc, es).len() implies acc.contains(
            #[trigger] spec_add_entries(acc, es)[k],
        ) || es.contains(spec_add_entries(acc, es)[k]) by {
            if k < folded.len() {
                assert(spec_add_entries(acc, es)[k] == folded[k]);
                if es.drop_last().contains(folded[k]) {
                    let j = choose|j: int|
                        0 <= j < es.drop_last().len() && es.drop_last()[j] == folded[k];
                    assert(es[j] == folded[k]);
                }
            } else {
                assert(spec_add_entries(acc, es)[k] == e);
                assert(es[es.len() - 1] == e);
            }
        }
    }
}

/// A valid relative path's entry name lies under the `overrides/` tree.
pub proof fn lemma_entry_name_in_tree(parts: Seq<Seq<char>>)
    requires
        parts.len() > 0,
    ensures
        "overrides/"@.is_prefix_of(spec_entry_name(parts)),
    decreases parts.len(),
{
    reveal_strlit("overrides");
    reveal_strlit("overrides/");
    lemma_slash_join_starts_with_slash(parts);
    let name = spec_entry_name(parts);
    assert(name.subrange(0, 10) =~= "overrides/"@);
}

/// A non-empty slash-join starts with the separator.
proof fn lemma_slash_join_starts_with_slash(parts: Seq<Seq<char>>)
    requires
        parts.len() > 0,
    ensures
        spec_slash_join(parts).len() >= 1,
        spec_slash_join(parts)[0] == '/',
    decreases parts.len(),
{
    if parts.len() == 1 {
        assert(parts.drop_last() =~= Seq::<Seq<char>>::empty());
        assert(spec_slash_join(parts.drop_last()) == Seq::<char>::empty());
        assert(spec_slash_join(parts)[0] == '/');
    } else {
        lemma_slash_join_starts_with_slash(parts.drop_last());
        assert(spec_slash_join(parts)[0] == spec_slash_join(parts.drop_last())[0]);
    }
}

/// Distinct valid mod filenames give distinct archive entry names: bundled
/// mods never collide after canonicalization.
pub proof fn lemma_mods_name_injective(f1: Seq<char>, f2: Seq<char>)
    requires
        f1 != f2,
    ensures
        spec_entry_name(seq!["mods"@, f1]) != spec_entry_name(seq!["mods"@, f2]),
{
    let n1 = spec_entry_name(seq!["mods"@, f1]);
    let n2 = spec_entry_name(seq!["mods"@, f2]);
    let p1 = seq!["mods"@, f1];
    let p2 = seq!["mods"@, f2];
    assert(p1.drop_last() =~= seq!["mods"@]);
    assert(p2.drop_last() =~= seq!["mods"@]);
    let stem = "overrides"@ + (spec_slash_join(seq!["mods"@]) + seq!['/']);
    assert(n1 =~= stem + f1);
    assert(n2 =~= stem + f2);
    if n1 == n2 {
        assert(f1.len() == f2.len());
        assert forall|i: int| 0 <= i < f1.len() implies f1[i] == f2[i] by {
            assert(n1[stem.len() + i] == f1[i]);
            assert(n2[stem.len() + i] == f2[i]);
        }
        assert(f1 =~= f2);
    }
}

} // verus!
