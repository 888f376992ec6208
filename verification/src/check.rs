//! Compatibility checking: picking, out of a newest-first candidate list, the
//! most recent file compatible with a target game version and mod loader.

use vstd::prelude::*;

use crate::config::ModLoaders;

verus! {

/// One upstream-listed file, version, or release considered during
/// resolution, normalized to the fields every platform declares.
///
/// `game_versions` and `loaders` are the declared compatibility lists; an
/// empty `loaders` list means the candidate declares no loader information
/// and is treated as loader-agnostic. `download_url` is `None` when the
/// upstream record forbids third-party redistribution. Lists of candidates
/// are ordered newest-first, as upstream delivers them.
#[derive(Debug)]
pub struct CandidateFile {
    /// The artifact's output filename, exactly as upstream names it.
    pub filename: String,
    /// The artifact's byte length.
    pub length: u64,
    /// Where to retrieve the artifact; `None` when redistribution is denied.
    pub download_url: Option<String>,
    /// Declared compatible game versions.
    pub game_versions: Vec<String>,
    /// Declared compatible loaders, by canonical name; empty means universal.
    pub loaders: Vec<String>,
}

/// The mathematical content of a `CandidateFile`.
pub ghost struct CandidateFileView {
    pub filename: Seq<char>,
    pub length: u64,
    pub download_url: Option<Seq<char>>,
    pub game_versions: Seq<Seq<char>>,
    pub loaders: Seq<Seq<char>>,
}

impl View for CandidateFile {
    type V = CandidateFileView;

    open spec fn view(&self) -> CandidateFileView {
        CandidateFileView {
            filename: self.filename@,
            length: self.length,
            download_url: match self.download_url {
                None => None,
                Some(u) => Some(u@),
            },
            game_versions: self.game_versions@.map_values(|s: String| s@),
            loaders: self.loaders@.map_values(|s: String| s@),
        }
    }
}

impl Clone for CandidateFile {
    fn clone(&self) -> (r: Self)
        ensures
            r@ == self@,
    {
        let r = CandidateFile {
            filename: self.filename.clone(),
            length: self.length,
            download_url: match &self.download_url {
                None => None,
                Some(u) => Some(u.clone()),
            },
            game_versions: self.game_versions.clone(),
            loaders: self.loaders.clone(),
        };
        proof {
            assert(r.game_versions@ =~= self.game_versions@);
            assert(r.loaders@ =~= self.loaders@);
            assert(r@ =~= self@);
        }
        r
    }
}

/// The views of a list of candidates.
pub open spec fn candidates_view(s: Seq<CandidateFile>) -> Seq<CandidateFileView> {
    s.map_values(|c: CandidateFile| c@)
}

/// Whether `c` satisfies the game-version filter: no filter, or an exact
/// string match in the declared list.
pub open spec fn matches_game_version(c: CandidateFileView, gv: Option<Seq<char>>) -> bool {
    match gv {
        None => true,
        Some(v) => exists|i: int|
            0 <= i < c.game_versions.len() && #[trigger] c.game_versions[i] == v,
    }
}

/// Whether `c` satisfies the loader filter: no filter, a declared loader
/// with the requested loader's canonical name, or no declared loader at all.
pub open spec fn matches_loader(c: CandidateFileView, loader: Option<ModLoaders>) -> bool {
    match loader {
        None => true,
        Some(l) => c.loaders.len() == 0 || exists|i: int|
            0 <= i < c.loaders.len() && #[trigger] c.loaders[i] == l.spec_name(),
    }
}

/// Whether `c` satisfies both supplied filters.
pub open spec fn candidate_matches(
    c: CandidateFileView,
    gv: Option<Seq<char>>,
    loader: Option<ModLoaders>,
) -> bool {
    matches_game_version(c, gv) && matches_loader(c, loader)
}

/// The index of the first (most recent) candidate satisfying both filters.
pub open spec fn spec_first_match(
    s: Seq<CandidateFileView>,
    gv: Option<Seq<char>>,
    loader: Option<ModLoaders>,
) -> Option<int>
    decreases s.len(),
{
    if s.len() == 0 {
        None
    } else if candidate_matches(s[0], gv, loader) {
        Some(0)
    } else {
        match spec_first_match(s.drop_first(), gv, loader) {
            Some(i) => Some(i + 1),
            None => None,
        }
    }
}

/// The first match is an element of the list that satisfies the filters, and
/// no earlier element does; when there is no first match, no element
/// satisfies the filters.
pub proof fn lemma_first_match_properties(
    s: Seq<CandidateFileView>,
    gv: Option<Seq<char>>,
    loader: Option<ModLoaders>,
)
    ensures
        match spec_first_match(s, gv, loader) {
            Some(i) => 0 <= i < s.len() && candidate_matches(s[i], gv, loader) && forall|j: int|
                0 <= j < i ==> !candidate_matches(#[trigger] s[j], gv, loader),
            None => forall|j: int|
                0 <= j < s.len() ==> !candidate_matches(#[trigger] s[j], gv, loader),
        },
    decreases s.len(),
{
    if s.len() > 0 && !candidate_matches(s[0], gv, loader) {
        lemma_first_match_properties(s.drop_first(), gv, loader);
        assert forall|j: int| 0 <= j < s.len() && j >= 1 implies
            s.drop_first()[j - 1] == s[j] by {}
    }
}

/// The view of an optional game-version filter.
pub open spec fn gv_view(gv: Option<&String>) -> Option<Seq<char>> {
    match gv {
        None => None,
        Some(v) => Some(v@),
    }
}

/// The view of an optional loader filter.
pub open spec fn loader_view(loader: Option<&ModLoaders>) -> Option<ModLoaders> {
    match loader {
        None => None,
        Some(l) => Some(*l),
    }
}

/// Whether `list` holds a string whose characters equal `want`'s.
fn contains_string(list: &Vec<String>, want: &String) -> (r: bool)
    ensures
        r == exists|i: int| 0 <= i < list@.len() && (#[trigger] list@[i])@ == want@,
{
    let mut k: usize = 0;
    while k < list.len()
        invariant
            k <= list@.len(),
            forall|i: int| 0 <= i < k ==> (#[trigger] list@[i])@ != want@,
        decreases list@.len() - k,
    {
        if list[k] == *want {
            return true;
        }
        k += 1;
    }
    false
}

/// Whether one candidate satisfies both supplied filters.
pub fn check_candidate(
    c: &CandidateFile,
    game_version: Option<&String>,
    loader: Option<&ModLoaders>,
) -> (r: bool)
    ensures
        r == candidate_matches(c@, gv_view(game_version), loader_view(loader)),
{
    let gv_ok = match game_version {
        None => true,
        Some(v) => contains_string(&c.game_versions, v),
    };
    let loader_ok = match loader {
        None => true,
        Some(l) => {
            if c.loaders.len() == 0 {
                true
            } else {
                let want = l.as_str().to_owned();
                contains_string(&c.loaders, &want)
            }
        },
    };
    proof {
        assert(c@.game_versions.len() == c.game_versions@.len());
        assert forall|i: int| 0 <= i < c.game_versions@.len() implies
            c@.game_versions[i] == (#[trigger] c.game_versions@[i])@ by {}
        assert(c@.loaders.len() == c.loaders@.len());
        assert forall|i: int| 0 <= i < c.loaders@.len() implies
            c@.loaders[i] == (#[trigger] c.loaders@[i])@ by {}
    }
    gv_ok && loader_ok
}

/// The index of the first (most recent) candidate in `candidates` satisfying
/// both supplied filters, or `None` when no candidate does.
pub fn first_compatible(
    candidates: &Vec<CandidateFile>,
    game_version: Option<&String>,
    loader: Option<&ModLoaders>,
) -> (r: Option<usize>)
    ensures
        match r {
            Some(i) => i < candidates@.len() && spec_first_match(
                candidates_view(candidates@),
                gv_view(game_version),
                loader_view(loader),
            ) == Some(i as int),
            None => spec_first_match(
                candidates_view(candidates@),
                gv_view(game_version),
                loader_view(loader),
            ) is None,
        },
{
    let ghost s = candidates_view(candidates@);
    let ghost gv = gv_view(game_version);
    let ghost l = loader_view(loader);
    let mut k: usize = 0;
    while k < candidates.len()
        invariant
            k <= candidates@.len(),
            s == candidates_view(candidates@),
            gv == gv_view(game_version),
            l == loader_view(loader),
            forall|i: int| 0 <= i < k ==> !candidate_matches(#[trigger] s[i], gv, l),
        decreases candidates@.len() - k,
    {
        if check_candidate(&candidates[k], game_version, loader) {
            proof {
                lemma_no_match_prefix(s, gv, l, k as int);
            }
            return Some(k);
        }
        k += 1;
    }
    proof {
        lemma_no_match_none(s, gv, l);
    }
    None
}

/// When no candidate before `i` matches and the candidate at `i` does, the
/// first match is exactly `i`.
proof fn lemma_no_match_prefix(
    s: Seq<CandidateFileView>,
    gv: Option<Seq<char>>,
    loader: Option<ModLoaders>,
    i: int,
)
    requires
        0 <= i < s.len(),
        candidate_matches(s[i], gv, loader),
        forall|j: int| 0 <= j < i ==> !candidate_matches(#[trigger] s[j], gv, loader),
    ensures
        spec_first_match(s, gv, loader) == Some(i),
    decreases i,
{
    if i == 0 {
    } else {
        assert forall|j: int| 0 <= j < i - 1 implies
            !candidate_matches(#[trigger] s.drop_first()[j], gv, loader) by {
            assert(s.drop_first()[j] == s[j + 1]);
        }
        assert(s.drop_first()[i - 1] == s[i]);
        lemma_no_match_prefix(s.drop_first(), gv, loader, i - 1);
    }
}

/// When no candidate at all matches, there is no first match.
proof fn lemma_no_match_none(
    s: Seq<CandidateFileView>,
    gv: Option<Seq<char>>,
    loader: Option<ModLoaders>,
)
    requires
        forall|j: int| 0 <= j < s.len() ==> !candidate_matches(#[trigger] s[j], gv, loader),
    ensures
        spec_first_match(s, gv, loader) is None,
    decreases s.len(),
{
    if s.len() > 0 {
        assert forall|j: int| 0 <= j < s.len() - 1 implies
            !candidate_matches(#[trigger] s.drop_first()[j], gv, loader) by {
            assert(s.drop_first()[j] == s[j + 1]);
        }
        lemma_no_match_none(s.drop_first(), gv, loader);
    }
}

} // verus!
