//! Normalized downloadable artifacts, and the decision logic of the cached,
//! progress-reporting download engine: cache-hit planning, temporary-path
//! discipline, and chunk accounting.

pub mod mod_downloadable;
pub mod modpack_downloadable;

use vstd::prelude::*;
use vstd::string::StringExecFns;

use crate::check::{CandidateFile, CandidateFileView};

verus! {

/// A normalized artifact: where to retrieve it, what to name the local file,
/// and how many bytes it holds.
#[derive(Clone, Debug)]
pub struct Downloadable {
    /// Where to retrieve the artifact.
    pub download_url: String,
    /// The output filename of the local copy.
    pub output: String,
    /// The artifact's byte length.
    pub length: u64,
}

/// Whether `d` is the normalization of the upstream candidate `c`: same
/// retrieval source, same output filename, same byte length.
pub open spec fn is_normalized(c: CandidateFileView, d: Downloadable) -> bool {
    &&& c.download_url == Some(d.download_url@)
    &&& d.output@ == c.filename
    &&& d.length == c.length
}

impl Downloadable {
    /// Normalize an upstream candidate into a downloadable artifact;
    /// `None` exactly when the candidate's redistribution is denied.
    pub fn from_candidate(c: &CandidateFile) -> (r: Option<Downloadable>)
        ensures
            match r {
                Some(d) => is_normalized(c@, d),
                None => c@.download_url is None,
            },
    {
        match &c.download_url {
            None => None,
            Some(u) => Some(
                Downloadable {
                    download_url: u.clone(),
                    output: c.filename.clone(),
                    length: c.length,
                },
            ),
        }
    }

    /// The deterministic path of this artifact's cache entry.
    pub open spec fn spec_cache_path(self, cache_dir: Seq<char>) -> Seq<char> {
        cache_dir + "/"@ + self.output@
    }

    /// The temporary path an in-flight download writes to; only a
    /// verified-complete transfer is renamed onto the cache path.
    pub open spec fn spec_temp_path(self, cache_dir: Seq<char>) -> Seq<char> {
        self.spec_cache_path(cache_dir) + ".part"@
    }

    /// The deterministic path of this artifact's cache entry:
    /// the cache directory plus the output filename.
    pub fn cache_path(&self, cache_dir: &str) -> (r: String)
        ensures
            r@ == self.spec_cache_path(cache_dir@),
    {
        cache_dir.to_owned().concat("/").concat(self.output.as_str())
    }

    /// The temporary path an in-flight download of this artifact writes to.
    pub fn temp_path(&self, cache_dir: &str) -> (r: String)
        ensures
            r@ == self.spec_temp_path(cache_dir@),
    {
        self.cache_path(cache_dir).concat(".part")
    }
}

/// A partially written download never occupies the cache path: the temporary
/// path always differs from the path the cache-hit check looks at, so a crash
/// mid-download cannot satisfy a later idempotence check.
pub proof fn lemma_partial_write_is_no_cache_hit(d: Downloadable, cache_dir: Seq<char>)
    ensures
        d.spec_temp_path(cache_dir) != d.spec_cache_path(cache_dir),
{
    reveal_strlit(".part");
    assert(d.spec_temp_path(cache_dir).len() == d.spec_cache_path(cache_dir).len() + 5);
}

/// What a fetch does: open the cached copy, or download `total` bytes first.
#[derive(Clone, Copy, Debug, PartialEq, Eq, Structural)]
pub enum FetchPlan {
    /// The output file already exists under the cache directory: open it;
    /// no network request is made and no progress hook fires.
    UseCache,
    /// No cache entry yet: create the cache directory, report `total` to the
    /// one-shot total hook, then stream the body chunk by chunk.
    Download { total: u64 },
}

/// The fetch decision for an artifact of `length` bytes whose cache entry
/// does or does not already exist.
pub open spec fn spec_plan_fetch(cached: bool, length: u64) -> FetchPlan {
    if cached {
        FetchPlan::UseCache
    } else {
        FetchPlan::Download { total: length }
    }
}

/// Decide what a fetch of `d` does, given whether a file named `d.output`
/// already exists under the cache directory.
pub fn plan_fetch(d: &Downloadable, cached: bool) -> (p: FetchPlan)
    ensures
        p == spec_plan_fetch(cached, d.length),
{
    if cached {
        FetchPlan::UseCache
    } else {
        FetchPlan::Download { total: d.length }
    }
}

/// Fetching an artifact whose output file is already cached downloads
/// nothing, whatever its length; fetching an uncached one reports the
/// artifact's full byte length to the total hook.
pub proof fn lemma_fetch_idempotent(d: Downloadable)
    ensures
        spec_plan_fetch(true, d.length) == FetchPlan::UseCache,
        spec_plan_fetch(false, d.length) == (FetchPlan::Download { total: d.length }),
{
}

/// The sum of the chunk sizes in `s`.
pub open spec fn chunk_sum(s: Seq<u64>) -> int
    decreases s.len(),
{
    if s.len() == 0 {
        0
    } else {
        chunk_sum(s.drop_last()) + s.last()
    }
}

/// Chunk accounting for one streaming download.
///
/// A session is opened with the total byte length reported to the one-shot
/// total hook; each received chunk is recorded in order. The session's
/// invariant ties the running byte count to the sum of all recorded chunk
/// sizes, so a transfer accepted as complete has chunk sizes summing exactly
/// to the reported total.
pub struct DownloadSession {
    total: u64,
    received: u64,
    chunks: Ghost<Seq<u64>>,
}

impl DownloadSession {
    /// The total byte length this session was opened with.
    pub closed spec fn spec_total(&self) -> u64 {
        self.total
    }

    /// The bytes received so far.
    pub closed spec fn spec_received(&self) -> u64 {
        self.received
    }

    /// The sizes of the chunks recorded so far, in receive order.
    pub closed spec fn spec_chunks(&self) -> Seq<u64> {
        self.chunks@
    }

    /// The session invariant: the received count is the sum of all recorded
    /// chunk sizes and never exceeds the reported total.
    pub closed spec fn wf(&self) -> bool {
        &&& self.received == chunk_sum(self.chunks@)
        &&& self.received <= self.total
    }

    /// Open a session for a download whose total hook was given `total`.
    pub fn new(total: u64) -> (s: Self)
        ensures
            s.wf(),
            s.spec_total() == total,
            s.spec_received() == 0,
            s.spec_chunks() == Seq::<u64>::empty(),
    {
        DownloadSession { total, received: 0, chunks: Ghost(Seq::empty()) }
    }

    /// Record one received chunk of `size` bytes, in receive order.
    /// Returns false, recording nothing, when the chunk would take the
    /// transfer past the reported total: such a transfer is failed and must
    /// not be renamed onto the cache path.
    pub fn record_chunk(&mut self, size: u64) -> (r: bool)
        requires
            old(self).wf(),
        ensures
            final(self).wf(),
            final(self).spec_total() == old(self).spec_total(),
            r == (old(self).spec_received() + size <= old(self).spec_total()),
            r ==> final(self).spec_received() == old(self).spec_received() + size
                && final(self).spec_chunks() == old(self).spec_chunks().push(size),
            !r ==> *final(self) == *old(self),
    {
        if size <= self.total - self.received {
            self.received = self.received + size;
            proof {
                self.chunks@ = self.chunks@.push(size);
                assert(self.chunks@.drop_last() =~= old(self).chunks@);
            }
            true
        } else {
            false
        }
    }

    /// Whether the transfer is complete: every byte of the reported total
    /// was received. Only a complete transfer may be renamed onto the cache
    /// path and returned as a fetched file.
    pub fn is_complete(&self) -> (r: bool)
        ensures
            r == (self.spec_received() == self.spec_total()),
    {
        self.received == self.total
    }
}

/// Progress sum invariant: when a download session accepts its transfer as
/// complete, the sizes of all chunks handed to the chunk hook sum exactly to
/// the total handed to the total hook.
pub proof fn lemma_progress_sum(s: DownloadSession)
    requires
        s.wf(),
        s.spec_received() == s.spec_total(),
    ensures
        chunk_sum(s.spec_chunks()) == s.spec_total(),
{
}

} // verus!
