//! Modpack retrieval decisions: the latest file or version of a project,
//! taken with no compatibility filtering, normalized for the cached download
//! engine.

use vstd::prelude::*;

use crate::check::{candidates_view, CandidateFile};
use crate::upgrade::{is_normalized, Downloadable};

verus! {

/// Why turning a project's file list into a modpack download failed.
#[derive(Clone, Copy, Debug, PartialEq, Eq, Structural)]
pub enum Error {
    /// The developer of this modpack has denied third party applications
    /// from downloading it; the user can place the archive in the cache
    /// directory by hand.
    DistributionDenied,
}

/// The downloadable artifact for a modpack: the first (most recent) entry of
/// the project's newest-first file list, with no compatibility filtering.
///
/// Fails with `DistributionDenied` exactly when that entry's redistribution
/// is denied.
pub fn latest_modpack_downloadable(files: &Vec<CandidateFile>) -> (r: Result<Downloadable, Error>)
    requires
        files@.len() > 0,
    ensures
        match r {
            Ok(d) => is_normalized(candidates_view(files@)[0], d),
            Err(Error::DistributionDenied) => candidates_view(files@)[0].download_url is None,
        },
{
    match Downloadable::from_candidate(&files[0]) {
        Some(d) => Ok(d),
        None => Err(Error::DistributionDenied),
    }
}

} // verus!
