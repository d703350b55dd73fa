//! A resolved playlist: the transient result of a backend turning a URL into
//! track metadata. It owns the download fan-out plan — one file path per
//! track — and the fail-fast folding of the per-track outcomes. The transfers
//! themselves are network work and run outside the core; the core fixes where
//! every file goes and which failure the whole operation reports.

use vstd::prelude::*;

use crate::error::LibraryError;
use crate::track::spec_track_path;
use crate::track::Track;
use crate::uri::Uri;

verus! {

/// A playlist as a backend resolved it: its name, its source URL, and its
/// tracks in playlist order. Not itself persisted.
pub struct Playlist {
    pub name: String,
    pub url: Uri,
    pub tracks: Vec<Track>,
}

/// The index of the first failed outcome, if any track failed.
pub open spec fn spec_first_failure(rs: Seq<Result<(), LibraryError>>) -> Option<int>
    decreases rs.len(),
{
    if rs.len() == 0 {
        None
    } else if rs[0] is Err {
        Some(0)
    } else {
        match spec_first_failure(rs.drop_first()) {
            Some(i) => Some(i + 1),
            None => None,
        }
    }
}

impl Playlist {
    /// The download fan-out plan: one destination path per track, in playlist
    /// order, each `"{dir}/{artist} - {title}"`. Every track gets exactly one
    /// entry; the transfers may then all run concurrently.
    pub fn download_plan(&self, dir: &String) -> (r: Vec<String>)
        ensures
            r@.len() == self.tracks@.len(),
            forall|i: int|
                0 <= i < r@.len() ==> r@[i]@ == spec_track_path(
                    dir@,
                    self.tracks@[i].artist@,
                    self.tracks@[i].title@,
                ),
    {
        let mut paths: Vec<String> = Vec::new();
        let mut i: usize = 0;
        while i < self.tracks.len()
            invariant
                i <= self.tracks@.len(),
                paths@.len() == i,
                forall|j: int|
                    0 <= j < i ==> paths@[j]@ == spec_track_path(
                        dir@,
                        self.tracks@[j].artist@,
                        self.tracks@[j].title@,
                    ),
            decreases self.tracks@.len() - i,
        {
            paths.push(self.tracks[i].download_path(dir));
            i = i + 1;
        }
        paths
    }
}

/// Fold the per-track outcomes of one download fan-out, fail-fast: `Ok` when
/// every track succeeded, else exactly the first failure in track order —
/// later outcomes, settled or not, do not change the verdict.
pub fn download_outcome(results: &Vec<Result<(), LibraryError>>) -> (r: Result<(), LibraryError>)
    ensures
        r is Ok <==> spec_first_failure(results@) is None,
        r matches Err(e) ==> (spec_first_failure(results@) matches Some(i) && results@[i] == Err::<
            (),
            LibraryError,
        >(e)),
{
    let mut i: usize = 0;
    proof {
        assert(results@.skip(0) =~= results@);
    }
    while i < results.len()
        invariant
            i <= results@.len(),
            spec_first_failure(results@) == match spec_first_failure(results@.skip(i as int)) {
                Some(k) => Some(k + i),
                None => None::<int>,
            },
            forall|j: int| 0 <= j < i ==> results@[j] is Ok,
        decreases results@.len() - i,
    {
        match &results[i] {
            Ok(_) => {
                proof {
                    assert(results@.skip(i as int).drop_first() =~= results@.skip(i as int + 1));
                }
                i = i + 1;
            },
            Err(e) => {
                proof {
                    assert(results@.skip(i as int)[0] is Err);
                }
                return Err(e.clone());
            },
        }
    }
    proof {
        assert(results@.skip(i as int).len() == 0);
    }
    Ok(())
}

} // verus!
