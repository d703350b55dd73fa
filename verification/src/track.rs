//! A track: one media item of a playlist, immutable once constructed, with
//! the deterministic name of the file it is mirrored to.

use vstd::prelude::*;
use vstd::string::*;

use crate::uri::Uri;

verus! {

/// One media item: artist/title metadata plus the location its bytes are
/// fetched from. Owned by its parent playlist.
pub struct Track {
    pub artist: String,
    pub title: String,
    pub url: Uri,
}

/// The file name a track is downloaded to: `"{artist} - {title}"`.
pub open spec fn spec_download_name(artist: Seq<char>, title: Seq<char>) -> Seq<char> {
    artist + " - "@ + title
}

/// The path of a track's file below a target directory.
pub open spec fn spec_track_path(dir: Seq<char>, artist: Seq<char>, title: Seq<char>) -> Seq<
    char,
> {
    dir + "/"@ + spec_download_name(artist, title)
}

impl Track {
    /// The deterministic name of the file this track is downloaded to.
    pub fn download_name(&self) -> (r: String)
        ensures
            r@ == spec_download_name(self.artist@, self.title@),
    {
        let mut name = self.artist.clone();
        name.append(" - ");
        name.append(self.title.as_str());
        name
    }

    /// Where this track's file goes when the playlist is mirrored into `dir`.
    pub fn download_path(&self, dir: &String) -> (r: String)
        ensures
            r@ == spec_track_path(dir@, self.artist@, self.title@),
    {
        let mut path = dir.clone();
        path.append("/");
        path.append(self.download_name().as_str());
        path
    }
}

impl Clone for Track {
    fn clone(&self) -> (r: Self)
        ensures
            r == *self,
    {
        Track { artist: self.artist.clone(), title: self.title.clone(), url: self.url.clone() }
    }
}

} // verus!
