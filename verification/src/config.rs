//! The durable library state: the tracked playlists and the per-backend
//! settings. Loaded once at process start, mutated only in memory, written
//! back at orderly shutdown. The text encoding lives in [`crate::codec`];
//! reading and writing the file itself is the embedding process's work.

use vstd::prelude::*;

use crate::client_config;

verus! {

/// A tracked playlist: the durable record of one registered source. `url`
/// holds the source URL's full serialization and is the identity key — no
/// two tracked playlists share it. When `subfolder` is set the playlist is
/// mirrored into that directory, else into a directory named after the
/// playlist.
pub struct Playlist {
    pub name: String,
    pub url: String,
    pub subfolder: Option<String>,
}

impl Clone for Playlist {
    fn clone(&self) -> (r: Self)
        ensures
            r == *self,
    {
        Playlist {
            name: self.name.clone(),
            url: self.url.clone(),
            subfolder: match &self.subfolder {
                Some(s) => Some(s.clone()),
                None => None,
            },
        }
    }
}

/// No two tracked playlists name the same source.
pub open spec fn urls_unique(ps: Seq<Playlist>) -> bool {
    forall|i: int, j: int| 0 <= i < j < ps.len() ==> ps[i].url@ != ps[j].url@
}

/// The whole durable state: the tracked playlists in registration order and
/// the per-backend settings.
pub struct Config {
    pub playlists: Vec<Playlist>,
    pub clients: client_config::Clients,
}

impl Config {
    /// The default state of a library whose state file does not exist yet:
    /// no tracked playlist, no backend configured. A missing file is not an
    /// error.
    pub fn new() -> (r: Self)
        ensures
            r.playlists@ == Seq::<Playlist>::empty(),
            r.clients == (client_config::Clients { youtube: None, tidal: None }),
    {
        Config { playlists: Vec::new(), clients: client_config::Clients { youtube: None, tidal: None } }
    }
}

} // verus!
