//! Per-backend configuration: one opaque settings record per service kind,
//! collected in [`Clients`]. An absent record means the backend runs with its
//! defaults and is omitted from the persisted state.

use vstd::prelude::*;

verus! {

/// Settings of the YouTube backend. The service needs none yet; the record
/// exists so that persisted state can say whether the backend was configured.
pub struct YoutubeConfig {}

/// Settings of the Tidal backend. The service needs none yet; the record
/// exists so that persisted state can say whether the backend was configured.
pub struct TidalConfig {}

/// The per-backend settings records, one optional entry per service kind.
pub struct Clients {
    pub youtube: Option<YoutubeConfig>,
    pub tidal: Option<TidalConfig>,
}

impl Default for YoutubeConfig {
    fn default() -> (r: Self)
        ensures
            r == (YoutubeConfig {  }),
    {
        YoutubeConfig {  }
    }
}

impl Default for TidalConfig {
    fn default() -> (r: Self)
        ensures
            r == (TidalConfig {  }),
    {
        TidalConfig {  }
    }
}

impl Default for Clients {
    /// The state of a library that has configured no backend.
    fn default() -> (r: Self)
        ensures
            r == (Clients { youtube: None, tidal: None }),
    {
        Clients { youtube: None, tidal: None }
    }
}

impl Clone for YoutubeConfig {
    fn clone(&self) -> (r: Self)
        ensures
            r == *self,
    {
        YoutubeConfig {  }
    }
}

impl Clone for TidalConfig {
    fn clone(&self) -> (r: Self)
        ensures
            r == *self,
    {
        TidalConfig {  }
    }
}

impl Clone for Clients {
    fn clone(&self) -> (r: Self)
        ensures
            r == *self,
    {
        Clients {
            youtube: match &self.youtube {
                Some(c) => Some(c.clone()),
                None => None,
            },
            tidal: match &self.tidal {
                Some(c) => Some(c.clone()),
                None => None,
            },
        }
    }
}

} // verus!
