//! The YouTube backend client: holds the settings snapshot it was constructed
//! with and can write them back into the shared per-backend settings.
//!
//! The network protocol that resolves a YouTube URL into tracks is not part
//! of the core; a process embedding the library supplies it.

use vstd::prelude::*;

use crate::client_config::Clients;
use crate::client_config::YoutubeConfig;

verus! {

/// A client of the YouTube service, constructed from its settings record.
pub struct YoutubeClient {
    pub config: YoutubeConfig,
}

impl YoutubeClient {
    /// Construct a client around a settings snapshot.
    pub fn new(config: YoutubeConfig) -> (r: Self)
        ensures
            r == (YoutubeClient { config }),
    {
        YoutubeClient { config }
    }

    /// Write this client's settings back into the shared per-backend
    /// settings, leaving every other backend's record unchanged.
    pub fn save_config(&self, configs: &mut Clients)
        ensures
            final(configs).youtube == Some(self.config),
            final(configs).tidal == old(configs).tidal,
    {
        configs.youtube = Some(self.config.clone());
    }
}

impl Clone for YoutubeClient {
    fn clone(&self) -> (r: Self)
        ensures
            r == *self,
    {
        YoutubeClient { config: self.config.clone() }
    }
}

} // verus!
