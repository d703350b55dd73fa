//! The Tidal backend client: holds the settings snapshot it was constructed
//! with and can write them back into the shared per-backend settings.
//!
//! The network protocol that resolves a Tidal URL into tracks is not part of
//! the core; a process embedding the library supplies it.

use vstd::prelude::*;

use crate::client_config::Clients;
use crate::client_config::TidalConfig;

verus! {

/// A client of the Tidal service, constructed from its settings record.
pub struct TidalClient {
    pub config: TidalConfig,
}

impl TidalClient {
    /// Construct a client around a settings snapshot.
    pub fn new(config: TidalConfig) -> (r: Self)
        ensures
            r == (TidalClient { config }),
    {
        TidalClient { config }
    }

    /// Write this client's settings back into the shared per-backend
    /// settings, leaving every other backend's record unchanged.
    pub fn save_config(&self, configs: &mut Clients)
        ensures
            final(configs).tidal == Some(self.config),
            final(configs).youtube == old(configs).youtube,
    {
        configs.tidal = Some(self.config.clone());
    }
}

impl Clone for TidalClient {
    fn clone(&self) -> (r: Self)
        ensures
            r == *self,
    {
        TidalClient { config: self.config.clone() }
    }
}

} // verus!
