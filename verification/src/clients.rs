//! The service client registry: picks the single backend whose declared host
//! set matches a URL's host, and lazily constructs and memoizes one client
//! instance per backend kind for the lifetime of the registry.

use vstd::prelude::*;

use crate::client_config;
use crate::client_config::TidalConfig;
use crate::client_config::YoutubeConfig;
use crate::error::LibraryError;
use crate::tidal::TidalClient;
use crate::uri::Uri;
use crate::uri::UriV;
use crate::youtube::YoutubeClient;

verus! {

/// The closed set of service backends the library knows.
#[derive(Clone, Copy, PartialEq, Eq, Structural, Debug)]
pub enum BackendKind {
    Youtube,
    Tidal,
}

/// The hosts the YouTube backend declares as its own.
pub open spec fn youtube_hosts() -> Set<Seq<char>> {
    set!["youtube.com"@, "www.youtube.com"@]
}

/// The hosts the Tidal backend declares as its own.
pub open spec fn tidal_hosts() -> Set<Seq<char>> {
    set!["www.tidal.com"@, "listen.tidal.com"@, "tidal.com"@]
}

/// Which backend a host belongs to: exact, case-sensitive membership in a
/// backend's declared host set, and `None` for a host outside every set.
pub open spec fn spec_backend_for_host(h: Seq<char>) -> Option<BackendKind> {
    if tidal_hosts().contains(h) {
        Some(BackendKind::Tidal)
    } else if youtube_hosts().contains(h) {
        Some(BackendKind::Youtube)
    } else {
        None
    }
}

/// Which backend a URL belongs to; a URL without a host belongs to none.
pub open spec fn spec_backend_for_uri(u: UriV) -> Option<BackendKind> {
    match u.host {
        Some(h) => spec_backend_for_host(h),
        None => None,
    }
}

/// True exactly when the host equals the literal `w`.
fn host_is(h: &String, w: &str) -> (b: bool)
    ensures
        b == (h@ == w@),
{
    let ws: String = w.to_owned();
    *h == ws
}

/// Decide which backend owns a host, by exact, case-sensitive comparison
/// against each backend's declared host set.
pub fn backend_for_host(h: &String) -> (r: Option<BackendKind>)
    ensures
        r == spec_backend_for_host(h@),
{
    if host_is(h, "www.tidal.com") || host_is(h, "listen.tidal.com") || host_is(h, "tidal.com") {
        Some(BackendKind::Tidal)
    } else if host_is(h, "youtube.com") || host_is(h, "www.youtube.com") {
        Some(BackendKind::Youtube)
    } else {
        None
    }
}

/// The registry: a snapshot of the per-backend settings, plus at most one
/// memoized client per backend kind, constructed on first use.
pub struct Clients {
    pub configs: client_config::Clients,
    pub youtube: Option<YoutubeClient>,
    pub tidal: Option<TidalClient>,
}

/// The settings a freshly constructed YouTube client starts from: the stored
/// record, or the default when none is stored.
pub open spec fn spec_youtube_start_config(c: client_config::Clients) -> YoutubeConfig {
    match c.youtube {
        Some(cfg) => cfg,
        None => YoutubeConfig {  },
    }
}

/// The settings a freshly constructed Tidal client starts from: the stored
/// record, or the default when none is stored.
pub open spec fn spec_tidal_start_config(c: client_config::Clients) -> TidalConfig {
    match c.tidal {
        Some(cfg) => cfg,
        None => TidalConfig {  },
    }
}

/// The registry after a client of kind `k` has been demanded: unchanged when
/// that client is already cached, else the same registry with the freshly
/// constructed client cached.
pub open spec fn spec_prepared(s: Clients, k: BackendKind) -> Clients {
    match k {
        BackendKind::Youtube => if s.youtube is Some {
            s
        } else {
            Clients {
                configs: s.configs,
                youtube: Some(YoutubeClient { config: spec_youtube_start_config(s.configs) }),
                tidal: s.tidal,
            }
        },
        BackendKind::Tidal => if s.tidal is Some {
            s
        } else {
            Clients {
                configs: s.configs,
                youtube: s.youtube,
                tidal: Some(TidalClient { config: spec_tidal_start_config(s.configs) }),
            }
        },
    }
}

impl Clients {
    /// True when the client of kind `k` has already been constructed.
    pub open spec fn spec_is_cached(self, k: BackendKind) -> bool {
        match k {
            BackendKind::Youtube => self.youtube is Some,
            BackendKind::Tidal => self.tidal is Some,
        }
    }

    /// A registry over the given settings snapshot, with no client
    /// constructed yet.
    pub fn new(configs: client_config::Clients) -> (r: Self)
        ensures
            r == (Clients { configs, youtube: None, tidal: None }),
    {
        Clients { configs, youtube: None, tidal: None }
    }

    /// Select the backend that owns `query`'s host and make sure its client
    /// exists, constructing and caching it on first use. Returns the backend
    /// kind and whether this call constructed the client; a URL whose host no
    /// backend declares — or that has no host — is rejected with
    /// `UnsupportedService`, and the registry is left unchanged.
    pub fn prepare_client(&mut self, query: &Uri) -> (r: Result<(BackendKind, bool), LibraryError>)
        ensures
            r matches Ok(p) ==> spec_backend_for_uri(query@) == Some(p.0) && p.1 == !old(
                self,
            ).spec_is_cached(p.0) && *final(self) == spec_prepared(*old(self), p.0),
            r matches Err(e) ==> e is UnsupportedService && spec_backend_for_uri(query@) is None
                && *final(self) == *old(self),
    {
        let kind = match &query.host {
            Some(h) => backend_for_host(h),
            None => None,
        };
        match kind {
            None => Err(LibraryError::UnsupportedService),
            Some(BackendKind::Tidal) => {
                if self.tidal.is_some() {
                    Ok((BackendKind::Tidal, false))
                } else {
                    let cfg = match &self.configs.tidal {
                        Some(c) => c.clone(),
                        None => TidalConfig::default(),
                    };
                    self.tidal = Some(TidalClient::new(cfg));
                    Ok((BackendKind::Tidal, true))
                }
            },
            Some(BackendKind::Youtube) => {
                if self.youtube.is_some() {
                    Ok((BackendKind::Youtube, false))
                } else {
                    let cfg = match &self.configs.youtube {
                        Some(c) => c.clone(),
                        None => YoutubeConfig::default(),
                    };
                    self.youtube = Some(YoutubeClient::new(cfg));
                    Ok((BackendKind::Youtube, true))
                }
            },
        }
    }
}

/// Law: client construction is memoized. Demanding a backend's client leaves
/// it cached, demanding it again changes nothing, and so any number of
/// demands for the same backend construct its client at most once.
pub proof fn lemma_client_memoized(s: Clients, k: BackendKind)
    ensures
        spec_prepared(s, k).spec_is_cached(k),
        s.spec_is_cached(k) ==> spec_prepared(s, k) == s,
        spec_prepared(spec_prepared(s, k), k) == spec_prepared(s, k),
{
}

} // verus!
