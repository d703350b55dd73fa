//! A personal media-library manager: it tracks named playlists sourced from
//! streaming services, resolves a playlist URL to the backend that owns it,
//! merges newly resolved playlists into the durable library state, and plans
//! the per-track downloads that mirror a playlist locally.
//!
//! The modules hold, leaves first: [`uri`] the model of an absolute URL,
//! [`track`] a single media item, [`playlist`] a resolved playlist and its
//! download plan, [`client_config`] per-backend settings, [`tidal`] and
//! [`youtube`] the backend clients, [`clients`] the registry that picks and
//! memoizes a client by URL host, [`config`] the durable library state,
//! [`codec`] its text encoding, and [`library`] the `add` orchestration.

pub mod client_config;
pub mod clients;
pub mod codec;
pub mod config;
pub mod error;
pub mod library;
pub mod playlist;
pub mod tidal;
pub mod track;
pub mod uri;
pub mod youtube;

pub use error::LibraryError;
pub use library::Library;
pub use track::Track;
pub use uri::Uri;
