//! The orchestrator: registering a playlist source in the library state.
//!
//! `add` runs as a small state machine. The embedding process first resolves
//! the URL through the client registry and the backend's network protocol;
//! [`Library::add`] then either merges metadata into the already-tracked
//! entry for that source, or hands back the record and target directory for
//! a first-time download. Only when every track download has succeeded is
//! the new record committed with [`Library::finish_add`]; a failed or
//! unsupported resolution, or a failed download, leaves the state untouched.

use vstd::prelude::*;

use crate::clients;
use crate::config::urls_unique;
use crate::config::Config;
use crate::config::Playlist;
use crate::uri::Uri;

verus! {

/// The index of the first tracked playlist at or after `i` whose source is
/// `t`.
pub open spec fn find_from(ps: Seq<Playlist>, t: Seq<char>, i: int) -> Option<int>
    decreases ps.len() - i when 0 <= i <= ps.len()
{
    if i >= ps.len() {
        None
    } else if ps[i].url@ == t {
        Some(i)
    } else {
        find_from(ps, t, i + 1)
    }
}

/// The index of the first tracked playlist whose source is `t`.
pub open spec fn spec_find(ps: Seq<Playlist>, t: Seq<char>) -> Option<int> {
    find_from(ps, t, 0)
}

/// An existing entry after `add` merged new metadata into it: a supplied
/// name overwrites the stored one, an absent name leaves it; the subfolder
/// is always overwritten with the supplied value, clearing it when none was
/// supplied. The source never changes.
pub open spec fn spec_merged(p: Playlist, name: Option<String>, subfolder: Option<String>) -> Playlist {
    Playlist {
        name: match name {
            Some(n) => n,
            None => p.name,
        },
        url: p.url,
        subfolder,
    }
}

/// The record registered for a first-time source: the supplied name, or else
/// the resolved playlist's own name; the source the backend resolved; the
/// supplied subfolder.
pub open spec fn spec_new_entry(
    name: Option<String>,
    resolved_name: String,
    resolved_url: String,
    subfolder: Option<String>,
) -> Playlist {
    Playlist {
        name: match name {
            Some(n) => n,
            None => resolved_name,
        },
        url: resolved_url,
        subfolder,
    }
}

/// Where a tracked playlist is mirrored: its subfolder when set, else a
/// directory named after the playlist.
pub open spec fn spec_target_dir(e: Playlist) -> String {
    match e.subfolder {
        Some(s) => s,
        None => e.name,
    }
}

/// The tracked playlists after one complete, successful `add` of `url`:
/// merge into the first entry with that source, or append the new record.
pub open spec fn spec_add(
    ps: Seq<Playlist>,
    url: Seq<char>,
    name: Option<String>,
    subfolder: Option<String>,
    resolved_name: String,
    resolved_url: String,
) -> Seq<Playlist> {
    match spec_find(ps, url) {
        Some(i) => ps.update(i, spec_merged(ps[i], name, subfolder)),
        None => ps.push(spec_new_entry(name, resolved_name, resolved_url, subfolder)),
    }
}

/// What `add` decided: the source was already tracked and only its metadata
/// changed, or it is new and its tracks must be downloaded into `target_dir`
/// before `entry` is committed.
pub enum AddStep {
    MetadataUpdated,
    DownloadRequired { entry: Playlist, target_dir: String },
}

/// The first index at or after `i` holding `t`, as executable search.
fn find_tracked(ps: &Vec<Playlist>, t: &String) -> (r: Option<usize>)
    ensures
        r matches Some(i) ==> 0 <= i < ps@.len() && spec_find(ps@, t@) == Some(i as int),
        r is None ==> spec_find(ps@, t@) is None,
{
    let mut i: usize = 0;
    while i < ps.len()
        invariant
            0 <= i <= ps@.len(),
            spec_find(ps@, t@) == find_from(ps@, t@, i as int),
        decreases ps@.len() - i,
    {
        if ps[i].url == *t {
            return Some(i);
        }
        i = i + 1;
    }
    None
}

/// The library manager: the durable state and the client registry over the
/// same per-backend settings.
pub struct Library {
    pub config: Config,
    pub clients: clients::Clients,
}

impl Library {
    /// A library over a loaded (or default) state. The registry starts from
    /// a snapshot of the state's per-backend settings and has constructed no
    /// client yet.
    pub fn new(config: Config) -> (r: Self)
        ensures
            r.config == config,
            r.clients == (clients::Clients { configs: config.clients, youtube: None, tidal: None }),
    {
        let registry = clients::Clients::new(config.clients.clone());
        Library { config, clients: registry }
    }

    /// True when a source with this serialization is already tracked.
    pub fn contains_url(&self, url_text: &String) -> (r: bool)
        ensures
            r == (spec_find(self.config.playlists@, url_text@) is Some),
    {
        match find_tracked(&self.config.playlists, url_text) {
            Some(_) => true,
            None => false,
        }
    }

    /// Register a resolved playlist under `url`. If the source is already
    /// tracked, merge the supplied metadata into its entry — no download —
    /// and the tracked playlists become exactly `spec_add` of the old ones.
    /// If it is new, nothing is changed yet: the returned record and target
    /// directory describe the download that must succeed first, after which
    /// [`Library::finish_add`] commits the record.
    pub fn add(
        &mut self,
        url: &Uri,
        name: Option<String>,
        subfolder: Option<String>,
        resolved: &crate::playlist::Playlist,
    ) -> (r: AddStep)
        ensures
            r is MetadataUpdated <==> spec_find(old(self).config.playlists@, url@.text) is Some,
            r is MetadataUpdated ==> final(self).config.playlists@ == spec_add(
                old(self).config.playlists@,
                url@.text,
                name,
                subfolder,
                resolved.name,
                resolved.url.text,
            ) && final(self).config.playlists@.len() == old(self).config.playlists@.len()
                && final(self).config.clients == old(self).config.clients
                && final(self).clients == old(self).clients,
            r is MetadataUpdated && urls_unique(old(self).config.playlists@) ==> urls_unique(
                final(self).config.playlists@,
            ),
            r matches AddStep::DownloadRequired { entry, target_dir } ==> *final(self) == *old(self)
                && entry == spec_new_entry(name, resolved.name, resolved.url.text, subfolder)
                && target_dir == spec_target_dir(entry) && spec_find(
                old(self).config.playlists@,
                url@.text,
            ) is None,
    {
        match find_tracked(&self.config.playlists, &url.text) {
            Some(i) => {
                let merged = Playlist {
                    name: match &name {
                        Some(n) => n.clone(),
                        None => self.config.playlists[i].name.clone(),
                    },
                    url: self.config.playlists[i].url.clone(),
                    subfolder: match &subfolder {
                        Some(s) => Some(s.clone()),
                        None => None,
                    },
                };
                self.config.playlists[i] = merged;
                proof {
                    let ps0 = old(self).config.playlists@;
                    let ps1 = self.config.playlists@;
                    assert(ps1 =~= ps0.update(i as int, spec_merged(ps0[i as int], name, subfolder)));
                    if urls_unique(ps0) {
                        assert forall|a: int, b: int| 0 <= a < b < ps1.len() implies ps1[a].url@
                            != ps1[b].url@ by {
                            assert(ps1[a].url@ == ps0[a].url@);
                            assert(ps1[b].url@ == ps0[b].url@);
                        }
                    }
                }
                AddStep::MetadataUpdated
            },
            None => {
                let entry = Playlist {
                    name: match &name {
                        Some(n) => n.clone(),
                        None => resolved.name.clone(),
                    },
                    url: resolved.url.text.clone(),
                    subfolder: match &subfolder {
                        Some(s) => Some(s.clone()),
                        None => None,
                    },
                };
                let target_dir = match &entry.subfolder {
                    Some(s) => s.clone(),
                    None => entry.name.clone(),
                };
                AddStep::DownloadRequired { entry, target_dir }
            },
        }
    }

    /// Commit the record of a first-time source once its download succeeded:
    /// append it to the tracked playlists. Everything else is unchanged, and
    /// source uniqueness is preserved.
    pub fn finish_add(&mut self, entry: Playlist)
        requires
            spec_find(old(self).config.playlists@, entry.url@) is None,
        ensures
            final(self).config.playlists@ == old(self).config.playlists@.push(entry),
            final(self).config.clients == old(self).config.clients,
            final(self).clients == old(self).clients,
            urls_unique(old(self).config.playlists@) ==> urls_unique(final(self).config.playlists@),
    {
        proof {
            lemma_find_from_none(self.config.playlists@, entry.url@, 0);
        }
        self.config.playlists.push(entry);
    }
}

/// A failed search means no entry at or after `i` has source `t`.
proof fn lemma_find_from_none(ps: Seq<Playlist>, t: Seq<char>, i: int)
    requires
        0 <= i <= ps.len(),
        find_from(ps, t, i) is None,
    ensures
        forall|j: int| i <= j < ps.len() ==> ps[j].url@ != t,
    decreases ps.len() - i,
{
    if i < ps.len() {
        lemma_find_from_none(ps, t, i + 1);
    }
}

/// A successful search returns the first match at or after `i`.
proof fn lemma_find_from_some(ps: Seq<Playlist>, t: Seq<char>, i: int)
    requires
        0 <= i <= ps.len(),
        find_from(ps, t, i) is Some,
    ensures
        i <= find_from(ps, t, i).unwrap() < ps.len(),
        ps[find_from(ps, t, i).unwrap()].url@ == t,
        forall|j: int| i <= j < find_from(ps, t, i).unwrap() ==> ps[j].url@ != t,
    decreases ps.len() - i,
{
    if i < ps.len() && ps[i].url@ != t {
        lemma_find_from_some(ps, t, i + 1);
    }
}

/// Searching depends only on the sources: two lists whose entries name the
/// same urls position for position are searched alike.
proof fn lemma_find_from_same_urls(a: Seq<Playlist>, b: Seq<Playlist>, t: Seq<char>, i: int)
    requires
        a.len() == b.len(),
        forall|k: int| 0 <= k < a.len() ==> a[k].url@ == b[k].url@,
        0 <= i <= a.len(),
    ensures
        find_from(a, t, i) == find_from(b, t, i),
    decreases a.len() - i,
{
    if i < a.len() {
        lemma_find_from_same_urls(a, b, t, i + 1);
    }
}

/// Appending an entry that matches `t` to a list with no match makes it the
/// first match.
proof fn lemma_find_from_push(ps: Seq<Playlist>, e: Playlist, t: Seq<char>, i: int)
    requires
        0 <= i <= ps.len(),
        forall|j: int| 0 <= j < ps.len() ==> ps[j].url@ != t,
        e.url@ == t,
    ensures
        find_from(ps.push(e), t, i) == Some(ps.len() as int),
    decreases ps.len() - i,
{
    if i < ps.len() {
        lemma_find_from_push(ps, e, t, i + 1);
    }
}

/// Law: merging supplied metadata into a tracked entry updates only what was
/// supplied — an absent name leaves the stored name, a supplied name
/// overwrites it; the subfolder always becomes the supplied value, including
/// clearing it when none was supplied; the source never changes.
pub proof fn lemma_merge_semantics(p: Playlist, name: Option<String>, subfolder: Option<String>)
    ensures
        spec_merged(p, name, subfolder).url == p.url,
        spec_merged(p, name, subfolder).subfolder == subfolder,
        name is None ==> spec_merged(p, name, subfolder).name == p.name,
        name matches Some(n) ==> spec_merged(p, name, subfolder).name == n,
{
}

/// Law: `add` preserves source uniqueness, provided the backend echoes the
/// source it resolved (`resolved_url` serializes the queried `url`).
pub proof fn lemma_add_preserves_unique_sources(
    ps: Seq<Playlist>,
    url: Seq<char>,
    name: Option<String>,
    subfolder: Option<String>,
    resolved_name: String,
    resolved_url: String,
)
    requires
        urls_unique(ps),
        resolved_url@ == url,
    ensures
        urls_unique(spec_add(ps, url, name, subfolder, resolved_name, resolved_url)),
{
    let ps1 = spec_add(ps, url, name, subfolder, resolved_name, resolved_url);
    match spec_find(ps, url) {
        Some(i) => {
            lemma_find_from_some(ps, url, 0);
            assert forall|a: int, b: int| 0 <= a < b < ps1.len() implies ps1[a].url@
                != ps1[b].url@ by {
                assert(ps1[a].url@ == ps[a].url@);
                assert(ps1[b].url@ == ps[b].url@);
            }
        },
        None => {
            lemma_find_from_none(ps, url, 0);
            assert forall|a: int, b: int| 0 <= a < b < ps1.len() implies ps1[a].url@
                != ps1[b].url@ by {
                if b < ps.len() {
                    assert(ps1[a].url@ == ps[a].url@);
                    assert(ps1[b].url@ == ps[b].url@);
                } else {
                    assert(ps1[b].url@ == url);
                    assert(ps1[a].url@ == ps[a].url@);
                }
            }
        },
    }
}

/// Law: one complete `add` is idempotent — running the same `add` again,
/// with the same arguments and the same resolution, leaves the tracked
/// playlists exactly as after the first run; the source is the dedup key, so
/// the second run merges instead of appending a second entry. Holds whenever
/// the backend echoes the source it resolved (`resolved_url` serializes the
/// queried `url`).
pub proof fn lemma_add_idempotent(
    ps: Seq<Playlist>,
    url: Seq<char>,
    name: Option<String>,
    subfolder: Option<String>,
    resolved_name: String,
    resolved_url: String,
)
    requires
        resolved_url@ == url,
    ensures
        spec_add(
            spec_add(ps, url, name, subfolder, resolved_name, resolved_url),
            url,
            name,
            subfolder,
            resolved_name,
            resolved_url,
        ) == spec_add(ps, url, name, subfolder, resolved_name, resolved_url),
{
    let ps1 = spec_add(ps, url, name, subfolder, resolved_name, resolved_url);
    match spec_find(ps, url) {
        Some(i) => {
            lemma_find_from_some(ps, url, 0);
            let m = spec_merged(ps[i], name, subfolder);
            assert(ps1 == ps.update(i, m));
            lemma_find_from_same_urls(ps, ps1, url, 0);
            assert(spec_find(ps1, url) == Some(i));
            assert(spec_merged(ps1[i], name, subfolder) == m);
            assert(ps1.update(i, m) =~= ps1);
        },
        None => {
            lemma_find_from_none(ps, url, 0);
            let e = spec_new_entry(name, resolved_name, resolved_url, subfolder);
            assert(ps1 == ps.push(e));
            lemma_find_from_push(ps, e, url, 0);
            assert(spec_find(ps1, url) == Some(ps.len() as int));
            assert(spec_merged(e, name, subfolder) == e);
            assert(ps1.update(ps.len() as int, e) =~= ps1);
        },
    }
}

} // verus!
