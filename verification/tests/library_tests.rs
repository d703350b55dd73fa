use djrip::client_config;
use djrip::config::Config;
use djrip::config::Playlist as TrackedPlaylist;
use djrip::library::AddStep;
use djrip::library::Library;
use djrip::playlist::Playlist;
use djrip::track::Track;
use djrip::uri::Uri;

fn uri(s: &str) -> Uri {
    Uri::parse(s).expect("test URL must parse")
}

fn chill_playlist(url: &str) -> Playlist {
    let tracks = vec![
        Track { artist: "Ann".to_owned(), title: "Dawn".to_owned(), url: uri(url) },
        Track { artist: "Ben".to_owned(), title: "Dusk".to_owned(), url: uri(url) },
        Track { artist: "Cid".to_owned(), title: "Noon".to_owned(), url: uri(url) },
    ];
    Playlist { name: "Chill".to_owned(), url: uri(url), tracks }
}

#[test]
fn add_twice_yields_one_entry() {
    let mut lib = Library::new(Config::new());
    let url = "https://tidal.com/playlist/42";
    let resolved = chill_playlist(url);

    let step = lib.add(&uri(url), None, None, &resolved);
    let entry = match step {
        AddStep::DownloadRequired { entry, target_dir } => {
            assert_eq!(target_dir, "Chill");
            entry
        }
        AddStep::MetadataUpdated => panic!("a new source must require a download"),
    };
    lib.finish_add(entry);
    assert_eq!(lib.config.playlists.len(), 1);

    // The same call again merges into the existing entry instead of
    // appending a second one: the source URL is the dedup key.
    let step2 = lib.add(&uri(url), None, None, &resolved);
    assert!(matches!(step2, AddStep::MetadataUpdated));
    assert_eq!(lib.config.playlists.len(), 1);
    assert_eq!(lib.config.playlists[0].name, "Chill");
    assert_eq!(lib.config.playlists[0].url, url);
    assert_eq!(lib.config.playlists[0].subfolder, None);
}

#[test]
fn merge_updates_only_subfolder_when_no_name_given() {
    let mut lib = Library::new(Config::new());
    let url = "https://tidal.com/playlist/7";
    lib.config.playlists.push(TrackedPlaylist {
        name: "Focus".to_owned(),
        url: url.to_owned(),
        subfolder: None,
    });
    let resolved = chill_playlist(url);

    let step = lib.add(&uri(url), None, Some("deep".to_owned()), &resolved);
    assert!(matches!(step, AddStep::MetadataUpdated));
    assert_eq!(lib.config.playlists.len(), 1);
    assert_eq!(lib.config.playlists[0].name, "Focus");
    assert_eq!(lib.config.playlists[0].subfolder, Some("deep".to_owned()));
}

#[test]
fn merge_with_name_overwrites_name_and_clears_subfolder() {
    let mut lib = Library::new(Config::new());
    let url = "https://tidal.com/playlist/7";
    lib.config.playlists.push(TrackedPlaylist {
        name: "Focus".to_owned(),
        url: url.to_owned(),
        subfolder: Some("deep".to_owned()),
    });
    let resolved = chill_playlist(url);

    let step = lib.add(&uri(url), Some("Calm".to_owned()), None, &resolved);
    assert!(matches!(step, AddStep::MetadataUpdated));
    assert_eq!(lib.config.playlists[0].name, "Calm");
    assert_eq!(lib.config.playlists[0].subfolder, None);
}

#[test]
fn supplied_name_overrides_resolved_name_for_new_entry() {
    let mut lib = Library::new(Config::new());
    let url = "https://tidal.com/playlist/9";
    let resolved = chill_playlist(url);

    let step = lib.add(&uri(url), Some("Mine".to_owned()), Some("crate1".to_owned()), &resolved);
    match step {
        AddStep::DownloadRequired { entry, target_dir } => {
            assert_eq!(entry.name, "Mine");
            assert_eq!(entry.url, url);
            assert_eq!(entry.subfolder, Some("crate1".to_owned()));
            // With a subfolder set, the download goes into the subfolder.
            assert_eq!(target_dir, "crate1");
            lib.finish_add(entry);
        }
        AddStep::MetadataUpdated => panic!("a new source must require a download"),
    }
    assert_eq!(lib.config.playlists.len(), 1);
    assert!(lib.contains_url(&url.to_owned()));
}

#[test]
fn failed_download_leaves_state_untouched() {
    // The caller only commits with finish_add after the download succeeded;
    // after add hands back DownloadRequired the state is still unchanged.
    let mut lib = Library::new(Config::new());
    let url = "https://tidal.com/playlist/13";
    let resolved = chill_playlist(url);
    let step = lib.add(&uri(url), None, None, &resolved);
    assert!(matches!(step, AddStep::DownloadRequired { .. }));
    assert_eq!(lib.config.playlists.len(), 0);
    assert!(!lib.contains_url(&url.to_owned()));
}

#[test]
fn end_to_end_add_of_three_track_playlist() {
    // An empty library, a URL resolving to a three-track playlist named
    // "Chill", no overrides: one tracked entry and three planned files under
    // "Chill/".
    let mut lib = Library::new(Config::new());
    let url = "https://tidal.com/playlist/42";
    let resolved = chill_playlist(url);

    let step = lib.add(&uri(url), None, None, &resolved);
    match step {
        AddStep::DownloadRequired { entry, target_dir } => {
            let paths = resolved.download_plan(&target_dir);
            assert_eq!(
                paths,
                vec![
                    "Chill/Ann - Dawn".to_owned(),
                    "Chill/Ben - Dusk".to_owned(),
                    "Chill/Cid - Noon".to_owned(),
                ]
            );
            lib.finish_add(entry);
        }
        AddStep::MetadataUpdated => panic!("a new source must require a download"),
    }
    assert_eq!(lib.config.playlists.len(), 1);
    assert_eq!(lib.config.playlists[0].name, "Chill");
    assert_eq!(lib.config.playlists[0].url, url);
    assert_eq!(lib.config.playlists[0].subfolder, None);
}

#[test]
fn new_library_snapshots_client_configs() {
    let mut config = Config::new();
    config.clients.youtube = Some(client_config::YoutubeConfig {});
    let lib = Library::new(config);
    assert!(lib.clients.configs.youtube.is_some());
    assert!(lib.clients.configs.tidal.is_none());
}
