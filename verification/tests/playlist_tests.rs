use djrip::error::LibraryError;
use djrip::playlist::download_outcome;
use djrip::playlist::Playlist;
use djrip::track::Track;
use djrip::uri::Uri;

fn uri(s: &str) -> Uri {
    Uri::parse(s).expect("test URL must parse")
}

fn two_track_playlist() -> Playlist {
    Playlist {
        name: "Road".to_owned(),
        url: uri("https://tidal.com/playlist/5"),
        tracks: vec![
            Track { artist: "Ann".to_owned(), title: "Dawn".to_owned(), url: uri("https://tidal.com/track/1") },
            Track { artist: "Ben".to_owned(), title: "Dusk".to_owned(), url: uri("https://tidal.com/track/2") },
        ],
    }
}

#[test]
fn download_plan_has_one_path_per_track() {
    let p = two_track_playlist();
    let paths = p.download_plan(&"Road".to_owned());
    assert_eq!(paths.len(), p.tracks.len());
    assert_eq!(paths, vec!["Road/Ann - Dawn".to_owned(), "Road/Ben - Dusk".to_owned()]);
}

#[test]
fn download_plan_of_empty_playlist_is_empty() {
    let p = Playlist { name: "Void".to_owned(), url: uri("https://tidal.com/playlist/6"), tracks: vec![] };
    assert_eq!(p.download_plan(&"Void".to_owned()).len(), 0);
}

#[test]
fn download_name_is_artist_dash_title() {
    let t = Track {
        artist: "Daft Punk".to_owned(),
        title: "One More Time".to_owned(),
        url: uri("https://tidal.com/track/3"),
    };
    assert_eq!(t.download_name(), "Daft Punk - One More Time");
    assert_eq!(t.download_path(&"Chill".to_owned()), "Chill/Daft Punk - One More Time");
}

#[test]
fn outcome_of_all_successes_is_success() {
    let results: Vec<Result<(), LibraryError>> = vec![Ok(()), Ok(()), Ok(())];
    assert!(download_outcome(&results).is_ok());
    let empty: Vec<Result<(), LibraryError>> = vec![];
    assert!(download_outcome(&empty).is_ok());
}

#[test]
fn outcome_is_the_first_failure() {
    // Fail-fast: the verdict is the first failure in track order, whatever
    // the later outcomes are.
    let results: Vec<Result<(), LibraryError>> = vec![
        Ok(()),
        Err(LibraryError::DownloadFailed("connection reset".to_owned())),
        Ok(()),
        Err(LibraryError::DownloadFailed("disk full".to_owned())),
    ];
    match download_outcome(&results) {
        Err(LibraryError::DownloadFailed(reason)) => assert_eq!(reason, "connection reset"),
        _ => panic!("the first failure must be reported"),
    }
}
