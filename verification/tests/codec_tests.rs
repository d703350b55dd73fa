use djrip::client_config;
use djrip::codec::encode_config;
use djrip::codec::parse_config;
use djrip::config::Config;
use djrip::config::Playlist;
use djrip::error::LibraryError;

fn sample_config() -> Config {
    Config {
        playlists: vec![
            Playlist {
                name: "Chill".to_owned(),
                url: "https://tidal.com/playlist/42".to_owned(),
                subfolder: None,
            },
            Playlist {
                name: "Focus".to_owned(),
                url: "https://www.youtube.com/playlist?list=abc".to_owned(),
                subfolder: Some("work/music".to_owned()),
            },
        ],
        clients: client_config::Clients {
            youtube: Some(client_config::YoutubeConfig {}),
            tidal: None,
        },
    }
}

#[test]
fn encode_produces_the_documented_lines() {
    let lines = encode_config(&sample_config());
    assert_eq!(
        lines,
        vec![
            "playlist".to_owned(),
            "name: Chill".to_owned(),
            "url: https://tidal.com/playlist/42".to_owned(),
            "playlist".to_owned(),
            "name: Focus".to_owned(),
            "url: https://www.youtube.com/playlist?list=abc".to_owned(),
            "subfolder: work/music".to_owned(),
            "youtube".to_owned(),
        ]
    );
}

#[test]
fn save_then_load_reproduces_the_state() {
    let c = sample_config();
    let lines = encode_config(&c);
    let back = parse_config(&lines).expect("encoded state must parse");
    assert_eq!(back.playlists.len(), 2);
    assert_eq!(back.playlists[0].name, "Chill");
    assert_eq!(back.playlists[0].url, "https://tidal.com/playlist/42");
    assert_eq!(back.playlists[0].subfolder, None);
    assert_eq!(back.playlists[1].name, "Focus");
    assert_eq!(back.playlists[1].url, "https://www.youtube.com/playlist?list=abc");
    assert_eq!(back.playlists[1].subfolder, Some("work/music".to_owned()));
    assert!(back.clients.youtube.is_some());
    assert!(back.clients.tidal.is_none());
}

#[test]
fn empty_state_round_trips_through_no_lines() {
    let c = Config::new();
    let lines = encode_config(&c);
    assert_eq!(lines.len(), 0);
    let back = parse_config(&lines).expect("the empty state must parse");
    assert_eq!(back.playlists.len(), 0);
    assert!(back.clients.youtube.is_none());
    assert!(back.clients.tidal.is_none());
}

#[test]
fn default_state_is_empty() {
    // A missing state file is not an error: the library starts from this
    // default.
    let c = Config::new();
    assert_eq!(c.playlists.len(), 0);
    assert!(c.clients.youtube.is_none());
    assert!(c.clients.tidal.is_none());
}

#[test]
fn hand_written_lines_parse() {
    let lines = vec![
        "playlist".to_owned(),
        "name: Mix".to_owned(),
        "url: https://tidal.com/playlist/1".to_owned(),
        "subfolder: music".to_owned(),
        "tidal".to_owned(),
    ];
    let c = parse_config(&lines).expect("well-formed lines must parse");
    assert_eq!(c.playlists.len(), 1);
    assert_eq!(c.playlists[0].subfolder, Some("music".to_owned()));
    assert!(c.clients.tidal.is_some());
    assert!(c.clients.youtube.is_none());
}

#[test]
fn truncated_record_is_a_read_error() {
    let lines = vec!["playlist".to_owned(), "name: Mix".to_owned()];
    match parse_config(&lines) {
        Err(LibraryError::ConfigReadError(_)) => {}
        _ => panic!("a truncated record must be rejected"),
    }
}

#[test]
fn stray_line_is_a_read_error() {
    let lines = vec!["nonsense".to_owned()];
    match parse_config(&lines) {
        Err(LibraryError::ConfigReadError(_)) => {}
        _ => panic!("an unrecognized line must be rejected"),
    }
    let lines2 = vec!["tidal".to_owned(), "youtube".to_owned()];
    match parse_config(&lines2) {
        Err(LibraryError::ConfigReadError(_)) => {}
        _ => panic!("markers out of order must be rejected"),
    }
}
