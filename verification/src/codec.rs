//! The text encoding of the durable library state: a human-editable,
//! line-based format, one line per field. A tracked playlist is the line
//! `playlist` followed by `name: `, `url: ` and, when set, `subfolder: `
//! lines; a configured backend is recorded by its marker line (`youtube`,
//! `tidal`), omitted entirely while the backend has no stored settings.
//!
//! Encoding and parsing are inverse: parsing what was encoded gives back the
//! same state. Reading and writing the file that holds the lines is the
//! embedding process's work.

use vstd::prelude::*;
use vstd::string::*;

use crate::client_config;
use crate::client_config::TidalConfig;
use crate::client_config::YoutubeConfig;
use crate::config::Config;
use crate::config::Playlist;
use crate::error::LibraryError;

verus! {

/// The persisted image of one tracked playlist.
pub ghost struct PlaylistV {
    pub name: Seq<char>,
    pub url: Seq<char>,
    pub subfolder: Option<Seq<char>>,
}

/// The persisted image of the whole state: the tracked playlists in order,
/// and whether each backend has a stored settings record.
pub ghost struct ConfigV {
    pub playlists: Seq<PlaylistV>,
    pub youtube: bool,
    pub tidal: bool,
}

/// The persisted image of a tracked playlist value.
pub open spec fn view_playlist(p: Playlist) -> PlaylistV {
    PlaylistV {
        name: p.name@,
        url: p.url@,
        subfolder: match p.subfolder {
            Some(s) => Some(s@),
            None => None,
        },
    }
}

/// The persisted image of a list of tracked playlists.
pub open spec fn view_playlists(ps: Seq<Playlist>) -> Seq<PlaylistV> {
    ps.map_values(|p: Playlist| view_playlist(p))
}

/// The persisted image of a state value.
pub open spec fn view_config(c: Config) -> ConfigV {
    ConfigV {
        playlists: view_playlists(c.playlists@),
        youtube: c.clients.youtube is Some,
        tidal: c.clients.tidal is Some,
    }
}

/// The lines one tracked playlist encodes to.
pub open spec fn encode_playlist(p: PlaylistV) -> Seq<Seq<char>> {
    let base = seq!["playlist"@, "name: "@ + p.name, "url: "@ + p.url];
    match p.subfolder {
        Some(s) => base.push("subfolder: "@ + s),
        None => base,
    }
}

/// The lines a list of tracked playlists encodes to, in order.
pub open spec fn encode_playlists(ps: Seq<PlaylistV>) -> Seq<Seq<char>>
    decreases ps.len(),
{
    if ps.len() == 0 {
        Seq::empty()
    } else {
        encode_playlist(ps[0]) + encode_playlists(ps.drop_first())
    }
}

/// The marker lines of the configured backends.
pub open spec fn encode_markers(youtube: bool, tidal: bool) -> Seq<Seq<char>> {
    (if youtube {
        seq!["youtube"@]
    } else {
        Seq::<Seq<char>>::empty()
    }) + (if tidal {
        seq!["tidal"@]
    } else {
        Seq::<Seq<char>>::empty()
    })
}

/// The lines a whole state encodes to: the playlists, then the markers.
pub open spec fn spec_encode(v: ConfigV) -> Seq<Seq<char>> {
    encode_playlists(v.playlists) + encode_markers(v.youtube, v.tidal)
}

/// The value of a line under a field prefix: the rest of the line when the
/// line starts with exactly that prefix, else nothing.
pub open spec fn spec_strip(l: Seq<char>, p: Seq<char>) -> Option<Seq<char>> {
    if p.len() <= l.len() && l.subrange(0, p.len() as int) == p {
        Some(l.subrange(p.len() as int, l.len() as int))
    } else {
        None
    }
}

/// Parse tracked playlist records from the front of the lines; yields the
/// records and the unconsumed lines, or nothing when a record is malformed.
pub open spec fn parse_playlists(ls: Seq<Seq<char>>) -> Option<(Seq<PlaylistV>, Seq<Seq<char>>)>
    decreases ls.len(),
{
    if ls.len() == 0 || ls[0] != "playlist"@ {
        Some((Seq::empty(), ls))
    } else if ls.len() < 3 {
        None
    } else {
        match (spec_strip(ls[1], "name: "@), spec_strip(ls[2], "url: "@)) {
            (Some(nm), Some(ur)) => {
                let has_sub = ls.len() >= 4 && spec_strip(ls[3], "subfolder: "@) is Some;
                let sub = if has_sub {
                    Some(spec_strip(ls[3], "subfolder: "@).unwrap())
                } else {
                    None
                };
                let rest0 = if has_sub {
                    ls.skip(4)
                } else {
                    ls.skip(3)
                };
                match parse_playlists(rest0) {
                    Some((ps, rest)) => Some(
                        (
                            Seq::empty().push(PlaylistV { name: nm, url: ur, subfolder: sub })
                                + ps,
                            rest,
                        ),
                    ),
                    None => None,
                }
            },
            _ => None,
        }
    }
}

/// Consume one marker line if it is next.
pub open spec fn parse_marker(ls: Seq<Seq<char>>, w: Seq<char>) -> (bool, Seq<Seq<char>>) {
    if ls.len() > 0 && ls[0] == w {
        (true, ls.drop_first())
    } else {
        (false, ls)
    }
}

/// Parse a whole state: the playlist records, then the backend markers, then
/// nothing else; any leftover line means the text is not a state.
pub open spec fn spec_parse(ls: Seq<Seq<char>>) -> Option<ConfigV> {
    match parse_playlists(ls) {
        Some((ps, rest)) => {
            let (yt, rest1) = parse_marker(rest, "youtube"@);
            let (td, rest2) = parse_marker(rest1, "tidal"@);
            if rest2.len() == 0 {
                Some(ConfigV { playlists: ps, youtube: yt, tidal: td })
            } else {
                None
            }
        },
        None => None,
    }
}

/// Stripping a prefix off the line it was prepended to gives back the value.
proof fn lemma_strip_concat(p: Seq<char>, v: Seq<char>)
    ensures
        spec_strip(p + v, p) == Some(v),
{
    assert((p + v).subrange(0, p.len() as int) =~= p);
    assert((p + v).subrange(p.len() as int, (p + v).len() as int) =~= v);
}

/// Encoding distributes over list concatenation.
proof fn lemma_encode_app(a: Seq<PlaylistV>, b: Seq<PlaylistV>)
    ensures
        encode_playlists(a + b) == encode_playlists(a) + encode_playlists(b),
    decreases a.len(),
{
    if a.len() == 0 {
        assert(a + b =~= b);
        assert(encode_playlists(a) + encode_playlists(b) =~= encode_playlists(b));
    } else {
        assert((a + b).drop_first() =~= a.drop_first() + b);
        lemma_encode_app(a.drop_first(), b);
        assert((a + b)[0] == a[0]);
        assert(encode_playlist(a[0]) + (encode_playlists(a.drop_first()) + encode_playlists(b))
            =~= (encode_playlist(a[0]) + encode_playlists(a.drop_first())) + encode_playlists(b));
    }
}

/// Parsing the encoding of a playlist list, followed by lines that open no
/// record and carry no subfolder field, consumes exactly the encoding and
/// gives back the list.
proof fn lemma_parse_encode_playlists(ps: Seq<PlaylistV>, tail: Seq<Seq<char>>)
    requires
        tail.len() == 0 || (tail[0] != "playlist"@ && spec_strip(tail[0], "subfolder: "@) is None),
    ensures
        parse_playlists(encode_playlists(ps) + tail) == Some((ps, tail)),
    decreases ps.len(),
{
    reveal_strlit("playlist");
    reveal_strlit("subfolder: ");
    if ps.len() == 0 {
        assert(encode_playlists(ps) + tail =~= tail);
        assert(ps =~= Seq::<PlaylistV>::empty());
        if tail.len() > 0 {
            assert(parse_playlists(tail) == Some((Seq::<PlaylistV>::empty(), tail)));
        }
    } else {
        let p = ps[0];
        let enc0 = encode_playlist(p);
        let rest_enc = encode_playlists(ps.drop_first());
        let ls = encode_playlists(ps) + tail;
        assert(encode_playlists(ps) == enc0 + rest_enc);
        assert(ls =~= enc0 + (rest_enc + tail));
        lemma_strip_concat("name: "@, p.name);
        lemma_strip_concat("url: "@, p.url);
        lemma_parse_encode_playlists(ps.drop_first(), tail);
        match p.subfolder {
            Some(s) => {
                lemma_strip_concat("subfolder: "@, s);
                assert(ls[0] == "playlist"@);
                assert(ls[1] == "name: "@ + p.name);
                assert(ls[2] == "url: "@ + p.url);
                assert(ls[3] == "subfolder: "@ + s);
                assert(ls.len() >= 4);
                assert(ls.skip(4) =~= rest_enc + tail);
                assert(parse_playlists(ls.skip(4)) == Some((ps.drop_first(), tail)));
                assert(Seq::empty().push(
                    PlaylistV { name: p.name, url: p.url, subfolder: Some(s) },
                ) + ps.drop_first() =~= ps);
            },
            None => {
                assert(ls[0] == "playlist"@);
                assert(ls[1] == "name: "@ + p.name);
                assert(ls[2] == "url: "@ + p.url);
                assert(ls.len() >= 3);
                if ls.len() >= 4 {
                    assert(ls[3] == (rest_enc + tail)[0]);
                    if rest_enc.len() > 0 {
                        assert(rest_enc == encode_playlist(ps.drop_first()[0])
                            + encode_playlists(ps.drop_first().drop_first()));
                        assert((rest_enc + tail)[0] == "playlist"@);
                        assert(spec_strip(ls[3], "subfolder: "@) is None);
                    } else {
                        assert(rest_enc + tail =~= tail);
                        assert(spec_strip(ls[3], "subfolder: "@) is None);
                    }
                }
                assert(ls.skip(3) =~= rest_enc + tail);
                assert(parse_playlists(ls.skip(3)) == Some((ps.drop_first(), tail)));
                assert(Seq::empty().push(PlaylistV { name: p.name, url: p.url, subfolder: None })
                    + ps.drop_first() =~= ps);
            },
        }
    }
}

/// True exactly when the line equals the literal `w`.
fn line_is(line: &String, w: &str) -> (b: bool)
    ensures
        b == (line@ == w@),
{
    let ws: String = w.to_owned();
    *line == ws
}

/// The value of a line under a field prefix, as executable code: the rest of
/// the line when it starts with exactly the prefix.
fn strip_prefix_line(line: &String, p: &str) -> (r: Option<String>)
    ensures
        r matches Some(v) ==> spec_strip(line@, p@) == Some(v@),
        r is None ==> spec_strip(line@, p@) is None,
{
    let n = p.unicode_len();
    let m = line.as_str().unicode_len();
    if m < n {
        return None;
    }
    let head = line.as_str().substring_char(0, n);
    let head_s: String = head.to_owned();
    let p_s: String = p.to_owned();
    if head_s == p_s {
        let v: String = line.as_str().substring_char(n, m).to_owned();
        Some(v)
    } else {
        None
    }
}

/// Encode a state into its lines.
pub fn encode_config(c: &Config) -> (r: Vec<String>)
    ensures
        r.deep_view() == spec_encode(view_config(*c)),
{
    let mut lines: Vec<String> = Vec::new();
    let mut i: usize = 0;
    proof {
        assert(view_playlists(c.playlists@).take(0) =~= Seq::<PlaylistV>::empty());
        assert(lines.deep_view() =~= Seq::<Seq<char>>::empty());
    }
    while i < c.playlists.len()
        invariant
            i <= c.playlists@.len(),
            lines.deep_view() == encode_playlists(view_playlists(c.playlists@).take(i as int)),
        decreases c.playlists@.len() - i,
    {
        let ghost pre = lines.deep_view();
        let p = &c.playlists[i];
        lines.push("playlist".to_owned());
        let mut l1: String = "name: ".to_owned();
        l1.append(p.name.as_str());
        lines.push(l1);
        let mut l2: String = "url: ".to_owned();
        l2.append(p.url.as_str());
        lines.push(l2);
        match &p.subfolder {
            Some(s) => {
                let mut l3: String = "subfolder: ".to_owned();
                l3.append(s.as_str());
                lines.push(l3);
            },
            None => {},
        }
        proof {
            let ghost pv = view_playlist(c.playlists@[i as int]);
            assert(lines.deep_view() =~= pre + encode_playlist(pv));
            assert(seq![pv].drop_first() =~= Seq::<PlaylistV>::empty());
            assert(encode_playlists(Seq::<PlaylistV>::empty()) == Seq::<Seq<char>>::empty());
            assert(encode_playlist(pv) + Seq::<Seq<char>>::empty() =~= encode_playlist(pv));
            assert(encode_playlists(seq![pv]) =~= encode_playlist(pv));
            lemma_encode_app(view_playlists(c.playlists@).take(i as int), seq![pv]);
            assert(view_playlists(c.playlists@).take(i as int + 1) =~= view_playlists(
                c.playlists@,
            ).take(i as int) + seq![pv]);
        }
        i = i + 1;
    }
    proof {
        assert(view_playlists(c.playlists@).take(i as int) =~= view_playlists(c.playlists@));
    }
    match &c.clients.youtube {
        Some(_) => lines.push("youtube".to_owned()),
        None => {},
    }
    match &c.clients.tidal {
        Some(_) => lines.push("tidal".to_owned()),
        None => {},
    }
    proof {
        assert(lines.deep_view() =~= spec_encode(view_config(*c)));
    }
    lines
}

/// Parse tracked playlist records from `lines` starting at `start`, as
/// executable code mirroring [`parse_playlists`].
fn parse_playlists_exec(lines: &Vec<String>, start: usize) -> (r: Option<(Vec<Playlist>, usize)>)
    requires
        start <= lines@.len(),
    ensures
        r matches Some(pr) ==> start <= pr.1 <= lines@.len() && parse_playlists(
            lines.deep_view().skip(start as int),
        ) == Some((view_playlists(pr.0@), lines.deep_view().skip(pr.1 as int))),
        r is None ==> parse_playlists(lines.deep_view().skip(start as int)) is None,
    decreases lines@.len() - start,
{
    let ghost ls = lines.deep_view().skip(start as int);
    if start == lines.len() {
        proof {
            assert(view_playlists(Seq::<Playlist>::empty()) =~= Seq::<PlaylistV>::empty());
        }
        return Some((Vec::new(), start));
    }
    if !line_is(&lines[start], "playlist") {
        proof {
            assert(ls[0] == lines.deep_view()[start as int]);
            assert(view_playlists(Seq::<Playlist>::empty()) =~= Seq::<PlaylistV>::empty());
        }
        return Some((Vec::new(), start));
    }
    if lines.len() - start < 3 {
        return None;
    }
    let nm = match strip_prefix_line(&lines[start + 1], "name: ") {
        Some(v) => v,
        None => {
            return None;
        },
    };
    let ur = match strip_prefix_line(&lines[start + 2], "url: ") {
        Some(v) => v,
        None => {
            return None;
        },
    };
    let (sub, next): (Option<String>, usize) = if start + 3 < lines.len() {
        match strip_prefix_line(&lines[start + 3], "subfolder: ") {
            Some(s) => (Some(s), start + 4),
            None => (None, start + 3),
        }
    } else {
        (None, start + 3)
    };
    proof {
        assert(ls.skip(next as int - start as int) =~= lines.deep_view().skip(next as int));
    }
    match parse_playlists_exec(lines, next) {
        Some(pr) => {
            let (mut ps, end) = pr;
            let entry = Playlist { name: nm, url: ur, subfolder: sub };
            let ghost tail_ps = view_playlists(ps@);
            ps.insert(0, entry);
            proof {
                assert(view_playlists(ps@) =~= Seq::empty().push(view_playlist(entry)) + tail_ps);
            }
            Some((ps, end))
        },
        None => None,
    }
}

/// Parse a whole state from its lines. A well-formed text yields the state
/// it denotes; anything else is rejected as unreadable.
#[verifier::rlimit(50)]
pub fn parse_config(lines: &Vec<String>) -> (r: Result<Config, LibraryError>)
    ensures
        r matches Ok(c) ==> spec_parse(lines.deep_view()) == Some(view_config(c)),
        r matches Err(e) ==> e is ConfigReadError && spec_parse(lines.deep_view()) is None,
{
    proof {
        assert(lines.deep_view().skip(0) =~= lines.deep_view());
    }
    match parse_playlists_exec(lines, 0) {
        None => Err(LibraryError::ConfigReadError("malformed playlist record".to_owned())),
        Some(pr) => {
            let (ps, mut i) = pr;
            let ghost rest = lines.deep_view().skip(i as int);
            let mut yt = false;
            let mut td = false;
            if i < lines.len() && line_is(&lines[i], "youtube") {
                yt = true;
                i = i + 1;
                proof {
                    assert(rest.drop_first() =~= lines.deep_view().skip(i as int));
                }
            }
            let ghost rest1 = lines.deep_view().skip(i as int);
            proof {
                assert(parse_marker(rest, "youtube"@) == (yt, rest1));
            }
            if i < lines.len() && line_is(&lines[i], "tidal") {
                td = true;
                i = i + 1;
                proof {
                    assert(rest1.drop_first() =~= lines.deep_view().skip(i as int));
                }
            }
            let ghost rest2 = lines.deep_view().skip(i as int);
            proof {
                assert(parse_marker(rest1, "tidal"@) == (td, rest2));
            }
            if i != lines.len() {
                return Err(LibraryError::ConfigReadError("unrecognized trailing line".to_owned()));
            }
            proof {
                assert(rest2.len() == 0);
            }
            let c = Config {
                playlists: ps,
                clients: client_config::Clients {
                    youtube: if yt {
                        Some(YoutubeConfig {  })
                    } else {
                        None
                    },
                    tidal: if td {
                        Some(TidalConfig {  })
                    } else {
                        None
                    },
                },
            };
            Ok(c)
        },
    }
}

/// Law: persistence round trip — parsing the lines a state encodes to gives
/// back exactly that state: the same tracked playlists, with name, source
/// and subfolder intact, and the same set of configured backends.
pub proof fn lemma_config_round_trip(v: ConfigV)
    ensures
        spec_parse(spec_encode(v)) == Some(v),
{
    reveal_strlit("playlist");
    reveal_strlit("subfolder: ");
    reveal_strlit("youtube");
    reveal_strlit("tidal");
    let tail = encode_markers(v.youtube, v.tidal);
    if v.youtube {
        if v.tidal {
            assert(tail =~= seq!["youtube"@, "tidal"@]);
        } else {
            assert(tail =~= seq!["youtube"@]);
        }
    } else {
        if v.tidal {
            assert(tail =~= seq!["tidal"@]);
        } else {
            assert(tail =~= Seq::<Seq<char>>::empty());
        }
    }
    lemma_parse_encode_playlists(v.playlists, tail);
    if v.youtube {
        assert(parse_marker(tail, "youtube"@) == (true, tail.drop_first()));
        if v.tidal {
            assert(tail.drop_first() =~= seq!["tidal"@]);
            assert(parse_marker(tail.drop_first(), "tidal"@).1 =~= Seq::<Seq<char>>::empty());
        } else {
            assert(tail.drop_first() =~= Seq::<Seq<char>>::empty());
        }
    } else {
        if v.tidal {
            assert(parse_marker(tail, "youtube"@) == (false, tail));
            assert(parse_marker(tail, "tidal"@).1 =~= Seq::<Seq<char>>::empty());
        }
    }
}

} // verus!
