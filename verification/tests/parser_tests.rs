use lastfm_archive::errors::ArchiveError;
use lastfm_archive::model::Track;
use lastfm_archive::parser::from_slice;

fn track_xml(name: &str, uts: i64) -> String {
    format!(
        "<track><artist mbid=\"a-1\">The Artist</artist><album mbid=\"b-1\">The Album</album><mbid>t-1</mbid><name>{}</name><date uts=\"{}\">whenever</date></track>",
        name, uts
    )
}

fn ok_body(page: u64, total_pages: u64, total: &str, tracks: &str) -> Vec<u8> {
    format!(
        "<lfm status=\"ok\"><recenttracks page=\"{}\" totalPages=\"{}\"{}>{}</recenttracks></lfm>",
        page, total_pages, total, tracks
    )
    .into_bytes()
}

#[test]
fn parses_one_track() {
    let body = ok_body(1, 1, " total=\"1\"", &track_xml("Song", 1700000000));
    let resp = from_slice(&body).unwrap();
    assert_eq!(resp.page, 1);
    assert_eq!(resp.total_pages, 1);
    assert_eq!(resp.total_tracks, 1);
    assert_eq!(resp.tracks.len(), 1);
    let t = &resp.tracks[0];
    assert_eq!(t.name, "Song");
    assert_eq!(t.time, 1700000000);
    assert_eq!(t.mbid.as_deref(), Some("t-1"));
    let artist = t.artist.as_ref().unwrap();
    assert_eq!(artist.name, "The Artist");
    assert_eq!(artist.mbid.as_deref(), Some("a-1"));
    let album = t.album.as_ref().unwrap();
    assert_eq!(album.name, "The Album");
    assert_eq!(album.mbid.as_deref(), Some("b-1"));
}

#[test]
fn now_playing_is_dropped() {
    let playing = "<track nowplaying=\"true\"><artist>X</artist><album>Y</album><mbid>z</mbid><name>Playing</name></track>";
    let tracks = format!("{}{}{}", playing, track_xml("First", 200), track_xml("Second", 100));
    let body = ok_body(1, 1, " total=\"3\"", &tracks);
    let resp = from_slice(&body).unwrap();
    assert_eq!(resp.tracks.len(), 2);
    assert_eq!(resp.tracks[0].name, "First");
    assert_eq!(resp.tracks[1].name, "Second");
    for t in &resp.tracks {
        assert_ne!(t.name, "Playing");
    }
}

#[test]
fn now_playing_false_is_kept() {
    let tracks = format!(
        "<track nowplaying=\"false\"><artist mbid=\"a\">A</artist><album mbid=\"b\">B</album><mbid>m</mbid><name>Kept</name><date uts=\"5\">d</date></track>"
    );
    let body = ok_body(1, 1, " total=\"1\"", &tracks);
    let resp = from_slice(&body).unwrap();
    assert_eq!(resp.tracks.len(), 1);
    assert_eq!(resp.tracks[0].name, "Kept");
}

#[test]
fn empty_identifiers_become_absent() {
    let tracks = "<track><artist mbid=\"\">The Artist</artist><album mbid=\"\">The Album</album><mbid></mbid><name>Song</name><date uts=\"7\">d</date></track>";
    let body = ok_body(1, 1, " total=\"1\"", tracks);
    let resp = from_slice(&body).unwrap();
    let t = &resp.tracks[0];
    assert!(t.mbid.is_none());
    assert!(t.artist.as_ref().unwrap().mbid.is_none());
    assert!(t.album.as_ref().unwrap().mbid.is_none());
}

#[test]
fn empty_entities_become_absent() {
    let tracks = "<track><artist mbid=\"a\"></artist><album></album><mbid>m</mbid><name>Song</name><date uts=\"7\">d</date></track>";
    let body = ok_body(1, 1, " total=\"1\"", tracks);
    let resp = from_slice(&body).unwrap();
    let t = &resp.tracks[0];
    assert!(t.artist.is_none());
    assert!(t.album.is_none());
    assert_eq!(t.mbid.as_deref(), Some("m"));
}

#[test]
fn failed_status_yields_api_error_with_message() {
    let body = b"<lfm status=\"failed\"><error>Invalid API key</error></lfm>";
    match from_slice(body) {
        Err(ArchiveError::Api(m)) => assert_eq!(m, "Invalid API key"),
        other => panic!("expected an api error, got {:?}", other),
    }
}

#[test]
fn unknown_status_yields_api_error() {
    let body = b"<lfm status=\"pending\"></lfm>";
    match from_slice(body) {
        Err(ArchiveError::Api(m)) => assert_eq!(m, "unknown status"),
        other => panic!("expected an api error, got {:?}", other),
    }
}

#[test]
fn missing_status_is_a_parse_error() {
    let body = b"<lfm></lfm>";
    match from_slice(body) {
        Err(ArchiveError::Parse(m)) => assert_eq!(m, "missing status"),
        other => panic!("expected a parse error, got {:?}", other),
    }
}

#[test]
fn malformed_xml_is_a_parse_error() {
    let body = b"<lfm status=\"ok\"><recenttracks";
    match from_slice(body) {
        Err(ArchiveError::Parse(_)) => {}
        other => panic!("expected a parse error, got {:?}", other),
    }
}

#[test]
fn missing_date_is_a_parse_error() {
    let tracks = "<track><artist mbid=\"a\">A</artist><album mbid=\"b\">B</album><mbid>m</mbid><name>Song</name></track>";
    let body = ok_body(1, 1, " total=\"1\"", tracks);
    match from_slice(&body) {
        Err(ArchiveError::Parse(m)) => assert_eq!(m, "missing date"),
        other => panic!("expected a parse error, got {:?}", other),
    }
}

#[test]
fn missing_required_fields_are_named() {
    let cases: Vec<(&str, &str)> = vec![
        ("<track></track>", "missing artist"),
        ("<track><artist>A</artist></track>", "missing album"),
        ("<track><artist>A</artist><album>B</album></track>", "missing mbid"),
        ("<track><artist>A</artist><album>B</album><mbid>m</mbid></track>", "missing name"),
        (
            "<track><artist>A</artist><album>B</album><mbid>m</mbid><name></name></track>",
            "empty name",
        ),
        (
            "<track><artist>A</artist><album>B</album><mbid>m</mbid><name>S</name><date>d</date></track>",
            "missing timestamp",
        ),
        (
            "<track><artist>A</artist><album>B</album><mbid>m</mbid><name>S</name><date uts=\"soon\">d</date></track>",
            "invalid timestamp",
        ),
    ];
    for (tracks, expected) in cases {
        let body = ok_body(1, 1, " total=\"1\"", tracks);
        match from_slice(&body) {
            Err(ArchiveError::Parse(m)) => assert_eq!(m, expected),
            other => panic!("expected {:?}, got {:?}", expected, other),
        }
    }
}

#[test]
fn missing_page_attributes_are_parse_errors() {
    let body = "<lfm status=\"ok\"><recenttracks totalPages=\"1\"></recenttracks></lfm>".as_bytes().to_vec();
    match from_slice(&body) {
        Err(ArchiveError::Parse(m)) => assert_eq!(m, "missing page"),
        other => panic!("expected a parse error, got {:?}", other),
    }
    let body = "<lfm status=\"ok\"><recenttracks page=\"x\" totalPages=\"1\"></recenttracks></lfm>"
        .as_bytes()
        .to_vec();
    match from_slice(&body) {
        Err(ArchiveError::Parse(m)) => assert_eq!(m, "invalid page"),
        other => panic!("expected a parse error, got {:?}", other),
    }
    let body = "<lfm status=\"ok\"><recenttracks page=\"1\"></recenttracks></lfm>".as_bytes().to_vec();
    match from_slice(&body) {
        Err(ArchiveError::Parse(m)) => assert_eq!(m, "missing totalPages"),
        other => panic!("expected a parse error, got {:?}", other),
    }
}

#[test]
fn missing_total_defaults_to_zero() {
    let body = ok_body(1, 1, "", &track_xml("Song", 9));
    let resp = from_slice(&body).unwrap();
    assert_eq!(resp.total_tracks, 0);
    assert_eq!(resp.tracks.len(), 1);
}

#[test]
fn negative_timestamp_is_kept_exactly() {
    let body = ok_body(1, 1, " total=\"1\"", &track_xml("Old Song", -86400));
    let resp = from_slice(&body).unwrap();
    assert_eq!(resp.tracks[0].time, -86400);
}

#[test]
fn timestamp_round_trip() {
    let t = Track::new(None, None, None, String::from("Song"), 1234567890);
    assert_eq!(t.timestamp(), 1234567890);
    let t = Track::new(None, None, None, String::from("Song"), -5);
    assert_eq!(t.timestamp(), -5);
}

#[test]
fn errors_carry_messages() {
    assert_eq!(ArchiveError::Network(String::from("down")).message(), "down");
    assert_eq!(ArchiveError::Parse(String::from("bad")).message(), "bad");
    assert_eq!(ArchiveError::Api(String::from("no")).message(), "no");
    assert_eq!(ArchiveError::Storage(String::from("full")).message(), "full");
}

#[test]
fn rows_map_track_fields() {
    let body = ok_body(1, 1, " total=\"2\"", &format!(
        "{}{}",
        track_xml("Song", 11),
        "<track><artist></artist><album></album><mbid></mbid><name>Bare</name><date uts=\"22\">d</date></track>"
    ));
    let resp = from_slice(&body).unwrap();
    let rows = lastfm_archive::model::page_rows(&resp);
    assert_eq!(rows.len(), 2);
    assert_eq!(rows[0].time, 11);
    assert_eq!(rows[0].track_mbid.as_deref(), Some("t-1"));
    assert_eq!(rows[0].track_name, "Song");
    assert_eq!(rows[0].artist_mbid.as_deref(), Some("a-1"));
    assert_eq!(rows[0].artist_name.as_deref(), Some("The Artist"));
    assert_eq!(rows[0].album_mbid.as_deref(), Some("b-1"));
    assert_eq!(rows[0].album_name.as_deref(), Some("The Album"));
    assert_eq!(rows[1].time, 22);
    assert!(rows[1].track_mbid.is_none());
    assert_eq!(rows[1].track_name, "Bare");
    assert!(rows[1].artist_mbid.is_none());
    assert!(rows[1].artist_name.is_none());
    assert!(rows[1].album_mbid.is_none());
    assert!(rows[1].album_name.is_none());
}
