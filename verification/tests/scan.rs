use std::collections::HashMap;
use yalmp::scan::{
    needs_initial_scan, scan, AlbumJson, DbFileStatus, DiscJson, ScanAction, ScanEvent, ScanStage,
    ScanState, TrackJson,
};

fn album(name: &str, discs: &[&str]) -> AlbumJson {
    AlbumJson {
        name: name.to_string(),
        artist: "Artist".to_string(),
        discs: discs.iter().map(|s| s.to_string()).collect(),
        art: Some("cover.png".to_string()),
        copyright: None,
        comment: None,
        years: Some(vec![1999]),
    }
}

fn disc(name: Option<&str>, tracks: &[&str]) -> DiscJson {
    DiscJson {
        tracks: tracks.iter().map(|s| s.to_string()).collect(),
        name: name.map(|s| s.to_string()),
        art: None,
        comment: None,
    }
}

fn track(title: &str) -> TrackJson {
    TrackJson {
        title: title.to_string(),
        path: format!("{}.flac", title),
        art: None,
        artist: Some("Singer".to_string()),
        composer: None,
        rating: None,
        lyric_path_raw: None,
        lyric_path_transliterated: None,
        lyric_path_translated: None,
        has_lyrics: None,
        has_vocals: None,
        synchronized_lyrics_path: None,
    }
}

fn expect_read_album(a: ScanAction, path: &str) {
    match a {
        ScanAction::ReadAlbum(p) => assert_eq!(p, path),
        _ => panic!("expected an album read"),
    }
}

fn expect_read_disc(a: ScanAction, path: &str) {
    match a {
        ScanAction::ReadDisc(p) => assert_eq!(p, path),
        _ => panic!("expected a disc read"),
    }
}

fn expect_read_track(a: ScanAction, path: &str) {
    match a {
        ScanAction::ReadTrack(p) => assert_eq!(p, path),
        _ => panic!("expected a track read"),
    }
}

#[test]
fn scan_parses_album_list_and_asks_for_first_album() {
    let (state, first) = match scan("[\"one.json\", \"two.json\"]") {
        Ok(started) => started,
        Err(_) => panic!("a JSON array of strings is a valid album list"),
    };
    assert_eq!(state.stage(), ScanStage::ReadingAlbum);
    expect_read_album(first, "one.json");
}

#[test]
fn scan_of_empty_list_is_done_at_once() {
    let (state, first) = match scan("[]") {
        Ok(started) => started,
        Err(_) => panic!("an empty array is a valid album list"),
    };
    assert_eq!(state.stage(), ScanStage::Finished);
    assert!(matches!(first, ScanAction::Done));
}

#[test]
fn scan_rejects_text_that_is_not_a_string_array() {
    assert!(scan("{\"albums\": []}").is_err());
    assert!(scan("[1, 2]").is_err());
    assert!(scan("[\"a\"] trailing").is_err());
}

#[test]
fn scan_numbers_discs_and_tracks_and_links_ids() {
    let (mut s, a) = ScanState::start(vec!["album.json".to_string()]);
    expect_read_album(a, "album.json");

    match s.step(ScanEvent::AlbumRead(album("Title", &["d1.json", "d2.json"]))) {
        ScanAction::InsertAlbum(row) => {
            assert_eq!(row.title, "Title");
            assert_eq!(row.album_artist, "Artist");
            assert_eq!(row.album_art_path, Some("cover.png".to_string()));
            assert_eq!(row.json_path, "album.json");
        },
        _ => panic!("expected the album row"),
    }
    expect_read_disc(s.step(ScanEvent::Inserted(41)), "d1.json");

    match s.step(ScanEvent::DiscRead(disc(Some("First"), &["t1.json", "t2.json"]))) {
        ScanAction::InsertDisc(row) => {
            assert_eq!(row.disc_num, 1);
            assert_eq!(row.album, 41);
            assert_eq!(row.disc_title, Some("First".to_string()));
            assert_eq!(row.json_path, "d1.json");
        },
        _ => panic!("expected the disc row"),
    }
    expect_read_track(s.step(ScanEvent::Inserted(7)), "t1.json");

    match s.step(ScanEvent::TrackRead(track("Song"))) {
        ScanAction::InsertTrack(row) => {
            assert_eq!(row.track_num, 1);
            assert_eq!(row.album, 41);
            assert_eq!(row.disc, 7);
            assert_eq!(row.track_title, "Song");
            assert_eq!(row.track_path, "Song.flac");
            assert_eq!(row.artist, Some("Singer".to_string()));
            assert_eq!(row.json_path, "t1.json");
        },
        _ => panic!("expected the track row"),
    }
    expect_read_track(s.step(ScanEvent::Inserted(100)), "t2.json");
    match s.step(ScanEvent::TrackRead(track("Other"))) {
        ScanAction::InsertTrack(row) => {
            assert_eq!(row.track_num, 2);
            assert_eq!(row.disc, 7);
        },
        _ => panic!("expected the track row"),
    }
    expect_read_disc(s.step(ScanEvent::Inserted(101)), "d2.json");

    match s.step(ScanEvent::DiscRead(disc(None, &[]))) {
        ScanAction::InsertDisc(row) => {
            assert_eq!(row.disc_num, 2);
            assert_eq!(row.album, 41);
            assert_eq!(row.disc_title, None);
        },
        _ => panic!("expected the disc row"),
    }
    assert!(matches!(s.step(ScanEvent::Inserted(8)), ScanAction::Done));
    assert_eq!(s.stage(), ScanStage::Finished);
}

#[test]
fn scan_moves_to_next_album_and_restarts_numbering() {
    let (mut s, _) = ScanState::start(vec!["a.json".to_string(), "b.json".to_string()]);
    let _ = s.step(ScanEvent::AlbumRead(album("A", &[])));
    expect_read_album(s.step(ScanEvent::Inserted(1)), "b.json");
    let _ = s.step(ScanEvent::AlbumRead(album("B", &["x.json"])));
    expect_read_disc(s.step(ScanEvent::Inserted(2)), "x.json");
    match s.step(ScanEvent::DiscRead(disc(None, &[]))) {
        ScanAction::InsertDisc(row) => {
            assert_eq!(row.disc_num, 1);
            assert_eq!(row.album, 2);
        },
        _ => panic!("expected the disc row"),
    }
}

#[test]
fn failed_read_ends_scan_without_abort() {
    let (mut s, _) = ScanState::start(vec!["a.json".to_string()]);
    assert!(matches!(s.step(ScanEvent::Failed), ScanAction::Fail { fatal: false }));
    assert_eq!(s.stage(), ScanStage::Finished);
}

#[test]
fn failed_track_insert_is_fatal() {
    let (mut s, _) = ScanState::start(vec!["a.json".to_string()]);
    let _ = s.step(ScanEvent::AlbumRead(album("A", &["d.json"])));
    let _ = s.step(ScanEvent::Inserted(1));
    let _ = s.step(ScanEvent::DiscRead(disc(None, &["t.json"])));
    let _ = s.step(ScanEvent::Inserted(2));
    let _ = s.step(ScanEvent::TrackRead(track("T")));
    assert_eq!(s.stage(), ScanStage::InsertingTrack);
    assert!(matches!(s.step(ScanEvent::Failed), ScanAction::Fail { fatal: true }));
}

#[test]
fn failed_disc_insert_is_reported() {
    let (mut s, _) = ScanState::start(vec!["a.json".to_string()]);
    let _ = s.step(ScanEvent::AlbumRead(album("A", &["d.json"])));
    let _ = s.step(ScanEvent::Inserted(1));
    let _ = s.step(ScanEvent::DiscRead(disc(None, &["t.json"])));
    assert!(matches!(s.step(ScanEvent::Failed), ScanAction::Fail { fatal: false }));
}

#[test]
fn initial_scan_only_for_new_database() {
    assert_eq!(needs_initial_scan(DbFileStatus::Created), Some(true));
    assert_eq!(needs_initial_scan(DbFileStatus::AlreadyExists), Some(false));
    assert_eq!(needs_initial_scan(DbFileStatus::Failed), None);
}

#[test]
fn scan_reports_the_parser_error() {
    match scan("[\"a.json\", 2]") {
        Err(yalmp::scan::ScanError::InvalidAlbumList(err)) => {
            assert_eq!(err.classify(), serde_json::error::Category::Data);
            assert_eq!(err.line(), 1);
        },
        Ok(_) => panic!("a number is not a path"),
    }
    match scan("[\"a.json\"") {
        Err(yalmp::scan::ScanError::InvalidAlbumList(err)) => {
            assert_eq!(err.classify(), serde_json::error::Category::Eof);
        },
        Ok(_) => panic!("the array is not closed"),
    }
}

#[test]
fn complete_scan_stores_every_row_linked_and_numbered() {
    let mut albums: HashMap<&str, (&str, Vec<&str>)> = HashMap::new();
    albums.insert("a.json", ("A", vec!["a1.json", "a2.json"]));
    albums.insert("b.json", ("B", vec!["b1.json"]));
    let mut discs: HashMap<&str, Vec<&str>> = HashMap::new();
    discs.insert("a1.json", vec!["t1.json", "t2.json"]);
    discs.insert("a2.json", vec![]);
    discs.insert("b1.json", vec!["t3.json"]);

    let (mut s, mut action) = ScanState::start(vec!["a.json".to_string(), "b.json".to_string()]);
    let mut next_id: i64 = 10;
    let mut album_rows: Vec<(i64, String)> = Vec::new();
    let mut disc_rows: Vec<(i64, i64, i32, String)> = Vec::new();
    let mut track_rows: Vec<(i64, i64, i32, String)> = Vec::new();
    loop {
        let event = match action {
            ScanAction::Done => break,
            ScanAction::Fail { .. } => panic!("nothing fails here"),
            ScanAction::ReadAlbum(path) => {
                let (name, ds) = albums[path.as_str()].clone();
                ScanEvent::AlbumRead(album(name, &ds))
            },
            ScanAction::ReadDisc(path) => ScanEvent::DiscRead(disc(None, &discs[path.as_str()])),
            ScanAction::ReadTrack(path) => ScanEvent::TrackRead(track(&path)),
            ScanAction::InsertAlbum(row) => {
                next_id += 1;
                album_rows.push((next_id, row.json_path));
                ScanEvent::Inserted(next_id)
            },
            ScanAction::InsertDisc(row) => {
                next_id += 1;
                disc_rows.push((next_id, row.album, row.disc_num, row.json_path));
                ScanEvent::Inserted(next_id)
            },
            ScanAction::InsertTrack(row) => {
                next_id += 1;
                assert_eq!(row.disc, disc_rows.last().unwrap().0);
                assert_eq!(row.album, disc_rows.last().unwrap().1);
                track_rows.push((row.disc, row.album, row.track_num, row.json_path));
                ScanEvent::Inserted(next_id)
            },
        };
        action = s.step(event);
    }
    assert_eq!(album_rows, vec![(11, "a.json".to_string()), (16, "b.json".to_string())]);
    assert_eq!(
        disc_rows,
        vec![
            (12, 11, 1, "a1.json".to_string()),
            (15, 11, 2, "a2.json".to_string()),
            (17, 16, 1, "b1.json".to_string()),
        ]
    );
    assert_eq!(
        track_rows,
        vec![
            (12, 11, 1, "t1.json".to_string()),
            (12, 11, 2, "t2.json".to_string()),
            (17, 16, 1, "t3.json".to_string()),
        ]
    );
}
