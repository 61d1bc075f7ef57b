use ramp::sql::SqlValue;
use ramp::sync::{
    is_track_file, is_valid_extension, placeholder_list, select_track_files, validate_statements,
    ScannedPath,
};

fn path(is_file: bool, ext: Option<&str>, text: &str, utf8: bool) -> ScannedPath {
    ScannedPath {
        is_file,
        extension: ext.map(|e| e.to_string()),
        text: text.to_string(),
        utf8: if utf8 { Some(text.to_string()) } else { None },
    }
}

#[test]
fn extensions_match_whatever_their_case() {
    assert!(is_valid_extension("mp3"));
    assert!(is_valid_extension("MP3"));
    assert!(is_valid_extension("Flac"));
    assert!(is_valid_extension("OPUS"));
    assert!(is_valid_extension("m4a"));
    assert!(is_valid_extension("ogg"));
    assert!(is_valid_extension("wav"));
    assert!(!is_valid_extension("txt"));
    assert!(!is_valid_extension(""));
    assert!(!is_valid_extension("mp4"));
    assert!(!is_valid_extension(" mp3"));
}

#[test]
fn only_regular_files_with_audio_extensions_are_tracks() {
    assert!(is_track_file(&path(true, Some("mp3"), "a.mp3", true)));
    assert!(!is_track_file(&path(false, Some("mp3"), "dir.mp3", true)));
    assert!(!is_track_file(&path(true, None, "README", true)));
    assert!(!is_track_file(&path(true, Some("jpg"), "cover.jpg", true)));
}

#[test]
fn track_files_are_selected_in_order() {
    let paths = vec![
        path(false, None, "/music", true),
        path(true, Some("FLAC"), "/music/a.FLAC", true),
        path(true, Some("jpg"), "/music/cover.jpg", true),
        path(true, Some("ogg"), "/music/b.ogg", false),
        path(true, Some("wav"), "/music/c.wav", true),
    ];
    assert_eq!(select_track_files(&paths), vec![1, 3, 4]);
    assert_eq!(select_track_files(&Vec::new()), Vec::<usize>::new());
}

#[test]
fn placeholder_lists() {
    assert_eq!(placeholder_list(0), "");
    assert_eq!(placeholder_list(1), "?");
    assert_eq!(placeholder_list(3), "?,?,?");
}

#[test]
fn validate_binds_the_utf8_paths() {
    let paths = vec![
        path(false, None, "/music", true),
        path(true, Some("mp3"), "/music/a.mp3", true),
    ];
    let statements = validate_statements(&paths);
    assert_eq!(statements.len(), 3);
    assert_eq!(
        statements[0].sql,
        "DELETE FROM track_sources WHERE Path NOT IN (?,?)"
    );
    assert_eq!(
        statements[0].params,
        vec![
            SqlValue::Text("/music".to_string()),
            SqlValue::Text("/music/a.mp3".to_string())
        ]
    );
    assert_eq!(
        statements[1].sql,
        "DELETE FROM tracks\n         WHERE TrackId NOT IN (SELECT DISTINCT TrackId FROM track_sources)"
    );
    assert!(statements[1].params.is_empty());
    assert_eq!(
        statements[2].sql,
        "DELETE FROM collections\n         WHERE CollectionType = 'album'\n         AND CollectionId NOT IN (SELECT DISTINCT CollectionId FROM collection_tracks)"
    );
    assert!(statements[2].params.is_empty());
}

#[test]
fn validate_skips_paths_that_are_not_utf8() {
    let paths = vec![
        path(true, Some("mp3"), "/music/\u{FFFD}.mp3", false),
        path(true, Some("mp3"), "/music/b.mp3", true),
    ];
    let statements = validate_statements(&paths);
    assert_eq!(
        statements[0].sql,
        "DELETE FROM track_sources WHERE Path NOT IN (?,?)"
    );
    assert_eq!(
        statements[0].params,
        vec![SqlValue::Text("/music/b.mp3".to_string())]
    );
}

#[test]
fn validate_with_no_paths() {
    let statements = validate_statements(&Vec::new());
    assert_eq!(
        statements[0].sql,
        "DELETE FROM track_sources WHERE Path NOT IN ()"
    );
    assert!(statements[0].params.is_empty());
}
