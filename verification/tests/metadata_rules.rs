use ramp::metadata::{TagFields, TrackMetadata};

fn full_tag() -> TagFields {
    TagFields {
        title: Some("Song".to_string()),
        artist: Some("A, B".to_string()),
        album: Some("Record".to_string()),
        genre: Some("Jazz".to_string()),
        year: Some(1999),
        track: Some(7),
        disk: Some(2),
    }
}

#[test]
fn tag_fields_are_copied() {
    let m = TrackMetadata::from_tags(245, Some(320), Some(44100), Some(full_tag()), "file".to_string());
    assert_eq!(m.title, "Song");
    assert_eq!(m.artist, "A, B");
    assert_eq!(m.album.as_deref(), Some("Record"));
    assert_eq!(m.genre.as_deref(), Some("Jazz"));
    assert_eq!(m.year, Some(1999));
    assert_eq!(m.track_number, Some(7));
    assert_eq!(m.disc_number, Some(2));
    assert_eq!(m.duration, 245);
    assert_eq!(m.bitrate, Some(320));
    assert_eq!(m.sample_rate, Some(44100));
}

#[test]
fn missing_title_and_artist_get_placeholders() {
    let tag = TagFields {
        title: None,
        artist: None,
        album: None,
        genre: None,
        year: None,
        track: None,
        disk: None,
    };
    let m = TrackMetadata::from_tags(10, None, None, Some(tag), "stem".to_string());
    assert_eq!(m.title, "Unknown Title");
    assert_eq!(m.artist, "Unknown Artist");
    assert_eq!(m.album, None);
    assert_eq!(m.year, None);
    assert_eq!(m.bitrate, None);
}

#[test]
fn untagged_file_is_titled_by_its_stem() {
    let m = TrackMetadata::from_tags(3, Some(128), None, None, "01 Intro".to_string());
    assert_eq!(m.title, "01 Intro");
    assert_eq!(m.artist, "Unknown Artist");
    assert_eq!(m.album, None);
    assert_eq!(m.genre, None);
    assert_eq!(m.year, None);
    assert_eq!(m.track_number, None);
    assert_eq!(m.disc_number, None);
    assert_eq!(m.bitrate, Some(128));
}

#[test]
fn large_numbers_widen_and_huge_durations_wrap() {
    let m = TrackMetadata::from_tags(u64::MAX, Some(u32::MAX), Some(u32::MAX), None, String::new());
    assert_eq!(m.duration, -1);
    assert_eq!(m.bitrate, Some(4294967295));
    assert_eq!(m.sample_rate, Some(4294967295));
}
