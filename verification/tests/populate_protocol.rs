use ramp::metadata::TrackMetadata;
use ramp::populate::{
    PopulateAction, PopulateEvent, PopulateStage, Populator, ARTIST_INSERT_SQL, ARTIST_LOOKUP_SQL,
    COLLECTION_ARTIST_LINK_SQL, COLLECTION_INSERT_SQL, COLLECTION_LOOKUP_SQL,
    COLLECTION_TRACK_LINK_SQL, SOURCE_EXISTS_SQL, SOURCE_LINK_SQL, TRACK_ARTIST_LINK_SQL,
    TRACK_INSERT_SQL,
};
use ramp::sql::{SqlStatement, SqlValue};

/// A stand-in for the catalogue: just the rows the registration reads.
struct FakeCatalogue {
    sources: Vec<String>,
    albums: Vec<(i64, String)>,
    artists: Vec<(i64, String)>,
    next_id: i64,
    log: Vec<(String, SqlStatement)>,
}

fn text(v: &SqlValue) -> String {
    match v {
        SqlValue::Text(s) => s.clone(),
        other => panic!("expected text, got {:?}", other),
    }
}

impl FakeCatalogue {
    fn new() -> Self {
        FakeCatalogue { sources: vec![], albums: vec![], artists: vec![], next_id: 100, log: vec![] }
    }

    fn answer(&mut self, action: &PopulateAction) -> Option<PopulateEvent> {
        match action {
            PopulateAction::Finish => None,
            PopulateAction::Exists(s) => {
                self.log.push(("exists".to_string(), s.clone()));
                assert_eq!(s.sql, SOURCE_EXISTS_SQL);
                Some(PopulateEvent::Exists(self.sources.contains(&text(&s.params[0]))))
            }
            PopulateAction::Lookup(s) => {
                self.log.push(("lookup".to_string(), s.clone()));
                let key = text(&s.params[0]);
                let table = if s.sql == COLLECTION_LOOKUP_SQL {
                    &self.albums
                } else {
                    assert_eq!(s.sql, ARTIST_LOOKUP_SQL);
                    &self.artists
                };
                Some(PopulateEvent::Found(table.iter().find(|(_, n)| *n == key).map(|(id, _)| *id)))
            }
            PopulateAction::Insert(s) => {
                self.log.push(("insert".to_string(), s.clone()));
                self.next_id += 1;
                if s.sql == COLLECTION_INSERT_SQL {
                    self.albums.push((self.next_id, text(&s.params[0])));
                } else if s.sql == ARTIST_INSERT_SQL {
                    self.artists.push((self.next_id, text(&s.params[0])));
                } else {
                    assert_eq!(s.sql, TRACK_INSERT_SQL);
                }
                Some(PopulateEvent::Inserted(self.next_id))
            }
            PopulateAction::Execute(s) => {
                self.log.push(("execute".to_string(), s.clone()));
                if s.sql == SOURCE_LINK_SQL {
                    self.sources.push(text(&s.params[1]));
                }
                Some(PopulateEvent::Executed)
            }
        }
    }

    fn register(&mut self, path: &str, meta: TrackMetadata) -> usize {
        let start = self.log.len();
        let (mut p, mut action) = Populator::new(path.to_string(), meta);
        while let Some(event) = self.answer(&action) {
            assert!(p.accepts(event));
            action = p.step(event);
        }
        assert_eq!(p.stage(), PopulateStage::Finished);
        self.log.len() - start
    }
}

fn meta(artist: &str, album: Option<&str>) -> TrackMetadata {
    TrackMetadata {
        title: "Song".to_string(),
        artist: artist.to_string(),
        album: album.map(|a| a.to_string()),
        duration: 200,
        bitrate: Some(320),
        sample_rate: None,
        genre: Some("Rock".to_string()),
        year: None,
        track_number: Some(4),
        disc_number: None,
    }
}

#[test]
fn known_path_is_left_alone() {
    let mut db = FakeCatalogue::new();
    db.sources.push("/m/a.mp3".to_string());
    let n = db.register("/m/a.mp3", meta("A", Some("R")));
    assert_eq!(n, 1);
    assert_eq!(db.log[0].1.params, vec![SqlValue::Text("/m/a.mp3".to_string())]);
    assert!(db.albums.is_empty() && db.artists.is_empty());
}

#[test]
fn new_file_with_new_album_and_two_artists() {
    let mut db = FakeCatalogue::new();
    db.artists.push((7, "A".to_string()));
    let n = db.register("/m/b.flac", meta("A, B", Some("Record")));
    let kinds: Vec<&str> = db.log.iter().map(|(k, _)| k.as_str()).collect();
    assert_eq!(
        kinds,
        vec![
            "exists", "lookup", "insert", "insert", "lookup", "execute", "execute", "lookup",
            "insert", "execute", "execute", "execute", "execute"
        ]
    );
    assert_eq!(n, 13);
    assert!(n <= 4 * 2 + 7);
    let album_id = 101;
    let track_id = 102;
    let b_id = 103;
    assert_eq!(db.log[3].1.sql, TRACK_INSERT_SQL);
    assert_eq!(
        db.log[3].1.params,
        vec![
            SqlValue::Text("Song".to_string()),
            SqlValue::Integer(200),
            SqlValue::Integer(320),
            SqlValue::Null,
            SqlValue::Text("Rock".to_string()),
            SqlValue::Null,
        ]
    );
    assert_eq!(db.log[5].1.sql, TRACK_ARTIST_LINK_SQL);
    assert_eq!(db.log[5].1.params, vec![SqlValue::Integer(track_id), SqlValue::Integer(7)]);
    assert_eq!(db.log[6].1.sql, COLLECTION_ARTIST_LINK_SQL);
    assert_eq!(db.log[6].1.params, vec![SqlValue::Integer(album_id), SqlValue::Integer(7)]);
    assert_eq!(db.log[9].1.params, vec![SqlValue::Integer(track_id), SqlValue::Integer(b_id)]);
    assert_eq!(db.log[11].1.sql, COLLECTION_TRACK_LINK_SQL);
    assert_eq!(
        db.log[11].1.params,
        vec![
            SqlValue::Integer(album_id),
            SqlValue::Integer(track_id),
            SqlValue::Integer(4),
            SqlValue::Integer(1)
        ]
    );
    assert_eq!(db.log[12].1.sql, SOURCE_LINK_SQL);
    assert_eq!(
        db.log[12].1.params,
        vec![SqlValue::Integer(track_id), SqlValue::Text("/m/b.flac".to_string())]
    );
    assert_eq!(db.albums, vec![(album_id, "Record".to_string())]);
}

#[test]
fn file_without_album_writes_no_album_rows() {
    let mut db = FakeCatalogue::new();
    let n = db.register("/m/c.ogg", meta("X, X", None));
    assert_eq!(n, 8);
    assert!(db.log.iter().all(|(_, s)| s.sql != COLLECTION_LOOKUP_SQL
        && s.sql != COLLECTION_ARTIST_LINK_SQL
        && s.sql != COLLECTION_TRACK_LINK_SQL));
    // the second "X" is found as the artist the first one added
    assert_eq!(db.artists, vec![(102, "X".to_string())]);
    assert_eq!(db.log[6].1.params, vec![SqlValue::Integer(101), SqlValue::Integer(102)]);
}

#[test]
fn existing_album_is_reused_and_registering_twice_adds_nothing() {
    let mut db = FakeCatalogue::new();
    db.albums.push((5, "Record".to_string()));
    db.register("/m/d.wav", meta("Solo", Some("Record")));
    assert_eq!(db.albums.len(), 1);
    let last = &db.log[db.log.len() - 2].1;
    assert_eq!(last.sql, COLLECTION_TRACK_LINK_SQL);
    assert_eq!(last.params[0], SqlValue::Integer(5));
    let n = db.register("/m/d.wav", meta("Solo", Some("Record")));
    assert_eq!(n, 1);
}

#[test]
fn answers_of_the_wrong_kind_are_refused() {
    let (p, action) = Populator::new("/m/e.mp3".to_string(), meta("A", None));
    assert!(matches!(action, PopulateAction::Exists(_)));
    assert!(!p.accepts(PopulateEvent::Executed));
    assert!(!p.accepts(PopulateEvent::Inserted(1)));
    assert!(p.accepts(PopulateEvent::Exists(false)));
}
