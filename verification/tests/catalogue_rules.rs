use ramp::catalogue::{
    artist_query, collection_query, collection_tracks_query, schema_statements, search_queries,
    search_results, track_query, track_sources_query,
};
use ramp::model::{Artist, ArtistId, Collection, CollectionId, Metadata, Track, TrackId};
use ramp::sql::SqlValue;

fn track(id: i64, title: &str) -> Track {
    Track {
        id: TrackId(id),
        title: title.to_string(),
        duration: 60,
        year: None,
        created: "c".to_string(),
        updated: "u".to_string(),
    }
}

#[test]
fn schema_sets_up_connection_then_tables() {
    let s = schema_statements();
    assert_eq!(s.len(), 10);
    assert_eq!(s[0].sql, "PRAGMA foreign_keys = ON");
    assert_eq!(s[1].sql, "PRAGMA journal_mode = WAL");
    assert_eq!(s[2].sql, "PRAGMA synchronous = NORMAL");
    assert!(s[3].sql.starts_with("CREATE TABLE IF NOT EXISTS tracks (TrackId INTEGER PRIMARY KEY, "));
    assert!(s[9].sql.starts_with("CREATE TABLE IF NOT EXISTS track_sources ( TrackSourceId"));
    assert!(s.iter().all(|st| st.params.is_empty()));
}

#[test]
fn getter_queries_bind_the_id() {
    let q = track_query(TrackId(42));
    assert_eq!(q.sql, "SELECT * FROM tracks WHERE TrackId = ?1");
    assert_eq!(q.params, vec![SqlValue::Integer(42)]);
    let q = artist_query(ArtistId(-3));
    assert_eq!(q.sql, "SELECT * FROM artists WHERE ArtistId = ?1");
    assert_eq!(q.params, vec![SqlValue::Integer(-3)]);
    let q = collection_query(CollectionId(9));
    assert_eq!(q.sql, "SELECT * FROM collections WHERE CollectionId = ?1");
    assert_eq!(q.params, vec![SqlValue::Integer(9)]);
    let q = collection_tracks_query(CollectionId(9));
    assert!(q.sql.contains("FROM collection_tracks"));
    assert!(q.sql.contains("ORDER BY DiscNumber, Position"));
    assert_eq!(q.params, vec![SqlValue::Integer(9)]);
    let q = track_sources_query(TrackId(5));
    assert!(q.sql.contains("FROM track_sources"));
    assert_eq!(q.params, vec![SqlValue::Integer(5)]);
}

#[test]
fn search_queries_use_the_query_three_times() {
    let q = search_queries(&"Blue".to_string());
    assert_eq!(q.len(), 3);
    assert_eq!(q[0].sql, "SELECT * FROM tracks WHERE TrackTitle = ?1");
    assert_eq!(q[1].sql, "SELECT * FROM artists WHERE ArtistName = ?1");
    assert_eq!(q[2].sql, "SELECT * FROM collections WHERE CollectionTitle = ?1");
    for s in &q {
        assert_eq!(s.params, vec![SqlValue::Text("Blue".to_string())]);
    }
}

#[test]
fn search_results_list_tracks_then_artists_then_collections() {
    let tracks = vec![track(1, "Blue"), track(2, "Blue")];
    let artists = vec![Artist { id: ArtistId(7), name: "Blue".to_string() }];
    let collections = vec![Collection {
        id: CollectionId(3),
        title: "Blue".to_string(),
        collection_type: "album".to_string(),
        is_user_generated: false,
        created: "c".to_string(),
        updated: "u".to_string(),
    }];
    let res = search_results(tracks, artists, collections);
    assert_eq!(res.len(), 4);
    assert!(matches!(&res[0], Metadata::Track(t) if t.id == TrackId(1)));
    assert!(matches!(&res[1], Metadata::Track(t) if t.id == TrackId(2)));
    assert!(matches!(&res[2], Metadata::Artist(a) if a.id == ArtistId(7)));
    assert!(matches!(&res[3], Metadata::Collection(c) if c.id == CollectionId(3)));
    assert!(search_results(Vec::new(), Vec::new(), Vec::new()).is_empty());
}
