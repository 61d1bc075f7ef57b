use vstd::prelude::*;

use crate::model::{
    Artist, ArtistId, Collection, CollectionId, Metadata, Track, TrackId,
};
use crate::sql::{statement0, statement1, stmt, text_value, SqlStatement, SqlValue, SqlValueView};

verus! {

pub const FOREIGN_KEYS_PRAGMA: &'static str = "PRAGMA foreign_keys = ON";

pub const JOURNAL_MODE_PRAGMA: &'static str = "PRAGMA journal_mode = WAL";

pub const SYNCHRONOUS_PRAGMA: &'static str = "PRAGMA synchronous = NORMAL";

pub const CREATE_TRACKS_SQL: &'static str = "CREATE TABLE IF NOT EXISTS tracks (\
    TrackId INTEGER PRIMARY KEY, \
    TrackTitle TEXT NOT NULL, \
    Duration INTEGER NOT NULL, \
    TrackNumber INTEGER, \
    DiscNumber INTEGER DEFAULT 1, \
    Bitrate INTEGER, \
    SampleRate INTEGER, \
    Genre TEXT, \
    Year INTEGER, \
    ImagePath TEXT, \
    Created DATETIME NOT NULL, \
    Updated DATETIME NOT NULL)
    ";

pub const CREATE_ARTISTS_SQL: &'static str = "CREATE TABLE IF NOT EXISTS artists (\
    ArtistId INTEGER PRIMARY KEY, \
    ArtistName TEXT NOT NULL, \
    ImagePath TEXT)
    ";

pub const CREATE_TRACK_ARTISTS_SQL: &'static str = "CREATE TABLE IF NOT EXISTS track_artists (\
    TrackId INTEGER NOT NULL, \
    ArtistId INTEGER NOT NULL, \
    PRIMARY KEY (TrackId, ArtistId), \
    FOREIGN KEY (TrackId) REFERENCES tracks(TrackId) ON DELETE CASCADE, \
    FOREIGN KEY (ArtistId) REFERENCES artists(ArtistId) ON DELETE CASCADE)
    ";

pub const CREATE_COLLECTIONS_SQL: &'static str = "CREATE TABLE IF NOT EXISTS collections ( \
    CollectionId INTEGER PRIMARY KEY, \
    CollectionTitle TEXT NOT NULL, \
    CollectionType TEXT NOT NULL, \
    IsUserGenerated INTEGER DEFAULT 0, \
    Created DATETIME NOT NULL, \
    Updated DATETIME NOT NULL, \
    ImagePath TEXT)
    ";

pub const CREATE_COLLECTION_TRACKS_SQL: &'static str = "CREATE TABLE IF NOT EXISTS collection_tracks (\
    CollectionTrackId INTEGER PRIMARY KEY, \
    CollectionId INTEGER NOT NULL, \
    TrackId INTEGER NOT NULL, \
    Position INTEGER NOT NULL, \
    FOREIGN KEY (TrackId) REFERENCES tracks(TrackId) ON DELETE CASCADE, \
    FOREIGN KEY (CollectionId) REFERENCES collections(CollectionId) ON DELETE CASCADE)
    ";

pub const CREATE_COLLECTION_ARTISTS_SQL: &'static str = "CREATE TABLE IF NOT EXISTS collection_artists (\
    CollectionId INTEGER NOT NULL, \
    ArtistId INTEGER NOT NULL, \
    PRIMARY KEY (CollectionId, ArtistId), \
    FOREIGN KEY (CollectionId) REFERENCES collections(CollectionId) ON DELETE CASCADE, \
    FOREIGN KEY (ArtistId) REFERENCES artists(ArtistId) ON DELETE CASCADE)
    ";

pub const CREATE_TRACK_SOURCES_SQL: &'static str = "CREATE TABLE IF NOT EXISTS track_sources ( \
    TrackSourceId INTEGER PRIMARY KEY, \
    TrackId INTEGER NOT NULL, \
    Source TEXT NOT NULL, \
    Path TEXT NOT NULL, \
    SourceIdentifier TEXT NOT NULL, \
    FOREIGN KEY (TrackId) REFERENCES tracks(TrackId) ON DELETE CASCADE \
    )";

pub const TRACK_BY_ID_SQL: &'static str = "SELECT * FROM tracks WHERE TrackId = ?1";

pub const ARTIST_BY_ID_SQL: &'static str = "SELECT * FROM artists WHERE ArtistId = ?1";

pub const COLLECTION_BY_ID_SQL: &'static str = "SELECT * FROM collections WHERE CollectionId = ?1";

pub const COLLECTION_TRACKS_SQL: &'static str = "SELECT CollectionTrackId,
            CollectionId,
            TrackId,
            Position,
            DiscNumber
     FROM collection_tracks
     WHERE CollectionId = ?1
     ORDER BY DiscNumber, Position";

pub const TRACK_SOURCES_SQL: &'static str = "SELECT TrackSourceId,
            TrackId,
            Source,
            Path,
            SourceIdentifier
     FROM track_sources
     WHERE TrackId = ?1";

pub const SEARCH_TRACKS_SQL: &'static str = "SELECT * FROM tracks WHERE TrackTitle = ?1";

pub const SEARCH_ARTISTS_SQL: &'static str = "SELECT * FROM artists WHERE ArtistName = ?1";

pub const SEARCH_COLLECTIONS_SQL: &'static str = "SELECT * FROM collections WHERE CollectionTitle = ?1";

/// The texts of the statements that set up the catalogue, in the order
/// they run: connection settings first, then one table after another.
pub open spec fn schema_sql() -> Seq<Seq<char>> {
    seq![
        FOREIGN_KEYS_PRAGMA@,
        JOURNAL_MODE_PRAGMA@,
        SYNCHRONOUS_PRAGMA@,
        CREATE_TRACKS_SQL@,
        CREATE_ARTISTS_SQL@,
        CREATE_TRACK_ARTISTS_SQL@,
        CREATE_COLLECTIONS_SQL@,
        CREATE_COLLECTION_TRACKS_SQL@,
        CREATE_COLLECTION_ARTISTS_SQL@,
        CREATE_TRACK_SOURCES_SQL@,
    ]
}

/// The start of a statement that creates the table `table`.
pub open spec fn creates_head(table: Seq<char>) -> Seq<char> {
    "CREATE TABLE IF NOT EXISTS "@ + table + " ("@
}

/// Whether `sql` creates the table `table` (if it does not exist yet).
pub open spec fn creates_table(sql: Seq<char>, table: Seq<char>) -> bool {
    sql.len() >= creates_head(table).len() && sql.subrange(0, creates_head(table).len() as int)
        == creates_head(table)
}

/// Setting up the catalogue first sets three connection pragmas, then
/// creates each of its seven tables once: tracks, artists, track_artists,
/// collections, collection_tracks, collection_artists and track_sources,
/// in that order.
pub proof fn law_schema_creates_every_table()
    ensures
        schema_sql().len() == 10,
        schema_sql()[0].len() >= 7 && schema_sql()[0].subrange(0, 7) == "PRAGMA "@,
        schema_sql()[1].len() >= 7 && schema_sql()[1].subrange(0, 7) == "PRAGMA "@,
        schema_sql()[2].len() >= 7 && schema_sql()[2].subrange(0, 7) == "PRAGMA "@,
        creates_table(schema_sql()[3], "tracks"@),
        creates_table(schema_sql()[4], "artists"@),
        creates_table(schema_sql()[5], "track_artists"@),
        creates_table(schema_sql()[6], "collections"@),
        creates_table(schema_sql()[7], "collection_tracks"@),
        creates_table(schema_sql()[8], "collection_artists"@),
        creates_table(schema_sql()[9], "track_sources"@),
{
    reveal_strlit("PRAGMA foreign_keys = ON");
    reveal_strlit("PRAGMA journal_mode = WAL");
    reveal_strlit("PRAGMA synchronous = NORMAL");
    reveal_strlit("CREATE TABLE IF NOT EXISTS tracks (\
    TrackId INTEGER PRIMARY KEY, \
    TrackTitle TEXT NOT NULL, \
    Duration INTEGER NOT NULL, \
    TrackNumber INTEGER, \
    DiscNumber INTEGER DEFAULT 1, \
    Bitrate INTEGER, \
    SampleRate INTEGER, \
    Genre TEXT, \
    Year INTEGER, \
    ImagePath TEXT, \
    Created DATETIME NOT NULL, \
    Updated DATETIME NOT NULL)
    ");
    reveal_strlit("CREATE TABLE IF NOT EXISTS artists (\
    ArtistId INTEGER PRIMARY KEY, \
    ArtistName TEXT NOT NULL, \
    ImagePath TEXT)
    ");
    reveal_strlit("CREATE TABLE IF NOT EXISTS track_artists (\
    TrackId INTEGER NOT NULL, \
    ArtistId INTEGER NOT NULL, \
    PRIMARY KEY (TrackId, ArtistId), \
    FOREIGN KEY (TrackId) REFERENCES tracks(TrackId) ON DELETE CASCADE, \
    FOREIGN KEY (ArtistId) REFERENCES artists(ArtistId) ON DELETE CASCADE)
    ");
    reveal_strlit("CREATE TABLE IF NOT EXISTS collections ( \
    CollectionId INTEGER PRIMARY KEY, \
    CollectionTitle TEXT NOT NULL, \
    CollectionType TEXT NOT NULL, \
    IsUserGenerated INTEGER DEFAULT 0, \
    Created DATETIME NOT NULL, \
    Updated DATETIME NOT NULL, \
    ImagePath TEXT)
    ");
    reveal_strlit("CREATE TABLE IF NOT EXISTS collection_tracks (\
    CollectionTrackId INTEGER PRIMARY KEY, \
    CollectionId INTEGER NOT NULL, \
    TrackId INTEGER NOT NULL, \
    Position INTEGER NOT NULL, \
    FOREIGN KEY (TrackId) REFERENCES tracks(TrackId) ON DELETE CASCADE, \
    FOREIGN KEY (CollectionId) REFERENCES collections(CollectionId) ON DELETE CASCADE)
    ");
    reveal_strlit("CREATE TABLE IF NOT EXISTS collection_artists (\
    CollectionId INTEGER NOT NULL, \
    ArtistId INTEGER NOT NULL, \
    PRIMARY KEY (CollectionId, ArtistId), \
    FOREIGN KEY (CollectionId) REFERENCES collections(CollectionId) ON DELETE CASCADE, \
    FOREIGN KEY (ArtistId) REFERENCES artists(ArtistId) ON DELETE CASCADE)
    ");
    reveal_strlit("CREATE TABLE IF NOT EXISTS track_sources ( \
    TrackSourceId INTEGER PRIMARY KEY, \
    TrackId INTEGER NOT NULL, \
    Source TEXT NOT NULL, \
    Path TEXT NOT NULL, \
    SourceIdentifier TEXT NOT NULL, \
    FOREIGN KEY (TrackId) REFERENCES tracks(TrackId) ON DELETE CASCADE \
    )");
    reveal_strlit("CREATE TABLE IF NOT EXISTS ");
    reveal_strlit(" (");
    reveal_strlit("PRAGMA ");
    reveal_strlit("tracks");
    reveal_strlit("artists");
    reveal_strlit("track_artists");
    reveal_strlit("collections");
    reveal_strlit("collection_tracks");
    reveal_strlit("collection_artists");
    reveal_strlit("track_sources");
    assert(schema_sql()[3].subrange(0, creates_head("tracks"@).len() as int) =~= creates_head("tracks"@));
    assert(schema_sql()[4].subrange(0, creates_head("artists"@).len() as int) =~= creates_head("artists"@));
    assert(schema_sql()[5].subrange(0, creates_head("track_artists"@).len() as int) =~= creates_head("track_artists"@));
    assert(schema_sql()[6].subrange(0, creates_head("collections"@).len() as int) =~= creates_head("collections"@));
    assert(schema_sql()[7].subrange(0, creates_head("collection_tracks"@).len() as int) =~= creates_head("collection_tracks"@));
    assert(schema_sql()[8].subrange(0, creates_head("collection_artists"@).len() as int) =~= creates_head("collection_artists"@));
    assert(schema_sql()[9].subrange(0, creates_head("track_sources"@).len() as int) =~= creates_head("track_sources"@));
    assert(schema_sql()[0].subrange(0, 7) =~= "PRAGMA "@);
    assert(schema_sql()[1].subrange(0, 7) =~= "PRAGMA "@);
    assert(schema_sql()[2].subrange(0, 7) =~= "PRAGMA "@);
}

/// The statements that set up the catalogue, without parameters, in order.
pub fn schema_statements() -> (res: Vec<SqlStatement>)
    ensures
        res@.len() == schema_sql().len(),
        forall|k: int| 0 <= k < res@.len() ==> #[trigger] res@[k]@ == stmt(schema_sql()[k], seq![]),
        creates_table(res@[3]@.sql, "tracks"@),
        creates_table(res@[4]@.sql, "artists"@),
        creates_table(res@[5]@.sql, "track_artists"@),
        creates_table(res@[6]@.sql, "collections"@),
        creates_table(res@[7]@.sql, "collection_tracks"@),
        creates_table(res@[8]@.sql, "collection_artists"@),
        creates_table(res@[9]@.sql, "track_sources"@),
{
    proof {
        law_schema_creates_every_table();
    }
    let mut res: Vec<SqlStatement> = Vec::new();
    res.push(statement0(FOREIGN_KEYS_PRAGMA));
    res.push(statement0(JOURNAL_MODE_PRAGMA));
    res.push(statement0(SYNCHRONOUS_PRAGMA));
    res.push(statement0(CREATE_TRACKS_SQL));
    res.push(statement0(CREATE_ARTISTS_SQL));
    res.push(statement0(CREATE_TRACK_ARTISTS_SQL));
    res.push(statement0(CREATE_COLLECTIONS_SQL));
    res.push(statement0(CREATE_COLLECTION_TRACKS_SQL));
    res.push(statement0(CREATE_COLLECTION_ARTISTS_SQL));
    res.push(statement0(CREATE_TRACK_SOURCES_SQL));
    res
}

/// The query for the track with the given id.
pub fn track_query(id: TrackId) -> (res: SqlStatement)
    ensures
        res@ == stmt(TRACK_BY_ID_SQL@, seq![SqlValueView::Integer(id.0)]),
        res@.sql == "SELECT * FROM tracks WHERE TrackId = ?1"@,
        res@.params == seq![SqlValueView::Integer(id.0)],
{
    statement1(TRACK_BY_ID_SQL, SqlValue::Integer(id.0))
}

/// The query for the artist with the given id.
pub fn artist_query(id: ArtistId) -> (res: SqlStatement)
    ensures
        res@ == stmt(ARTIST_BY_ID_SQL@, seq![SqlValueView::Integer(id.0)]),
        res@.sql == "SELECT * FROM artists WHERE ArtistId = ?1"@,
        res@.params == seq![SqlValueView::Integer(id.0)],
{
    statement1(ARTIST_BY_ID_SQL, SqlValue::Integer(id.0))
}

/// The query for the collection with the given id.
pub fn collection_query(id: CollectionId) -> (res: SqlStatement)
    ensures
        res@ == stmt(COLLECTION_BY_ID_SQL@, seq![SqlValueView::Integer(id.0)]),
        res@.sql == "SELECT * FROM collections WHERE CollectionId = ?1"@,
        res@.params == seq![SqlValueView::Integer(id.0)],
{
    statement1(COLLECTION_BY_ID_SQL, SqlValue::Integer(id.0))
}

/// The query for the tracks of a collection, by disc and then position.
pub fn collection_tracks_query(id: CollectionId) -> (res: SqlStatement)
    ensures
        res@ == stmt(COLLECTION_TRACKS_SQL@, seq![SqlValueView::Integer(id.0)]),
        res@.sql == "SELECT CollectionTrackId,
            CollectionId,
            TrackId,
            Position,
            DiscNumber
     FROM collection_tracks
     WHERE CollectionId = ?1
     ORDER BY DiscNumber, Position"@,
        res@.params == seq![SqlValueView::Integer(id.0)],
{
    statement1(COLLECTION_TRACKS_SQL, SqlValue::Integer(id.0))
}

/// The query for the sources of a track.
pub fn track_sources_query(id: TrackId) -> (res: SqlStatement)
    ensures
        res@ == stmt(TRACK_SOURCES_SQL@, seq![SqlValueView::Integer(id.0)]),
        res@.sql == "SELECT TrackSourceId,
            TrackId,
            Source,
            Path,
            SourceIdentifier
     FROM track_sources
     WHERE TrackId = ?1"@,
        res@.params == seq![SqlValueView::Integer(id.0)],
{
    statement1(TRACK_SOURCES_SQL, SqlValue::Integer(id.0))
}

/// The three queries of a search, in the order they run: tracks by title,
/// artists by name, collections by title, each for exactly `query`.
pub fn search_queries(query: &String) -> (res: Vec<SqlStatement>)
    ensures
        res@.len() == 3,
        res@[0]@ == stmt(SEARCH_TRACKS_SQL@, seq![SqlValueView::Text(query@)]),
        res@[0]@.sql == "SELECT * FROM tracks WHERE TrackTitle = ?1"@,
        res@[1]@ == stmt(SEARCH_ARTISTS_SQL@, seq![SqlValueView::Text(query@)]),
        res@[1]@.sql == "SELECT * FROM artists WHERE ArtistName = ?1"@,
        res@[2]@ == stmt(SEARCH_COLLECTIONS_SQL@, seq![SqlValueView::Text(query@)]),
        res@[2]@.sql == "SELECT * FROM collections WHERE CollectionTitle = ?1"@,
{
    let mut res: Vec<SqlStatement> = Vec::new();
    res.push(statement1(SEARCH_TRACKS_SQL, text_value(query)));
    res.push(statement1(SEARCH_ARTISTS_SQL, text_value(query)));
    res.push(statement1(SEARCH_COLLECTIONS_SQL, text_value(query)));
    res
}

pub open spec fn track_hits(tracks: Seq<Track>) -> Seq<Metadata> {
    tracks.map_values(|t: Track| Metadata::Track(t))
}

pub open spec fn artist_hits(artists: Seq<Artist>) -> Seq<Metadata> {
    artists.map_values(|a: Artist| Metadata::Artist(a))
}

pub open spec fn collection_hits(collections: Seq<Collection>) -> Seq<Metadata> {
    collections.map_values(|c: Collection| Metadata::Collection(c))
}

/// The result of a search: the matching tracks, then the matching artists,
/// then the matching collections, each group in the order it was found.
pub fn search_results(tracks: Vec<Track>, artists: Vec<Artist>, collections: Vec<Collection>) -> (res:
    Vec<Metadata>)
    ensures
        res@ == track_hits(tracks@) + artist_hits(artists@) + collection_hits(collections@),
        res@.len() == tracks@.len() + artists@.len() + collections@.len(),
        forall|k: int| 0 <= k < tracks@.len() ==> #[trigger] res@[k] == Metadata::Track(tracks@[k]),
        forall|k: int|
            0 <= k < artists@.len() ==> #[trigger] res@[tracks@.len() + k] == Metadata::Artist(
                artists@[k],
            ),
        forall|k: int|
            0 <= k < collections@.len() ==> #[trigger] res@[tracks@.len() + artists@.len() + k]
                == Metadata::Collection(collections@[k]),
{
    let ghost t0 = tracks@;
    let ghost a0 = artists@;
    let ghost c0 = collections@;
    let mut res: Vec<Metadata> = Vec::new();
    for t in it: tracks
        invariant
            it.seq() == t0,
            res@ =~= track_hits(t0.take(it.index() as int)),
    {
        assert(t0.take(it.index() + 1) =~= t0.take(it.index() as int).push(t));
        res.push(Metadata::Track(t));
    }
    assert(t0.take(t0.len() as int) =~= t0);
    let ghost base = res@;
    for a in it: artists
        invariant
            it.seq() == a0,
            res@ =~= base + artist_hits(a0.take(it.index() as int)),
    {
        assert(a0.take(it.index() + 1) =~= a0.take(it.index() as int).push(a));
        res.push(Metadata::Artist(a));
    }
    assert(a0.take(a0.len() as int) =~= a0);
    let ghost base2 = res@;
    for c in it: collections
        invariant
            it.seq() == c0,
            res@ =~= base2 + collection_hits(c0.take(it.index() as int)),
    {
        assert(c0.take(it.index() + 1) =~= c0.take(it.index() as int).push(c));
        res.push(Metadata::Collection(c));
    }
    assert(c0.take(c0.len() as int) =~= c0);
    proof {
        law_search_hits_carry_rows_unchanged(t0, a0, c0);
    }
    res
}

/// A search hands back the rows it found unchanged, every field included:
/// first each track row, then each artist row, then each collection row,
/// in the order they were found, and nothing else.
pub proof fn law_search_hits_carry_rows_unchanged(
    tracks: Seq<Track>,
    artists: Seq<Artist>,
    collections: Seq<Collection>,
)
    ensures
        ({
            let hits = track_hits(tracks) + artist_hits(artists) + collection_hits(collections);
            &&& hits.len() == tracks.len() + artists.len() + collections.len()
            &&& forall|k: int| 0 <= k < tracks.len() ==> #[trigger] hits[k] == Metadata::Track(tracks[k])
            &&& forall|k: int|
                0 <= k < artists.len() ==> #[trigger] hits[tracks.len() + k] == Metadata::Artist(
                    artists[k],
                )
            &&& forall|k: int|
                0 <= k < collections.len() ==> #[trigger] hits[tracks.len() + artists.len() + k]
                    == Metadata::Collection(collections[k])
        }),
{
    let hits = track_hits(tracks) + artist_hits(artists) + collection_hits(collections);
    assert forall|k: int| 0 <= k < tracks.len() implies #[trigger] hits[k] == Metadata::Track(tracks[k]) by {
        assert(track_hits(tracks)[k] == Metadata::Track(tracks[k]));
    }
    assert forall|k: int| 0 <= k < artists.len() implies #[trigger] hits[tracks.len() + k]
        == Metadata::Artist(artists[k]) by {
        assert(artist_hits(artists)[k] == Metadata::Artist(artists[k]));
    }
    assert forall|k: int| 0 <= k < collections.len() implies #[trigger] hits[tracks.len()
        + artists.len() + k] == Metadata::Collection(collections[k]) by {
        assert(collection_hits(collections)[k] == Metadata::Collection(collections[k]));
    }
}

} // verus!
