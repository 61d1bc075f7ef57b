use vstd::prelude::*;

verus! {

/// Key of a row of the `tracks` table.
#[derive(Debug, Clone, Copy, PartialEq, Eq, Hash, Structural)]
pub struct TrackId(pub i64);

/// Key of a row of the `artists` table.
#[derive(Debug, Clone, Copy, PartialEq, Eq, Hash, Structural)]
pub struct ArtistId(pub i64);

/// Key of a row of the `collections` table.
#[derive(Debug, Clone, Copy, PartialEq, Eq, Hash, Structural)]
pub struct CollectionId(pub i64);

/// Key of a row of the `track_sources` table.
#[derive(Debug, Clone, Copy, PartialEq, Eq, Hash, Structural)]
pub struct TrackSourceId(pub i64);

/// Key of a row of the `collection_tracks` table.
#[derive(Debug, Clone, Copy, PartialEq, Eq, Hash, Structural)]
pub struct CollectionTrackId(pub i64);

} // verus!

verus! {

/// One row of the `tracks` table, as the catalogue hands it out.
#[derive(Debug, Clone)]
pub struct Track {
    pub id: TrackId,
    pub title: String,
    pub duration: i64,
    pub year: Option<i64>,
    pub created: String,
    pub updated: String,
}

/// One row of the `artists` table.
#[derive(Debug, Clone)]
pub struct Artist {
    pub id: ArtistId,
    pub name: String,
}

/// One row of the `collections` table (an album, or a list the user made).
#[derive(Debug, Clone)]
pub struct Collection {
    pub id: CollectionId,
    pub title: String,
    pub collection_type: String,
    pub is_user_generated: bool,
    pub created: String,
    pub updated: String,
}

/// One row of the `track_sources` table: where the audio of a track lives.
#[derive(Debug, Clone)]
pub struct TrackSource {
    pub id: TrackSourceId,
    pub track_id: TrackId,
    pub source: String,
    pub path: String,
    pub source_identifier: String,
}

/// One row of the `collection_tracks` table: a track's place in a collection.
#[derive(Debug, Clone)]
pub struct CollectionTrack {
    pub id: CollectionTrackId,
    pub track_id: TrackId,
    pub collection_id: CollectionId,
    pub position: i64,
    pub disc_number: i64,
}

/// A search hit: a track, an artist or a collection.
#[derive(Debug, Clone)]
pub enum Metadata {
    Track(Track),
    Artist(Artist),
    Collection(Collection),
}

/// The tracks waiting to be played, in playing order.
pub struct Queue {
    tracks: Vec<TrackId>,
}

/// What is being played right now, if anything.
pub struct PlaybackSession {
    playing: Option<TrackId>,
}

} // verus!
