use vstd::prelude::*;

use crate::metadata::{TrackMetadata, TrackMetadataView};
use crate::sql::{
    opt_int_view, opt_text_view, statement, statement1, statement2, stmt, text_value,
    optional_integer, optional_text, SqlStatement, SqlValue, SqlValueView,
    StatementView,
};
use crate::text::{artist_names, artist_names_of};

verus! {

pub const SOURCE_EXISTS_SQL: &'static str = "SELECT 1 FROM track_sources WHERE Path = ?1";

pub const COLLECTION_LOOKUP_SQL: &'static str =
    "SELECT CollectionId FROM collections WHERE CollectionTitle = ?1 AND CollectionType = 'album'";

pub const COLLECTION_INSERT_SQL: &'static str =
    "INSERT INTO collections (CollectionTitle, CollectionType, Created, Updated) VALUES (?1, 'album', datetime('now'), datetime('now'))";

pub const TRACK_INSERT_SQL: &'static str =
    "INSERT INTO tracks (TrackTitle, Duration, Bitrate, SampleRate, Genre, Year, Created, Updated) VALUES (?1, ?2, ?3, ?4, ?5, ?6, datetime('now'), datetime('now'))";

pub const ARTIST_LOOKUP_SQL: &'static str = "SELECT ArtistId FROM artists WHERE ArtistName = ?1";

pub const ARTIST_INSERT_SQL: &'static str = "INSERT INTO artists (ArtistName) VALUES (?1)";

pub const TRACK_ARTIST_LINK_SQL: &'static str =
    "INSERT INTO track_artists (TrackId, ArtistId) VALUES (?1, ?2)";

pub const COLLECTION_ARTIST_LINK_SQL: &'static str =
    "INSERT OR IGNORE INTO collection_artists (CollectionId, ArtistId) VALUES (?1, ?2)";

pub const COLLECTION_TRACK_LINK_SQL: &'static str =
    "INSERT INTO collection_tracks (CollectionId, TrackId, Position, DiscNumber) VALUES (?1, ?2, ?3, ?4)";

pub const SOURCE_LINK_SQL: &'static str =
    "INSERT INTO track_sources (TrackId, Source, Path, SourceIdentifier) VALUES (?1, 'local', ?2, 'local_file')";

/// Where the registration of one audio file stands: which statement was
/// handed out last and waits for its answer.
#[derive(Debug, Clone, Copy, PartialEq, Eq, Structural)]
pub enum PopulateStage {
    CheckingSource,
    FindingCollection,
    AddingCollection,
    AddingTrack,
    FindingArtist,
    AddingArtist,
    LinkingTrackArtist,
    LinkingCollectionArtist,
    LinkingCollectionTrack,
    LinkingSource,
    Finished,
}

/// What the caller is to do next against the open transaction.
#[derive(Debug, PartialEq, Eq)]
pub enum PopulateAction {
    /// Run the query and answer whether it returns a row.
    Exists(SqlStatement),
    /// Run the query and answer with column 0 of its first row, if any.
    Lookup(SqlStatement),
    /// Execute the statement and answer with the last inserted row id.
    Insert(SqlStatement),
    /// Execute the statement.
    Execute(SqlStatement),
    /// The file is registered; nothing is left to do.
    Finish,
}

/// What a `PopulateAction` stands for.
pub enum ActionView {
    Exists(StatementView),
    Lookup(StatementView),
    Insert(StatementView),
    Execute(StatementView),
    Finish,
}

impl View for PopulateAction {
    type V = ActionView;

    open spec fn view(&self) -> ActionView {
        match self {
            PopulateAction::Exists(s) => ActionView::Exists(s@),
            PopulateAction::Lookup(s) => ActionView::Lookup(s@),
            PopulateAction::Insert(s) => ActionView::Insert(s@),
            PopulateAction::Execute(s) => ActionView::Execute(s@),
            PopulateAction::Finish => ActionView::Finish,
        }
    }
}

/// The answer to the last action.
#[derive(Debug, Clone, Copy, PartialEq, Eq, Structural)]
pub enum PopulateEvent {
    Exists(bool),
    Found(Option<i64>),
    Inserted(i64),
    Executed,
}

/// The registration of one audio file in the catalogue, driven one answer
/// at a time: a file already known by its path is left alone; otherwise its
/// album (found or added), its track, its artists (each found or added) and
/// the links between them are written, and last the file itself as the
/// track's source.
pub struct Populator {
    path: String,
    meta: TrackMetadata,
    artists: Vec<String>,
    stage: PopulateStage,
    collection_id: Option<i64>,
    track_id: i64,
    artist_index: usize,
    artist_id: i64,
}

/// What a `Populator` stands for.
pub struct PopulatorView {
    pub path: Seq<char>,
    pub meta: TrackMetadataView,
    pub artists: Seq<Seq<char>>,
    pub stage: PopulateStage,
    pub collection_id: Option<i64>,
    pub track_id: i64,
    pub artist_index: int,
    pub artist_id: i64,
}

impl View for Populator {
    type V = PopulatorView;

    closed spec fn view(&self) -> PopulatorView {
        PopulatorView {
            path: self.path@,
            meta: self.meta@,
            artists: self.artists.deep_view(),
            stage: self.stage,
            collection_id: self.collection_id,
            track_id: self.track_id,
            artist_index: self.artist_index as int,
            artist_id: self.artist_id,
        }
    }
}

pub open spec fn source_exists_stmt(path: Seq<char>) -> StatementView {
    stmt(SOURCE_EXISTS_SQL@, seq![SqlValueView::Text(path)])
}

pub open spec fn collection_lookup_stmt(album: Seq<char>) -> StatementView {
    stmt(COLLECTION_LOOKUP_SQL@, seq![SqlValueView::Text(album)])
}

pub open spec fn collection_insert_stmt(album: Seq<char>) -> StatementView {
    stmt(COLLECTION_INSERT_SQL@, seq![SqlValueView::Text(album)])
}

pub open spec fn track_insert_stmt(m: TrackMetadataView) -> StatementView {
    stmt(
        TRACK_INSERT_SQL@,
        seq![
            SqlValueView::Text(m.title),
            SqlValueView::Integer(m.duration),
            opt_int_view(m.bitrate),
            opt_int_view(m.sample_rate),
            opt_text_view(m.genre),
            opt_int_view(m.year),
        ],
    )
}

pub open spec fn artist_lookup_stmt(name: Seq<char>) -> StatementView {
    stmt(ARTIST_LOOKUP_SQL@, seq![SqlValueView::Text(name)])
}

pub open spec fn artist_insert_stmt(name: Seq<char>) -> StatementView {
    stmt(ARTIST_INSERT_SQL@, seq![SqlValueView::Text(name)])
}

pub open spec fn track_artist_link_stmt(track: i64, artist: i64) -> StatementView {
    stmt(TRACK_ARTIST_LINK_SQL@, seq![SqlValueView::Integer(track), SqlValueView::Integer(artist)])
}

pub open spec fn collection_artist_link_stmt(collection: i64, artist: i64) -> StatementView {
    stmt(
        COLLECTION_ARTIST_LINK_SQL@,
        seq![SqlValueView::Integer(collection), SqlValueView::Integer(artist)],
    )
}

/// A track without a track number goes to position 0, one without a disc
/// number to disc 1.
pub open spec fn collection_track_link_stmt(
    collection: i64,
    track: i64,
    m: TrackMetadataView,
) -> StatementView {
    stmt(
        COLLECTION_TRACK_LINK_SQL@,
        seq![
            SqlValueView::Integer(collection),
            SqlValueView::Integer(track),
            SqlValueView::Integer(m.track_number.unwrap_or(0)),
            SqlValueView::Integer(m.disc_number.unwrap_or(1)),
        ],
    )
}

pub open spec fn source_link_stmt(track: i64, path: Seq<char>) -> StatementView {
    stmt(SOURCE_LINK_SQL@, seq![SqlValueView::Integer(track), SqlValueView::Text(path)])
}

/// Whether `e` answers the action that a populator in `stage` handed out.
pub open spec fn accepts(stage: PopulateStage, e: PopulateEvent) -> bool {
    match stage {
        PopulateStage::CheckingSource => e is Exists,
        PopulateStage::FindingCollection | PopulateStage::FindingArtist => e is Found,
        PopulateStage::AddingCollection | PopulateStage::AddingTrack
        | PopulateStage::AddingArtist => e is Inserted,
        PopulateStage::LinkingTrackArtist | PopulateStage::LinkingCollectionArtist
        | PopulateStage::LinkingCollectionTrack | PopulateStage::LinkingSource => e is Executed,
        PopulateStage::Finished => false,
    }
}

/// Whether the stage is one where the track row exists.
pub open spec fn past_track_insert(stage: PopulateStage) -> bool {
    match stage {
        PopulateStage::FindingArtist | PopulateStage::AddingArtist
        | PopulateStage::LinkingTrackArtist | PopulateStage::LinkingCollectionArtist
        | PopulateStage::LinkingCollectionTrack | PopulateStage::LinkingSource => true,
        _ => false,
    }
}

/// Whether the stage works on `artists[artist_index]`.
pub open spec fn on_artist(stage: PopulateStage) -> bool {
    match stage {
        PopulateStage::FindingArtist | PopulateStage::AddingArtist
        | PopulateStage::LinkingTrackArtist | PopulateStage::LinkingCollectionArtist => true,
        _ => false,
    }
}

impl PopulatorView {
    /// The invariant of a populator.
    pub open spec fn wf(self) -> bool {
        &&& self.artists == artist_names_of(self.meta.artist)
        &&& 0 <= self.artist_index <= self.artists.len()
        &&& on_artist(self.stage) ==> self.artist_index < self.artists.len()
        &&& (self.stage is FindingCollection || self.stage is AddingCollection)
            ==> self.meta.album is Some
        &&& (self.stage is LinkingCollectionArtist || self.stage is LinkingCollectionTrack)
            ==> self.collection_id is Some
    }

    /// The populator as it starts, for the file at `path` described by `meta`.
    pub open spec fn initial(path: Seq<char>, meta: TrackMetadataView) -> PopulatorView {
        PopulatorView {
            path,
            meta,
            artists: artist_names_of(meta.artist),
            stage: PopulateStage::CheckingSource,
            collection_id: None,
            track_id: 0,
            artist_index: 0,
            artist_id: 0,
        }
    }

    /// Once the album is known (or there is none): add the track.
    pub open spec fn add_track(self, collection_id: Option<i64>) -> (PopulatorView, ActionView) {
        (
            PopulatorView { stage: PopulateStage::AddingTrack, collection_id, ..self },
            ActionView::Insert(track_insert_stmt(self.meta)),
        )
    }

    /// After the artists: link the track to its album, if any, else to its source.
    pub open spec fn after_artists(self) -> (PopulatorView, ActionView) {
        match self.collection_id {
            Some(c) => (
                PopulatorView { stage: PopulateStage::LinkingCollectionTrack, ..self },
                ActionView::Execute(collection_track_link_stmt(c, self.track_id, self.meta)),
            ),
            None => (
                PopulatorView { stage: PopulateStage::LinkingSource, ..self },
                ActionView::Execute(source_link_stmt(self.track_id, self.path)),
            ),
        }
    }

    /// Go on with artist `i`, or with what follows the artists when none is left.
    pub open spec fn artist_from(self, i: int) -> (PopulatorView, ActionView) {
        if i < self.artists.len() {
            (
                PopulatorView { stage: PopulateStage::FindingArtist, artist_index: i, ..self },
                ActionView::Lookup(artist_lookup_stmt(self.artists[i])),
            )
        } else {
            PopulatorView { artist_index: i, ..self }.after_artists()
        }
    }

    /// Once the current artist's id is known: link it to the track.
    pub open spec fn link_artist(self, artist_id: i64) -> (PopulatorView, ActionView) {
        (
            PopulatorView { stage: PopulateStage::LinkingTrackArtist, artist_id, ..self },
            ActionView::Execute(track_artist_link_stmt(self.track_id, artist_id)),
        )
    }

    /// The next state and action of a populator that receives `e`; an
    /// answer of the wrong kind leaves it as it is.
    pub open spec fn transition(self, e: PopulateEvent) -> (PopulatorView, ActionView) {
        let unchanged = (self, ActionView::Finish);
        match self.stage {
            PopulateStage::CheckingSource => match e {
                PopulateEvent::Exists(known) => if known {
                    (PopulatorView { stage: PopulateStage::Finished, ..self }, ActionView::Finish)
                } else {
                    match self.meta.album {
                        Some(a) => (
                            PopulatorView { stage: PopulateStage::FindingCollection, ..self },
                            ActionView::Lookup(collection_lookup_stmt(a)),
                        ),
                        None => self.add_track(None),
                    }
                },
                _ => unchanged,
            },
            PopulateStage::FindingCollection => match e {
                PopulateEvent::Found(found) => match found {
                    Some(c) => self.add_track(Some(c)),
                    None => (
                        PopulatorView { stage: PopulateStage::AddingCollection, ..self },
                        ActionView::Insert(collection_insert_stmt(self.meta.album.unwrap())),
                    ),
                },
                _ => unchanged,
            },
            PopulateStage::AddingCollection => match e {
                PopulateEvent::Inserted(c) => self.add_track(Some(c)),
                _ => unchanged,
            },
            PopulateStage::AddingTrack => match e {
                PopulateEvent::Inserted(t) => PopulatorView { track_id: t, ..self }.artist_from(0),
                _ => unchanged,
            },
            PopulateStage::FindingArtist => match e {
                PopulateEvent::Found(found) => match found {
                    Some(a) => self.link_artist(a),
                    None => (
                        PopulatorView { stage: PopulateStage::AddingArtist, ..self },
                        ActionView::Insert(artist_insert_stmt(self.artists[self.artist_index])),
                    ),
                },
                _ => unchanged,
            },
            PopulateStage::AddingArtist => match e {
                PopulateEvent::Inserted(a) => self.link_artist(a),
                _ => unchanged,
            },
            PopulateStage::LinkingTrackArtist => match e {
                PopulateEvent::Executed => match self.collection_id {
                    Some(c) => (
                        PopulatorView { stage: PopulateStage::LinkingCollectionArtist, ..self },
                        ActionView::Execute(collection_artist_link_stmt(c, self.artist_id)),
                    ),
                    None => self.artist_from(self.artist_index + 1),
                },
                _ => unchanged,
            },
            PopulateStage::LinkingCollectionArtist => match e {
                PopulateEvent::Executed => self.artist_from(self.artist_index + 1),
                _ => unchanged,
            },
            PopulateStage::LinkingCollectionTrack => match e {
                PopulateEvent::Executed => (
                    PopulatorView { stage: PopulateStage::LinkingSource, ..self },
                    ActionView::Execute(source_link_stmt(self.track_id, self.path)),
                ),
                _ => unchanged,
            },
            PopulateStage::LinkingSource => match e {
                PopulateEvent::Executed => (
                    PopulatorView { stage: PopulateStage::Finished, ..self },
                    ActionView::Finish,
                ),
                _ => unchanged,
            },
            PopulateStage::Finished => unchanged,
        }
    }
}

fn int_value(i: i64) -> (res: SqlValue)
    ensures
        res@ == SqlValueView::Integer(i),
{
    SqlValue::Integer(i)
}

/// The statement that tells whether a file path is already a track source.
pub fn source_exists_query(path: &String) -> (res: SqlStatement)
    ensures
        res@ == source_exists_stmt(path@),
{
    statement1(SOURCE_EXISTS_SQL, text_value(path))
}

/// The statement that finds the album titled `album`.
pub fn collection_lookup_query(album: &String) -> (res: SqlStatement)
    ensures
        res@ == collection_lookup_stmt(album@),
{
    statement1(COLLECTION_LOOKUP_SQL, text_value(album))
}

/// The statement that adds the album titled `album`.
pub fn collection_insert_statement(album: &String) -> (res: SqlStatement)
    ensures
        res@ == collection_insert_stmt(album@),
{
    statement1(COLLECTION_INSERT_SQL, text_value(album))
}

/// The statement that adds a track described by `m`.
pub fn track_insert_statement(m: &TrackMetadata) -> (res: SqlStatement)
    ensures
        res@ == track_insert_stmt(m@),
        res@.params == seq![
            SqlValueView::Text(m.title@),
            SqlValueView::Integer(m.duration),
            opt_int_view(m.bitrate),
            opt_int_view(m.sample_rate),
            opt_text_view(m.genre.deep_view()),
            opt_int_view(m.year),
        ],
{
    let mut params: Vec<SqlValue> = Vec::new();
    params.push(text_value(&m.title));
    params.push(int_value(m.duration));
    params.push(optional_integer(m.bitrate));
    params.push(optional_integer(m.sample_rate));
    params.push(optional_text(&m.genre));
    params.push(optional_integer(m.year));
    let res = statement(TRACK_INSERT_SQL, params);
    assert(res@.params =~= track_insert_stmt(m@).params);
    res
}

/// The statement that finds the artist named `name`.
pub fn artist_lookup_query(name: &String) -> (res: SqlStatement)
    ensures
        res@ == artist_lookup_stmt(name@),
{
    statement1(ARTIST_LOOKUP_SQL, text_value(name))
}

/// The statement that adds the artist named `name`.
pub fn artist_insert_statement(name: &String) -> (res: SqlStatement)
    ensures
        res@ == artist_insert_stmt(name@),
{
    statement1(ARTIST_INSERT_SQL, text_value(name))
}

/// The statement that credits an artist on a track.
pub fn track_artist_link_statement(track: i64, artist: i64) -> (res: SqlStatement)
    ensures
        res@ == track_artist_link_stmt(track, artist),
{
    statement2(TRACK_ARTIST_LINK_SQL, int_value(track), int_value(artist))
}

/// The statement that credits an artist on an album, unless already credited.
pub fn collection_artist_link_statement(collection: i64, artist: i64) -> (res: SqlStatement)
    ensures
        res@ == collection_artist_link_stmt(collection, artist),
{
    statement2(COLLECTION_ARTIST_LINK_SQL, int_value(collection), int_value(artist))
}

/// The statement that places a track on its album.
pub fn collection_track_link_statement(collection: i64, track: i64, m: &TrackMetadata) -> (res:
    SqlStatement)
    ensures
        res@ == collection_track_link_stmt(collection, track, m@),
{
    let position = match m.track_number {
        Some(n) => n,
        None => 0,
    };
    let disc = match m.disc_number {
        Some(d) => d,
        None => 1,
    };
    let mut params: Vec<SqlValue> = Vec::new();
    params.push(int_value(collection));
    params.push(int_value(track));
    params.push(int_value(position));
    params.push(int_value(disc));
    let res = statement(COLLECTION_TRACK_LINK_SQL, params);
    assert(res@.params =~= collection_track_link_stmt(collection, track, m@).params);
    res
}

/// The statement that records a local file as a track's source.
pub fn source_link_statement(track: i64, path: &String) -> (res: SqlStatement)
    ensures
        res@ == source_link_stmt(track, path@),
{
    statement2(SOURCE_LINK_SQL, int_value(track), text_value(path))
}

impl Populator {
    /// Starts the registration of the file at `path` (as text) described by
    /// `meta`: the first action asks whether that path is already a source.
    pub fn new(path: String, meta: TrackMetadata) -> (res: (Populator, PopulateAction))
        ensures
            res.0@ == PopulatorView::initial(path@, meta@),
            res.0@.wf(),
            res.1@ == ActionView::Exists(source_exists_stmt(path@)),
            res.1@ == ActionView::Exists(
                stmt(
                    "SELECT 1 FROM track_sources WHERE Path = ?1"@,
                    seq![SqlValueView::Text(path@)],
                ),
            ),
            res.0@.artists == artist_names_of(meta@.artist),
            res.0@.stage == PopulateStage::CheckingSource,
    {
        let artists = artist_names(meta.artist.as_str());
        let action = PopulateAction::Exists(source_exists_query(&path));
        let p = Populator {
            path,
            meta,
            artists,
            stage: PopulateStage::CheckingSource,
            collection_id: None,
            track_id: 0,
            artist_index: 0,
            artist_id: 0,
        };
        (p, action)
    }

    /// The stage the populator is in.
    pub fn stage(&self) -> (res: PopulateStage)
        ensures
            res == self@.stage,
    {
        self.stage
    }

    /// Whether `e` answers the action handed out last.
    pub fn accepts(&self, e: PopulateEvent) -> (res: bool)
        ensures
            res == accepts(self@.stage, e),
    {
        match self.stage {
            PopulateStage::CheckingSource => matches!(e, PopulateEvent::Exists(_)),
            PopulateStage::FindingCollection | PopulateStage::FindingArtist => matches!(e, PopulateEvent::Found(_)),
            PopulateStage::AddingCollection | PopulateStage::AddingTrack
            | PopulateStage::AddingArtist => matches!(e, PopulateEvent::Inserted(_)),
            PopulateStage::LinkingTrackArtist | PopulateStage::LinkingCollectionArtist
            | PopulateStage::LinkingCollectionTrack | PopulateStage::LinkingSource => matches!(e, PopulateEvent::Executed),
            PopulateStage::Finished => false,
        }
    }

    fn add_track(&mut self, collection_id: Option<i64>) -> (res: PopulateAction)
        ensures
            (final(self)@, res@) == old(self)@.add_track(collection_id),
    {
        self.stage = PopulateStage::AddingTrack;
        self.collection_id = collection_id;
        PopulateAction::Insert(track_insert_statement(&self.meta))
    }

    fn after_artists(&mut self) -> (res: PopulateAction)
        ensures
            (final(self)@, res@) == old(self)@.after_artists(),
    {
        match self.collection_id {
            Some(c) => {
                self.stage = PopulateStage::LinkingCollectionTrack;
                PopulateAction::Execute(collection_track_link_statement(c, self.track_id, &self.meta))
            },
            None => {
                self.stage = PopulateStage::LinkingSource;
                PopulateAction::Execute(source_link_statement(self.track_id, &self.path))
            },
        }
    }

    fn artist_from(&mut self, i: usize) -> (res: PopulateAction)
        requires
            i <= old(self)@.artists.len(),
        ensures
            (final(self)@, res@) == old(self)@.artist_from(i as int),
    {
        self.artist_index = i;
        if i < self.artists.len() {
            self.stage = PopulateStage::FindingArtist;
            let q = artist_lookup_query(&self.artists[i]);
            proof {
                assert(self.artists.deep_view()[i as int] == self.artists@[i as int]@);
            }
            PopulateAction::Lookup(q)
        } else {
            self.after_artists()
        }
    }

    fn link_artist(&mut self, artist_id: i64) -> (res: PopulateAction)
        ensures
            (final(self)@, res@) == old(self)@.link_artist(artist_id),
    {
        self.stage = PopulateStage::LinkingTrackArtist;
        self.artist_id = artist_id;
        PopulateAction::Execute(track_artist_link_statement(self.track_id, artist_id))
    }

    /// Takes the answer to the last action and hands out the next one.
    pub fn step(&mut self, e: PopulateEvent) -> (res: PopulateAction)
        requires
            old(self)@.wf(),
            accepts(old(self)@.stage, e),
        ensures
            (final(self)@, res@) == old(self)@.transition(e),
            final(self)@.wf(),
    {
        proof {
            assert(self.artists.deep_view().len() == self.artists@.len());
        }
        match (self.stage, e) {
            (PopulateStage::CheckingSource, PopulateEvent::Exists(true)) => {
                self.stage = PopulateStage::Finished;
                PopulateAction::Finish
            },
            (PopulateStage::CheckingSource, PopulateEvent::Exists(false)) => {
                match &self.meta.album {
                    Some(a) => {
                        let q = collection_lookup_query(a);
                        self.stage = PopulateStage::FindingCollection;
                        PopulateAction::Lookup(q)
                    },
                    None => self.add_track(None),
                }
            },
            (PopulateStage::FindingCollection, PopulateEvent::Found(Some(c))) => self.add_track(
                Some(c),
            ),
            (PopulateStage::FindingCollection, PopulateEvent::Found(None)) => {
                let q = collection_insert_statement(self.meta.album.as_ref().unwrap());
                self.stage = PopulateStage::AddingCollection;
                PopulateAction::Insert(q)
            },
            (PopulateStage::AddingCollection, PopulateEvent::Inserted(c)) => self.add_track(
                Some(c),
            ),
            (PopulateStage::AddingTrack, PopulateEvent::Inserted(t)) => {
                self.track_id = t;
                self.artist_from(0)
            },
            (PopulateStage::FindingArtist, PopulateEvent::Found(Some(a))) => self.link_artist(a),
            (PopulateStage::FindingArtist, PopulateEvent::Found(None)) => {
                let q = artist_insert_statement(&self.artists[self.artist_index]);
                proof {
                    assert(self.artists.deep_view()[self.artist_index as int]
                        == self.artists@[self.artist_index as int]@);
                }
                self.stage = PopulateStage::AddingArtist;
                PopulateAction::Insert(q)
            },
            (PopulateStage::AddingArtist, PopulateEvent::Inserted(a)) => self.link_artist(a),
            (PopulateStage::LinkingTrackArtist, PopulateEvent::Executed) => {
                match self.collection_id {
                    Some(c) => {
                        self.stage = PopulateStage::LinkingCollectionArtist;
                        PopulateAction::Execute(collection_artist_link_statement(c, self.artist_id))
                    },
                    None => {
                        assert(self.artist_index < self.artists.len());
                        self.artist_from(self.artist_index + 1)
                    },
                }
            },
            (PopulateStage::LinkingCollectionArtist, PopulateEvent::Executed) => {
                assert(self.artist_index < self.artists.len());
                self.artist_from(self.artist_index + 1)
            },
            (PopulateStage::LinkingCollectionTrack, PopulateEvent::Executed) => {
                self.stage = PopulateStage::LinkingSource;
                PopulateAction::Execute(source_link_statement(self.track_id, &self.path))
            },
            (PopulateStage::LinkingSource, PopulateEvent::Executed) => {
                self.stage = PopulateStage::Finished;
                PopulateAction::Finish
            },
            _ => PopulateAction::Finish,
        }
    }
}

/// How many more actions a populator can hand out at most.
pub open spec fn remaining_actions(s: PopulatorView) -> int {
    let n = s.artists.len() as int;
    let i = s.artist_index;
    match s.stage {
        PopulateStage::Finished => 0,
        PopulateStage::LinkingSource => 1,
        PopulateStage::LinkingCollectionTrack => 2,
        PopulateStage::LinkingCollectionArtist => 4 * (n - i) - 1,
        PopulateStage::LinkingTrackArtist => 4 * (n - i),
        PopulateStage::AddingArtist => 4 * (n - i) + 1,
        PopulateStage::FindingArtist => 4 * (n - i) + 2,
        PopulateStage::AddingTrack => 4 * n + 3,
        PopulateStage::AddingCollection => 4 * n + 4,
        PopulateStage::FindingCollection => 4 * n + 5,
        PopulateStage::CheckingSource => 4 * n + 6,
    }
}

/// Every answer keeps the populator well formed and brings it closer to
/// the end: registering a file whose artist field lists `n` names takes at
/// most `4 * n + 7` statements, the first one included.
pub proof fn law_populate_progresses(s: PopulatorView, e: PopulateEvent)
    requires
        s.wf(),
        accepts(s.stage, e),
    ensures
        s.transition(e).0.wf(),
        0 <= remaining_actions(s.transition(e).0) < remaining_actions(s),
        s.stage is CheckingSource ==> remaining_actions(s) == 4 * s.artists.len() + 6,
{
}

/// A file whose path is already a track source is left alone: the answer
/// "it exists" ends the registration before any write.
pub proof fn law_known_source_is_left_alone(path: Seq<char>, meta: TrackMetadataView)
    ensures
        PopulatorView::initial(path, meta).transition(PopulateEvent::Exists(true)).1
            == ActionView::Finish,
        PopulatorView::initial(path, meta).transition(PopulateEvent::Exists(true)).0.stage
            == PopulateStage::Finished,
{
}

/// The registration ends only after the source check found the path, or
/// once the file has been recorded as the track's source.
pub proof fn law_finish_follows_source(s: PopulatorView, e: PopulateEvent)
    requires
        s.wf(),
        accepts(s.stage, e),
        s.transition(e).1 is Finish,
    ensures
        (s.stage is CheckingSource && e == PopulateEvent::Exists(true)) || s.stage is LinkingSource,
{
}

/// The track's row id is the one the database gave for the track insert,
/// and the album's id, once known, stays the same: every later link uses them.
pub proof fn law_ids_are_kept(s: PopulatorView, e: PopulateEvent)
    requires
        s.wf(),
        accepts(s.stage, e),
    ensures
        past_track_insert(s.stage) ==> s.transition(e).0.track_id == s.track_id,
        (past_track_insert(s.stage) || s.stage is AddingTrack) ==> s.transition(e).0.collection_id
            == s.collection_id,
        forall|t: i64|
            s.stage is AddingTrack && e == PopulateEvent::Inserted(t) ==> #[trigger] s.transition(
                PopulateEvent::Inserted(t),
            ).0.track_id == t,
{
}

/// The state a populator ends in, and the actions it hands out, while it
/// receives `events` one after another.
pub open spec fn run(s: PopulatorView, events: Seq<PopulateEvent>) -> (PopulatorView, Seq<ActionView>)
    decreases events.len(),
{
    if events.len() == 0 {
        (s, Seq::<ActionView>::empty())
    } else {
        let next = s.transition(events[0]);
        let rest = run(next.0, events.drop_first());
        (rest.0, seq![next.1] + rest.1)
    }
}

/// Whether each of `events` answers the action handed out just before it.
pub open spec fn answers_fit(s: PopulatorView, events: Seq<PopulateEvent>) -> bool
    decreases events.len(),
{
    events.len() == 0 || (accepts(s.stage, events[0]) && answers_fit(
        s.transition(events[0]).0,
        events.drop_first(),
    ))
}

/// The artist names that `actions` look up, in order.
pub open spec fn artist_lookups(actions: Seq<ActionView>) -> Seq<Seq<char>>
    decreases actions.len(),
{
    if actions.len() == 0 {
        Seq::<Seq<char>>::empty()
    } else {
        let rest = artist_lookups(actions.drop_first());
        match actions[0] {
            ActionView::Lookup(st) => if st.sql == ARTIST_LOOKUP_SQL@ && st.params.len() == 1
                && st.params[0] is Text {
                seq![st.params[0]->Text_0] + rest
            } else {
                rest
            },
            _ => rest,
        }
    }
}

/// The (track, artist) pairs that `actions` link, in order.
pub open spec fn track_artist_links(actions: Seq<ActionView>) -> Seq<(i64, i64)>
    decreases actions.len(),
{
    if actions.len() == 0 {
        Seq::<(i64, i64)>::empty()
    } else {
        let rest = track_artist_links(actions.drop_first());
        match actions[0] {
            ActionView::Execute(st) => if st.sql == TRACK_ARTIST_LINK_SQL@ && st.params.len() == 2
                && st.params[0] is Integer && st.params[1] is Integer {
                seq![(st.params[0]->Integer_0, st.params[1]->Integer_0)] + rest
            } else {
                rest
            },
            _ => rest,
        }
    }
}

/// The position in the artist list of the next artist to look up.
pub open spec fn next_artist(s: PopulatorView) -> int {
    match s.stage {
        PopulateStage::CheckingSource | PopulateStage::FindingCollection
        | PopulateStage::AddingCollection | PopulateStage::AddingTrack => 0,
        PopulateStage::FindingArtist | PopulateStage::AddingArtist
        | PopulateStage::LinkingTrackArtist | PopulateStage::LinkingCollectionArtist => s.artist_index
            + 1,
        _ => s.artists.len() as int,
    }
}

/// How many track–artist links are still to be written.
pub open spec fn links_ahead(s: PopulatorView) -> int {
    match s.stage {
        PopulateStage::CheckingSource | PopulateStage::FindingCollection
        | PopulateStage::AddingCollection | PopulateStage::AddingTrack => s.artists.len() as int,
        PopulateStage::FindingArtist | PopulateStage::AddingArtist => s.artists.len()
            - s.artist_index,
        PopulateStage::LinkingTrackArtist | PopulateStage::LinkingCollectionArtist => s.artists.len()
            - s.artist_index - 1,
        _ => 0,
    }
}

proof fn lemma_statement_texts_differ()
    ensures
        ARTIST_LOOKUP_SQL@ != COLLECTION_LOOKUP_SQL@,
        TRACK_ARTIST_LINK_SQL@ != COLLECTION_ARTIST_LINK_SQL@,
        TRACK_ARTIST_LINK_SQL@ != COLLECTION_TRACK_LINK_SQL@,
        TRACK_ARTIST_LINK_SQL@ != SOURCE_LINK_SQL@,
{
    reveal_strlit("SELECT ArtistId FROM artists WHERE ArtistName = ?1");
    reveal_strlit("SELECT CollectionId FROM collections WHERE CollectionTitle = ?1 AND CollectionType = 'album'");
    reveal_strlit("INSERT INTO track_artists (TrackId, ArtistId) VALUES (?1, ?2)");
    reveal_strlit("INSERT OR IGNORE INTO collection_artists (CollectionId, ArtistId) VALUES (?1, ?2)");
    reveal_strlit("INSERT INTO collection_tracks (CollectionId, TrackId, Position, DiscNumber) VALUES (?1, ?2, ?3, ?4)");
    reveal_strlit("INSERT INTO track_sources (TrackId, Source, Path, SourceIdentifier) VALUES (?1, 'local', ?2, 'local_file')");
    assert(ARTIST_LOOKUP_SQL@.len() != COLLECTION_LOOKUP_SQL@.len());
    assert(TRACK_ARTIST_LINK_SQL@.len() != COLLECTION_ARTIST_LINK_SQL@.len());
    assert(TRACK_ARTIST_LINK_SQL@.len() != COLLECTION_TRACK_LINK_SQL@.len());
    assert(TRACK_ARTIST_LINK_SQL@.len() != SOURCE_LINK_SQL@.len());
}

proof fn lemma_run_step(s: PopulatorView, events: Seq<PopulateEvent>)
    requires
        events.len() > 0,
    ensures
        run(s, events).0 == run(s.transition(events[0]).0, events.drop_first()).0,
        artist_lookups(run(s, events).1) == artist_lookups(seq![s.transition(events[0]).1])
            + artist_lookups(run(s.transition(events[0]).0, events.drop_first()).1),
        track_artist_links(run(s, events).1) == track_artist_links(seq![s.transition(events[0]).1])
            + track_artist_links(run(s.transition(events[0]).0, events.drop_first()).1),
{
    let a = s.transition(events[0]).1;
    let rest = run(s.transition(events[0]).0, events.drop_first()).1;
    assert((seq![a] + rest).drop_first() =~= rest);
    assert(seq![a].drop_first() =~= Seq::<ActionView>::empty());
    assert(artist_lookups(Seq::<ActionView>::empty()) =~= Seq::<Seq<char>>::empty());
    assert(track_artist_links(Seq::<ActionView>::empty()) =~= Seq::<(i64, i64)>::empty());
    assert(artist_lookups(seq![a]) + artist_lookups(rest) =~= artist_lookups(seq![a] + rest));
    assert(track_artist_links(seq![a]) + track_artist_links(rest) =~= track_artist_links(
        seq![a] + rest,
    ));
}

proof fn lemma_run_counts(s: PopulatorView, events: Seq<PopulateEvent>)
    requires
        s.wf(),
        answers_fit(s, events),
        run(s, events).0.stage is Finished,
        !(s.stage is CheckingSource && events.len() > 0 && events[0] == PopulateEvent::Exists(true)),
    ensures
        artist_lookups(run(s, events).1) =~= s.artists.subrange(next_artist(s), s.artists.len() as int),
        track_artist_links(run(s, events).1).len() == links_ahead(s),
        forall|k: int|
            0 <= k < track_artist_links(run(s, events).1).len() ==> (#[trigger] track_artist_links(
                run(s, events).1,
            )[k]).0 == run(s, events).0.track_id,
        (past_track_insert(s.stage) || s.stage is Finished) ==> run(s, events).0.track_id
            == s.track_id,
    decreases events.len(),
{
    if events.len() == 0 {
        assert(artist_lookups(Seq::<ActionView>::empty()) =~= Seq::<Seq<char>>::empty());
        assert(track_artist_links(Seq::<ActionView>::empty()) =~= Seq::<(i64, i64)>::empty());
    } else {
        let e = events[0];
        let next = s.transition(e);
        let s1 = next.0;
        let a = next.1;
        let tail = events.drop_first();
        law_populate_progresses(s, e);
        law_ids_are_kept(s, e);
        lemma_statement_texts_differ();
        lemma_run_step(s, events);
        lemma_run_counts(s1, tail);
        assert(seq![a].drop_first() =~= Seq::<ActionView>::empty());
        assert(artist_lookups(Seq::<ActionView>::empty()) =~= Seq::<Seq<char>>::empty());
        assert(track_artist_links(Seq::<ActionView>::empty()) =~= Seq::<(i64, i64)>::empty());
        let n = s.artists.len() as int;
        if next_artist(s) < n && next_artist(s1) == next_artist(s) + 1 {
            assert(s.artists.subrange(next_artist(s), n) =~= seq![s.artists[next_artist(s)]]
                + s.artists.subrange(next_artist(s1), n));
        }
        let links = track_artist_links(run(s, events).1);
        let links1 = track_artist_links(run(s1, tail).1);
        assert forall|k: int| 0 <= k < links.len() implies (#[trigger] links[k]).0 == run(
            s,
            events,
        ).0.track_id by {
            if track_artist_links(seq![a]).len() == 1 {
                if k > 0 {
                    assert(links[k] == links1[k - 1]);
                }
            } else {
                assert(links[k] == links1[k]);
            }
        }
    }
}

/// Registering a file whose path is not yet a source, answered until the
/// populator finishes, looks up every artist name of the artist field once,
/// in the order listed, and writes exactly one track–artist link per listed
/// name, each for the track row the registration added.
pub proof fn law_every_listed_artist_is_linked(
    path: Seq<char>,
    meta: TrackMetadataView,
    events: Seq<PopulateEvent>,
)
    requires
        events.len() > 0,
        events[0] == PopulateEvent::Exists(false),
        answers_fit(PopulatorView::initial(path, meta), events),
        run(PopulatorView::initial(path, meta), events).0.stage is Finished,
    ensures
        artist_lookups(run(PopulatorView::initial(path, meta), events).1) == artist_names_of(
            meta.artist,
        ),
        track_artist_links(run(PopulatorView::initial(path, meta), events).1).len()
            == artist_names_of(meta.artist).len(),
        forall|k: int|
            0 <= k < artist_names_of(meta.artist).len() ==> (#[trigger] track_artist_links(
                run(PopulatorView::initial(path, meta), events).1,
            )[k]).0 == run(PopulatorView::initial(path, meta), events).0.track_id,
{
    let s = PopulatorView::initial(path, meta);
    lemma_run_counts(s, events);
    assert(s.artists.subrange(0, s.artists.len() as int) =~= s.artists);
}

/// The track row is written column by column from the metadata: the
/// statement names the columns TrackTitle, Duration, Bitrate, SampleRate,
/// Genre, Year in that order and binds `?1`..`?6` to the title, duration,
/// bitrate, sample rate, genre and year, NULL for a missing one.
pub proof fn law_track_row_matches_columns(m: TrackMetadataView)
    ensures
        track_insert_stmt(m).sql
            == "INSERT INTO tracks (TrackTitle, Duration, Bitrate, SampleRate, Genre, Year, Created, Updated) VALUES (?1, ?2, ?3, ?4, ?5, ?6, datetime('now'), datetime('now'))"@,
        track_insert_stmt(m).params.len() == 6,
        track_insert_stmt(m).params[0] == SqlValueView::Text(m.title),
        track_insert_stmt(m).params[1] == SqlValueView::Integer(m.duration),
        track_insert_stmt(m).params[2] == (match m.bitrate {
            Some(b) => SqlValueView::Integer(b),
            None => SqlValueView::Null,
        }),
        track_insert_stmt(m).params[3] == (match m.sample_rate {
            Some(r) => SqlValueView::Integer(r),
            None => SqlValueView::Null,
        }),
        track_insert_stmt(m).params[4] == (match m.genre {
            Some(g) => SqlValueView::Text(g),
            None => SqlValueView::Null,
        }),
        track_insert_stmt(m).params[5] == (match m.year {
            Some(y) => SqlValueView::Integer(y),
            None => SqlValueView::Null,
        }),
{
}

proof fn lemma_insert_texts_differ()
    ensures
        TRACK_INSERT_SQL@ != COLLECTION_INSERT_SQL@,
        TRACK_INSERT_SQL@ != ARTIST_INSERT_SQL@,
{
    reveal_strlit("INSERT INTO tracks (TrackTitle, Duration, Bitrate, SampleRate, Genre, Year, Created, Updated) VALUES (?1, ?2, ?3, ?4, ?5, ?6, datetime('now'), datetime('now'))");
    reveal_strlit("INSERT INTO collections (CollectionTitle, CollectionType, Created, Updated) VALUES (?1, 'album', datetime('now'), datetime('now'))");
    reveal_strlit("INSERT INTO artists (ArtistName) VALUES (?1)");
    assert(TRACK_INSERT_SQL@.len() != COLLECTION_INSERT_SQL@.len());
    assert(TRACK_INSERT_SQL@.len() != ARTIST_INSERT_SQL@.len());
}

/// Whenever a populator adds a track row, it binds the metadata it was
/// started with: title, duration, bitrate, sample rate, genre and year, in
/// the order of the statement's columns.
pub proof fn law_track_insert_binds_the_metadata(s: PopulatorView, e: PopulateEvent)
    requires
        s.wf(),
        accepts(s.stage, e),
        s.transition(e).1 matches ActionView::Insert(st) && st.sql == TRACK_INSERT_SQL@,
    ensures
        s.transition(e).1 == ActionView::Insert(
            stmt(
                TRACK_INSERT_SQL@,
                seq![
                    SqlValueView::Text(s.meta.title),
                    SqlValueView::Integer(s.meta.duration),
                    opt_int_view(s.meta.bitrate),
                    opt_int_view(s.meta.sample_rate),
                    opt_text_view(s.meta.genre),
                    opt_int_view(s.meta.year),
                ],
            ),
        ),
{
    lemma_insert_texts_differ();
}

/// Each statement that registration writes binds the rows it is about:
/// the album is looked up and added by its title; an artist is added by its
/// name; the track–artist link binds the track's row id and the id the
/// database gave for that artist; the album–artist link binds the album's
/// id and that artist's id; the album–track link binds the album, the
/// track, the track number (0 when missing) and the disc number (1 when
/// missing); and the source link binds the track and the file's path.
pub proof fn law_statements_bind_their_rows(s: PopulatorView, e: PopulateEvent)
    requires
        s.wf(),
        accepts(s.stage, e),
    ensures
        (s.stage is CheckingSource && e == PopulateEvent::Exists(false) && s.meta.album is Some)
            ==> s.transition(e).1 == ActionView::Lookup(
            stmt(
                "SELECT CollectionId FROM collections WHERE CollectionTitle = ?1 AND CollectionType = 'album'"@,
                seq![SqlValueView::Text(s.meta.album->0)],
            ),
        ),
        (s.stage is FindingCollection && e == PopulateEvent::Found(None)) ==> s.transition(e).1
            == ActionView::Insert(
            stmt(
                "INSERT INTO collections (CollectionTitle, CollectionType, Created, Updated) VALUES (?1, 'album', datetime('now'), datetime('now'))"@,
                seq![SqlValueView::Text(s.meta.album->0)],
            ),
        ),
        (s.stage is FindingArtist && e == PopulateEvent::Found(None)) ==> s.transition(e).1
            == ActionView::Insert(
            stmt(
                "INSERT INTO artists (ArtistName) VALUES (?1)"@,
                seq![SqlValueView::Text(s.artists[s.artist_index])],
            ),
        ),
        forall|x: i64|
            ((s.stage is FindingArtist && e == PopulateEvent::Found(Some(x))) || (s.stage is AddingArtist
                && e == PopulateEvent::Inserted(x))) ==> #[trigger] s.transition(e).1
                == ActionView::Execute(
                stmt(
                    "INSERT INTO track_artists (TrackId, ArtistId) VALUES (?1, ?2)"@,
                    seq![SqlValueView::Integer(s.track_id), SqlValueView::Integer(x)],
                ),
            ),
        (s.stage is LinkingTrackArtist && s.collection_id is Some) ==> s.transition(e).1
            == ActionView::Execute(
            stmt(
                "INSERT OR IGNORE INTO collection_artists (CollectionId, ArtistId) VALUES (?1, ?2)"@,
                seq![
                    SqlValueView::Integer(s.collection_id->0),
                    SqlValueView::Integer(s.artist_id),
                ],
            ),
        ),
        (s.transition(e).0.stage is LinkingCollectionTrack) ==> s.transition(e).1
            == ActionView::Execute(
            stmt(
                "INSERT INTO collection_tracks (CollectionId, TrackId, Position, DiscNumber) VALUES (?1, ?2, ?3, ?4)"@,
                seq![
                    SqlValueView::Integer(s.transition(e).0.collection_id->0),
                    SqlValueView::Integer(s.transition(e).0.track_id),
                    SqlValueView::Integer(
                        match s.meta.track_number {
                            Some(n) => n,
                            None => 0,
                        },
                    ),
                    SqlValueView::Integer(
                        match s.meta.disc_number {
                            Some(d) => d,
                            None => 1,
                        },
                    ),
                ],
            ),
        ),
        (s.transition(e).0.stage is LinkingSource) ==> s.transition(e).1 == ActionView::Execute(
            stmt(
                "INSERT INTO track_sources (TrackId, Source, Path, SourceIdentifier) VALUES (?1, 'local', ?2, 'local_file')"@,
                seq![
                    SqlValueView::Integer(s.transition(e).0.track_id),
                    SqlValueView::Text(s.path),
                ],
            ),
        ),
{
}

} // verus!
