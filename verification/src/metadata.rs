use vstd::prelude::*;

verus! {

/// What the catalogue records of an audio file: its tags and its technical
/// properties.
pub struct TrackMetadata {
    pub title: String,
    pub artist: String,
    pub album: Option<String>,
    pub duration: i64,
    pub bitrate: Option<i64>,
    pub sample_rate: Option<i64>,
    pub genre: Option<String>,
    pub year: Option<i64>,
    pub track_number: Option<i64>,
    pub disc_number: Option<i64>,
}

/// What a `TrackMetadata` stands for.
pub struct TrackMetadataView {
    pub title: Seq<char>,
    pub artist: Seq<char>,
    pub album: Option<Seq<char>>,
    pub duration: i64,
    pub bitrate: Option<i64>,
    pub sample_rate: Option<i64>,
    pub genre: Option<Seq<char>>,
    pub year: Option<i64>,
    pub track_number: Option<i64>,
    pub disc_number: Option<i64>,
}

impl View for TrackMetadata {
    type V = TrackMetadataView;

    open spec fn view(&self) -> TrackMetadataView {
        TrackMetadataView {
            title: self.title@,
            artist: self.artist@,
            album: self.album.deep_view(),
            duration: self.duration,
            bitrate: self.bitrate,
            sample_rate: self.sample_rate,
            genre: self.genre.deep_view(),
            year: self.year,
            track_number: self.track_number,
            disc_number: self.disc_number,
        }
    }
}

/// The common fields of a file's main tag, as the tag reader hands them out.
pub struct TagFields {
    pub title: Option<String>,
    pub artist: Option<String>,
    pub album: Option<String>,
    pub genre: Option<String>,
    /// The year of the tag's date.
    pub year: Option<u16>,
    pub track: Option<u32>,
    pub disk: Option<u32>,
}

/// What a `TagFields` stands for.
pub struct TagFieldsView {
    pub title: Option<Seq<char>>,
    pub artist: Option<Seq<char>>,
    pub album: Option<Seq<char>>,
    pub genre: Option<Seq<char>>,
    pub year: Option<u16>,
    pub track: Option<u32>,
    pub disk: Option<u32>,
}

impl View for TagFields {
    type V = TagFieldsView;

    open spec fn view(&self) -> TagFieldsView {
        TagFieldsView {
            title: self.title.deep_view(),
            artist: self.artist.deep_view(),
            album: self.album.deep_view(),
            genre: self.genre.deep_view(),
            year: self.year,
            track: self.track,
            disk: self.disk,
        }
    }
}

pub open spec fn widen_u32(o: Option<u32>) -> Option<i64> {
    match o {
        Some(v) => Some(v as i64),
        None => None,
    }
}

pub open spec fn widen_u16(o: Option<u16>) -> Option<i64> {
    match o {
        Some(v) => Some(v as i64),
        None => None,
    }
}

pub open spec fn or_default(o: Option<Seq<char>>, d: Seq<char>) -> Seq<char> {
    match o {
        Some(s) => s,
        None => d,
    }
}

/// The metadata recorded for a file whose properties are `duration_secs`
/// (whole seconds), `bitrate` and `sample_rate`, whose main tag (or, lacking
/// one, first tag) is `tag`, and whose file name without extension is `stem`.
pub open spec fn metadata_of(
    duration_secs: u64,
    bitrate: Option<u32>,
    sample_rate: Option<u32>,
    tag: Option<TagFieldsView>,
    stem: Seq<char>,
) -> TrackMetadataView {
    let (title, artist, album, genre, year, track_number, disc_number) = match tag {
        Some(t) => (
            or_default(t.title, "Unknown Title"@),
            or_default(t.artist, "Unknown Artist"@),
            t.album,
            t.genre,
            widen_u16(t.year),
            widen_u32(t.track),
            widen_u32(t.disk),
        ),
        None => (stem, "Unknown Artist"@, None, None, None, None, None),
    };
    TrackMetadataView {
        title,
        artist,
        album,
        duration: duration_secs as i64,
        bitrate: widen_u32(bitrate),
        sample_rate: widen_u32(sample_rate),
        genre,
        year,
        track_number,
        disc_number,
    }
}

fn widen_u32_exec(o: Option<u32>) -> (res: Option<i64>)
    ensures
        res == widen_u32(o),
{
    match o {
        Some(v) => Some(v as i64),
        None => None,
    }
}

fn text_or(o: Option<String>, default: &str) -> (res: String)
    ensures
        res@ == or_default(o.deep_view(), default@),
{
    match o {
        Some(s) => s,
        None => default.to_owned(),
    }
}

impl TrackMetadata {
    /// The metadata of an audio file, from what its tag reader found:
    /// missing title and artist become "Unknown Title" and "Unknown Artist";
    /// a file with no tag at all is titled by its file stem.
    pub fn from_tags(
        duration_secs: u64,
        bitrate: Option<u32>,
        sample_rate: Option<u32>,
        tag: Option<TagFields>,
        stem: String,
    ) -> (res: TrackMetadata)
        ensures
            res@ == metadata_of(
                duration_secs,
                bitrate,
                sample_rate,
                match tag {
                    Some(t) => Some(t@),
                    None => None,
                },
                stem@,
            ),
            res.duration == duration_secs as i64,
            res.bitrate == (match bitrate {
                Some(b) => Some(b as i64),
                None => None,
            }),
            res.sample_rate == (match sample_rate {
                Some(r) => Some(r as i64),
                None => None,
            }),
            tag is None ==> {
                &&& res.title@ == stem@
                &&& res.artist@ == "Unknown Artist"@
                &&& res.album is None
                &&& res.genre is None
                &&& res.year is None
                &&& res.track_number is None
                &&& res.disc_number is None
            },
            tag matches Some(t) ==> {
                &&& res.title@ == (match t.title {
                    Some(x) => x@,
                    None => "Unknown Title"@,
                })
                &&& res.artist@ == (match t.artist {
                    Some(x) => x@,
                    None => "Unknown Artist"@,
                })
                &&& res.album.deep_view() == t.album.deep_view()
                &&& res.genre.deep_view() == t.genre.deep_view()
                &&& res.year == (match t.year {
                    Some(y) => Some(y as i64),
                    None => None,
                })
                &&& res.track_number == (match t.track {
                    Some(n) => Some(n as i64),
                    None => None,
                })
                &&& res.disc_number == (match t.disk {
                    Some(d) => Some(d as i64),
                    None => None,
                })
            },
    {
        let duration = duration_secs as i64;
        let bitrate = widen_u32_exec(bitrate);
        let sample_rate = widen_u32_exec(sample_rate);
        match tag {
            Some(t) => {
                let year = match t.year {
                    Some(y) => Some(y as i64),
                    None => None,
                };
                let track_number = widen_u32_exec(t.track);
                let disc_number = widen_u32_exec(t.disk);
                TrackMetadata {
                    title: text_or(t.title, "Unknown Title"),
                    artist: text_or(t.artist, "Unknown Artist"),
                    album: t.album,
                    duration,
                    bitrate,
                    sample_rate,
                    genre: t.genre,
                    year,
                    track_number,
                    disc_number,
                }
            },
            None => TrackMetadata {
                title: stem,
                artist: "Unknown Artist".to_owned(),
                album: None,
                duration,
                bitrate,
                sample_rate,
                genre: None,
                year: None,
                track_number: None,
                disc_number: None,
            },
        }
    }
}

} // verus!
