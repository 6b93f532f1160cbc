//! The record model: an artist, an album, a track, one page of the feed,
//! and the row that one archived track becomes in the store. An identifier
//! equal to the empty string is normalized to absent, never kept as `""`.

use vstd::prelude::*;
use vstd::string::StrSliceExecFns;
use crate::text::opt_view;

verus! {

/// An artist: an optional identifier and a name.
#[derive(Debug)]
pub struct Artist {
    pub mbid: Option<String>,
    pub name: String,
}

/// An album: an optional identifier and a name.
#[derive(Debug)]
pub struct Album {
    pub mbid: Option<String>,
    pub name: String,
}

/// One listening-history entry: its optional artist and album, an optional
/// track identifier, the required track name, and the completion time as
/// unix seconds (UTC, second precision, stored exactly).
#[derive(Debug)]
pub struct Track {
    pub artist: Option<Artist>,
    pub album: Option<Album>,
    pub mbid: Option<String>,
    pub name: String,
    pub time: i64,
}

/// One page of the feed: its 1-indexed page number, the total number of
/// pages, the total number of records (0 when the feed did not report
/// one), and the records of this page in feed order.
#[derive(Debug)]
pub struct Response {
    pub page: u64,
    pub total_pages: u64,
    pub total_tracks: u64,
    pub tracks: Vec<Track>,
}

/// One row of the store, with the track's fields mapped onto plain
/// columns; absent identifiers and entities become null columns.
#[derive(Debug)]
pub struct Row {
    pub time: i64,
    pub track_mbid: Option<String>,
    pub track_name: String,
    pub artist_mbid: Option<String>,
    pub artist_name: Option<String>,
    pub album_mbid: Option<String>,
    pub album_name: Option<String>,
}

/// Empty-identifier normalization: an empty string is absent.
pub open spec fn normalized(o: Option<Seq<char>>) -> Option<Seq<char>> {
    match o {
        Some(s) => if s.len() == 0 {
            None
        } else {
            Some(s)
        },
        None => None,
    }
}

/// Normalize an optional identifier: an empty string becomes absent.
pub fn normalize_id(o: Option<String>) -> (r: Option<String>)
    ensures
        opt_view(r) == normalized(opt_view(o)),
{
    match o {
        Some(s) => if s.unicode_len() == 0 {
            None
        } else {
            Some(s)
        },
        None => None,
    }
}

/// The identifier column an optional artist contributes.
pub open spec fn spec_artist_mbid(a: Option<Artist>) -> Option<Seq<char>> {
    match a {
        Some(ar) => opt_view(ar.mbid),
        None => None,
    }
}

/// The name column an optional artist contributes.
pub open spec fn spec_artist_name(a: Option<Artist>) -> Option<Seq<char>> {
    match a {
        Some(ar) => Some(ar.name@),
        None => None,
    }
}

/// The identifier column an optional album contributes.
pub open spec fn spec_album_mbid(a: Option<Album>) -> Option<Seq<char>> {
    match a {
        Some(al) => opt_view(al.mbid),
        None => None,
    }
}

/// The name column an optional album contributes.
pub open spec fn spec_album_name(a: Option<Album>) -> Option<Seq<char>> {
    match a {
        Some(al) => Some(al.name@),
        None => None,
    }
}

/// How a track maps onto a row: the unix-second time column, the track's
/// own identifier and name, and the columns its optional artist and album
/// contribute.
pub open spec fn row_matches(t: Track, r: Row) -> bool {
    &&& r.time == t.time
    &&& opt_view(r.track_mbid) == opt_view(t.mbid)
    &&& r.track_name@ == t.name@
    &&& opt_view(r.artist_mbid) == spec_artist_mbid(t.artist)
    &&& opt_view(r.artist_name) == spec_artist_name(t.artist)
    &&& opt_view(r.album_mbid) == spec_album_mbid(t.album)
    &&& opt_view(r.album_name) == spec_album_name(t.album)
}

fn clone_opt_string(o: &Option<String>) -> (r: Option<String>)
    ensures
        opt_view(r) == opt_view(*o),
{
    match o {
        Some(s) => Some(s.clone()),
        None => None,
    }
}

impl Track {
    /// Build a track from its parts; the timestamp is kept exactly as the
    /// unix seconds it was constructed from.
    pub fn new(
        artist: Option<Artist>,
        album: Option<Album>,
        mbid: Option<String>,
        name: String,
        time: i64,
    ) -> (r: Track)
        ensures
            r.artist == artist,
            r.album == album,
            r.mbid == mbid,
            r.name == name,
            r.time == time,
    {
        Track { artist, album, mbid, name, time }
    }

    /// The completion time of the track, as unix seconds: exactly the
    /// value the track was constructed from.
    pub fn timestamp(&self) -> (r: i64)
        ensures
            r == self.time,
    {
        self.time
    }

    /// The row this track becomes in the store.
    pub fn row(&self) -> (r: Row)
        ensures
            row_matches(*self, r),
    {
        let (artist_mbid, artist_name) = match &self.artist {
            Some(ar) => (clone_opt_string(&ar.mbid), Some(ar.name.clone())),
            None => (None, None),
        };
        let (album_mbid, album_name) = match &self.album {
            Some(al) => (clone_opt_string(&al.mbid), Some(al.name.clone())),
            None => (None, None),
        };
        Row {
            time: self.time,
            track_mbid: clone_opt_string(&self.mbid),
            track_name: self.name.clone(),
            artist_mbid,
            artist_name,
            album_mbid,
            album_name,
        }
    }
}

/// Round trip: a track built from unix seconds `time` carries exactly
/// that value, so reading its timestamp back yields the constructor's
/// argument unchanged.
pub proof fn lemma_timestamp_round_trip(
    artist: Option<Artist>,
    album: Option<Album>,
    mbid: Option<String>,
    name: String,
    time: i64,
)
    ensures
        (Track { artist, album, mbid, name, time }).time == time,
{
}

/// The rows of one page, one per track, in page order.
pub fn page_rows(resp: &Response) -> (rows: Vec<Row>)
    ensures
        rows@.len() == resp.tracks@.len(),
        forall|i: int| 0 <= i < rows@.len() ==> row_matches(resp.tracks@[i], #[trigger] rows@[i]),
{
    let mut rows: Vec<Row> = Vec::new();
    let len = resp.tracks.len();
    let mut i: usize = 0;
    while i < len
        invariant
            len == resp.tracks@.len(),
            i <= len,
            rows@.len() == i,
            forall|j: int| 0 <= j < i ==> row_matches(resp.tracks@[j], #[trigger] rows@[j]),
        decreases len - i,
    {
        let row = resp.tracks[i].row();
        rows.push(row);
        i += 1;
    }
    rows
}

} // verus!
