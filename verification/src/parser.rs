//! The page parser: turns one raw response body into a validated page of
//! records plus pagination metadata, or a structured error. The root's
//! `status` decides: `"ok"` leads to structural extraction, `"failed"`
//! carries an embedded error message, anything else is an unknown status.

use vstd::prelude::*;
use vstd::string::{StrSliceExecFns, StringExecFns};
use crate::errors::ArchiveError;
use crate::model::{Album, Artist, Response, Track, normalize_id, normalized};
use crate::numbers::{is_i64_string, is_u64_string, i64_string_val, parse_i64, parse_u64,
    u64_string_val};
use crate::text::{opt_view, str_eq};
use crate::xml::{XmlNode, find_child, get_attr, parse_xml, spec_attr, spec_child,
    spec_text, spec_xml_parses};

verus! {

broadcast use vstd::string::group_string_axioms;

/// Whether a record element is flagged as currently playing. Such a record
/// lacks a completed-at timestamp and is dropped before parsing.
pub open spec fn spec_now_playing(c: XmlNode) -> bool {
    spec_attr(c, "nowplaying"@) == Some("true"@)
}

/// The parse failure a record element produces, if any, in the order the
/// fields are required: the artist, album, mbid, name and date elements
/// must exist, the name must extract to non-empty text, and the date must
/// carry a `uts` attribute that reads as an `i64`.
pub open spec fn spec_track_err(t: XmlNode) -> Option<Seq<char>> {
    if spec_child(t, "artist"@) is None {
        Some("missing artist"@)
    } else if spec_child(t, "album"@) is None {
        Some("missing album"@)
    } else if spec_child(t, "mbid"@) is None {
        Some("missing mbid"@)
    } else if spec_child(t, "name"@) is None {
        Some("missing name"@)
    } else if !(spec_text(spec_child(t, "name"@).unwrap()) matches Some(nm) && nm.len() > 0) {
        Some("empty name"@)
    } else if spec_child(t, "date"@) is None {
        Some("missing date"@)
    } else if spec_attr(spec_child(t, "date"@).unwrap(), "uts"@) is None {
        Some("missing timestamp"@)
    } else if !is_i64_string(spec_attr(spec_child(t, "date"@).unwrap(), "uts"@).unwrap()) {
        Some("invalid timestamp"@)
    } else {
        None
    }
}

/// How an artist element maps onto an optional artist: absent text content
/// means no artist at all; otherwise the text is the name and the `mbid`
/// attribute, normalized, is the identifier.
pub open spec fn artist_matches(child: XmlNode, e: Option<Artist>) -> bool {
    match spec_text(child) {
        None => e is None,
        Some(nm) => e matches Some(a) && a.name@ == nm && opt_view(a.mbid) == normalized(
            spec_attr(child, "mbid"@),
        ),
    }
}

/// How an album element maps onto an optional album, exactly as an artist
/// element maps onto an artist.
pub open spec fn album_matches(child: XmlNode, e: Option<Album>) -> bool {
    match spec_text(child) {
        None => e is None,
        Some(nm) => e matches Some(a) && a.name@ == nm && opt_view(a.mbid) == normalized(
            spec_attr(child, "mbid"@),
        ),
    }
}

/// How a record element maps onto a track when it parses: every field is
/// pinned by the element's children.
pub open spec fn track_matches(t: XmlNode, tr: Track) -> bool {
    &&& spec_track_err(t) is None
    &&& artist_matches(spec_child(t, "artist"@).unwrap(), tr.artist)
    &&& album_matches(spec_child(t, "album"@).unwrap(), tr.album)
    &&& opt_view(tr.mbid) == normalized(spec_text(spec_child(t, "mbid"@).unwrap()))
    &&& Some(tr.name@) == spec_text(spec_child(t, "name"@).unwrap())
    &&& tr.time == i64_string_val(spec_attr(spec_child(t, "date"@).unwrap(), "uts"@).unwrap())
}

/// A track's name is never empty, and a track never keeps an empty
/// identifier: each of the three is either absent or non-empty.
pub open spec fn track_wf(t: Track) -> bool {
    &&& t.name@.len() > 0
    &&& (t.mbid matches Some(m) ==> m@.len() > 0)
    &&& (t.artist matches Some(a) ==> (a.mbid matches Some(m) ==> m@.len() > 0))
    &&& (t.album matches Some(a) ==> (a.mbid matches Some(m) ==> m@.len() > 0))
}

/// An identifier that parsing pinned down is never the empty string.
pub proof fn lemma_track_matches_wf(t: XmlNode, tr: Track)
    requires
        track_matches(t, tr),
    ensures
        track_wf(tr),
{
}

fn text_of(n: &XmlNode) -> (r: Option<String>)
    ensures
        opt_view(r) == spec_text(*n),
{
    match &n.text {
        Some(s) => Some(s.clone()),
        None => None,
    }
}

fn parse_err(msg: &str) -> (r: ArchiveError)
    ensures
        r matches ArchiveError::Parse(m) && m@ == msg@,
{
    ArchiveError::Parse(String::from_str(msg))
}

/// Build one optional artist out of its element, as `artist_matches` says.
fn build_artist(child: &XmlNode) -> (r: Option<Artist>)
    ensures
        artist_matches(*child, r),
{
    match &child.text {
        Some(name) => {
            let mbid_attr = match get_attr(child, "mbid") {
                Some(v) => Some(v.clone()),
                None => None,
            };
            Some(Artist { mbid: normalize_id(mbid_attr), name: name.clone() })
        },
        None => None,
    }
}

/// Build one optional album out of its element, as `album_matches` says.
fn build_album(child: &XmlNode) -> (r: Option<Album>)
    ensures
        album_matches(*child, r),
{
    match &child.text {
        Some(name) => {
            let mbid_attr = match get_attr(child, "mbid") {
                Some(v) => Some(v.clone()),
                None => None,
            };
            Some(Album { mbid: normalize_id(mbid_attr), name: name.clone() })
        },
        None => None,
    }
}

/// Turn one record element into a track, or the parse error that
/// `spec_track_err` names.
pub fn build_track(t: &XmlNode) -> (r: Result<Track, ArchiveError>)
    ensures
        match r {
            Ok(tr) => track_matches(*t, tr),
            Err(e) => e matches ArchiveError::Parse(m) && spec_track_err(*t) == Some(m@),
        },
        r matches Ok(tr) ==> track_wf(tr),
{
    let artist_el = match find_child(t, "artist") {
        Some(c) => c,
        None => {
            return Err(parse_err("missing artist"));
        },
    };
    let artist = build_artist(artist_el);
    let album_el = match find_child(t, "album") {
        Some(c) => c,
        None => {
            return Err(parse_err("missing album"));
        },
    };
    let album = build_album(album_el);
    let mbid_el = match find_child(t, "mbid") {
        Some(c) => c,
        None => {
            return Err(parse_err("missing mbid"));
        },
    };
    let mbid = normalize_id(text_of(mbid_el));
    let name_el = match find_child(t, "name") {
        Some(c) => c,
        None => {
            return Err(parse_err("missing name"));
        },
    };
    let name = match text_of(name_el) {
        Some(s) => s,
        None => {
            return Err(parse_err("empty name"));
        },
    };
    if name.as_str().unicode_len() == 0 {
        return Err(parse_err("empty name"));
    }
    let date_el = match find_child(t, "date") {
        Some(c) => c,
        None => {
            return Err(parse_err("missing date"));
        },
    };
    let uts = match get_attr(date_el, "uts") {
        Some(v) => v,
        None => {
            return Err(parse_err("missing timestamp"));
        },
    };
    let time = match parse_i64(uts.as_str()) {
        Some(v) => v,
        None => {
            return Err(parse_err("invalid timestamp"));
        },
    };
    let tr = Track { artist, album, mbid, name, time };
    proof {
        lemma_track_matches_wf(*t, tr);
    }
    Ok(tr)
}

/// The record elements kept for parsing: the children of the container in
/// order, with the currently-playing ones dropped.
pub open spec fn spec_kept(s: Seq<XmlNode>) -> Seq<XmlNode>
    decreases s.len(),
{
    if s.len() == 0 {
        Seq::empty()
    } else if spec_now_playing(s.last()) {
        spec_kept(s.drop_last())
    } else {
        spec_kept(s.drop_last()).push(s.last())
    }
}

/// A record element flagged as currently playing never survives the
/// filter, wherever it stands: every kept element lacks the flag.
pub proof fn lemma_kept_never_playing(s: Seq<XmlNode>, i: int)
    requires
        0 <= i < spec_kept(s).len(),
    ensures
        !spec_now_playing(spec_kept(s)[i]),
    decreases s.len(),
{
    if s.len() > 0 {
        if spec_now_playing(s.last()) {
            lemma_kept_never_playing(s.drop_last(), i);
        } else if i < spec_kept(s.drop_last()).len() {
            lemma_kept_never_playing(s.drop_last(), i);
        }
    }
}

/// The first parse failure among the kept record elements, if any.
pub open spec fn spec_tracks_err(s: Seq<XmlNode>) -> Option<Seq<char>>
    decreases s.len(),
{
    if s.len() == 0 {
        None
    } else if spec_tracks_err(s.drop_last()) is Some {
        spec_tracks_err(s.drop_last())
    } else if spec_now_playing(s.last()) {
        None
    } else {
        spec_track_err(s.last())
    }
}

proof fn lemma_tracks_err_persists(s: Seq<XmlNode>, i: int)
    requires
        0 <= i <= s.len(),
        spec_tracks_err(s.take(i)) is Some,
    ensures
        spec_tracks_err(s) == spec_tracks_err(s.take(i)),
    decreases s.len() - i,
{
    if i == s.len() {
        assert(s.take(i) =~= s);
    } else {
        assert(s.take(i + 1).drop_last() =~= s.take(i));
        lemma_tracks_err_persists(s, i + 1);
    }
}

/// The parse failure a container element produces, if any: `page` and
/// `totalPages` must be present and read as `u64`, `total` may be absent
/// but must read as `u64` when present, and every kept record must parse.
pub open spec fn spec_response_err(n: XmlNode) -> Option<Seq<char>> {
    if spec_attr(n, "page"@) is None {
        Some("missing page"@)
    } else if !is_u64_string(spec_attr(n, "page"@).unwrap()) {
        Some("invalid page"@)
    } else if spec_attr(n, "totalPages"@) is None {
        Some("missing totalPages"@)
    } else if !is_u64_string(spec_attr(n, "totalPages"@).unwrap()) {
        Some("invalid totalPages"@)
    } else if spec_attr(n, "total"@) matches Some(t) && !is_u64_string(t) {
        Some("invalid total"@)
    } else {
        spec_tracks_err(n.children@)
    }
}

/// The total-record count the container reports, or 0 when the feed's
/// leaner variant leaves it out.
pub open spec fn spec_total_tracks(n: XmlNode) -> int {
    match spec_attr(n, "total"@) {
        Some(t) => u64_string_val(t),
        None => 0,
    }
}

/// How the kept record elements map onto the parsed tracks, one to one and
/// in order.
pub open spec fn tracks_match(kept: Seq<XmlNode>, tracks: Seq<Track>) -> bool {
    &&& tracks.len() == kept.len()
    &&& forall|i: int| 0 <= i < kept.len() ==> track_matches(kept[i], #[trigger] tracks[i])
}

/// How a container element maps onto a page when it parses.
pub open spec fn response_matches(n: XmlNode, resp: Response) -> bool {
    &&& spec_response_err(n) is None
    &&& resp.page == u64_string_val(spec_attr(n, "page"@).unwrap())
    &&& resp.total_pages == u64_string_val(spec_attr(n, "totalPages"@).unwrap())
    &&& resp.total_tracks == spec_total_tracks(n)
    &&& tracks_match(spec_kept(n.children@), resp.tracks@)
}

/// Turn the container element into a page, or the parse error that
/// `spec_response_err` names. A record flagged as currently playing never
/// reaches the page's track sequence.
pub fn build_response(n: &XmlNode) -> (r: Result<Response, ArchiveError>)
    ensures
        match r {
            Ok(resp) => response_matches(*n, resp),
            Err(e) => e matches ArchiveError::Parse(m) && spec_response_err(*n) == Some(m@),
        },
{
    let page = match get_attr(n, "page") {
        Some(v) => match parse_u64(v.as_str()) {
            Some(p) => p,
            None => {
                return Err(parse_err("invalid page"));
            },
        },
        None => {
            return Err(parse_err("missing page"));
        },
    };
    let total_pages = match get_attr(n, "totalPages") {
        Some(v) => match parse_u64(v.as_str()) {
            Some(p) => p,
            None => {
                return Err(parse_err("invalid totalPages"));
            },
        },
        None => {
            return Err(parse_err("missing totalPages"));
        },
    };
    let total_tracks = match get_attr(n, "total") {
        Some(v) => match parse_u64(v.as_str()) {
            Some(p) => p,
            None => {
                return Err(parse_err("invalid total"));
            },
        },
        None => 0,
    };
    let mut tracks: Vec<Track> = Vec::new();
    let len = n.children.len();
    let mut i: usize = 0;
    proof {
        assert(n.children@.take(0) =~= Seq::<XmlNode>::empty());
    }
    while i < len
        invariant
            len == n.children@.len(),
            i <= len,
            spec_tracks_err(n.children@.take(i as int)) is None,
            tracks_match(spec_kept(n.children@.take(i as int)), tracks@),
            (spec_attr(*n, "page"@) matches Some(pv) && is_u64_string(pv)),
            (spec_attr(*n, "totalPages"@) matches Some(tv) && is_u64_string(tv)),
            !(spec_attr(*n, "total"@) matches Some(ov) && !is_u64_string(ov)),
        decreases len - i,
    {
        let child = &n.children[i];
        proof {
            assert(n.children@.take(i as int + 1).drop_last() =~= n.children@.take(i as int));
            assert(n.children@.take(i as int + 1).last() == n.children@[i as int]);
        }
        let mut playing = false;
        if let Some(v) = get_attr(child, "nowplaying") {
            if str_eq(v.as_str(), "true") {
                playing = true;
            }
        }
        if !playing {
            match build_track(child) {
                Ok(tr) => tracks.push(tr),
                Err(e) => {
                    proof {
                        let s = n.children@;
                        assert(spec_tracks_err(s.take(i as int + 1).drop_last())
                            == spec_tracks_err(s.take(i as int)));
                        assert(spec_tracks_err(s.take(i as int + 1)) == spec_track_err(
                            s[i as int],
                        ));
                        lemma_tracks_err_persists(s, i as int + 1);
                    }
                    return Err(e);
                },
            }
        }
        i += 1;
    }
    proof {
        assert(n.children@.take(len as int) =~= n.children@);
    }
    Ok(Response { page, total_pages, total_tracks, tracks })
}

/// How a root element with `status="ok"` maps onto a parsed page.
pub open spec fn ok_root_yields(root: XmlNode, resp: Response) -> bool {
    &&& spec_attr(root, "status"@) == Some("ok"@)
    &&& match spec_child(root, "recenttracks"@) {
        Some(c) => response_matches(c, resp),
        None => false,
    }
}

/// Decide a whole response document from its root element. `status="ok"`
/// hands the `recenttracks` container to `build_response`; a response with
/// `status="failed"` and an error element with text `X` yields exactly the
/// failure error with message `X`; any other status value yields the
/// failure error with message `unknown status`.
pub fn from_root(root: &XmlNode) -> (r: Result<Response, ArchiveError>)
    ensures
        r matches Ok(resp) ==> ok_root_yields(*root, resp),
        spec_attr(*root, "status"@) is None ==> (r matches Err(e) && e matches ArchiveError::Parse(
            m,
        ) && m@ == "missing status"@),
        spec_attr(*root, "status"@) == Some("ok"@) ==> match spec_child(*root, "recenttracks"@) {
            Some(c) => match r {
                Ok(resp) => response_matches(c, resp),
                Err(e) => e matches ArchiveError::Parse(m) && spec_response_err(c) == Some(m@),
            },
            None => r matches Err(e) && e matches ArchiveError::Parse(m) && m@
                == "missing recenttracks"@,
        },
        spec_attr(*root, "status"@) == Some("failed"@) ==> match spec_child(*root, "error"@) {
            Some(c) => match spec_text(c) {
                Some(msg) => r matches Err(e) && e matches ArchiveError::Api(m) && m@ == msg,
                None => r matches Err(e) && e matches ArchiveError::Parse(m) && m@
                    == "missing error message"@,
            },
            None => r matches Err(e) && e matches ArchiveError::Parse(m) && m@ == "missing error"@,
        },
        (match spec_attr(*root, "status"@) {
            Some(st) => st != "ok"@ && st != "failed"@,
            None => false,
        }) ==> (r matches Err(e) && e matches ArchiveError::Api(m) && m@ == "unknown status"@),
{
    proof {
        // The status branches are exclusive only once the two literals are
        // known to differ, which takes revealing their contents.
        reveal_strlit("ok");
        reveal_strlit("failed");
        assert("ok"@.len() == 2);
        assert("failed"@.len() == 6);
        assert("ok"@ != "failed"@);
    }
    let status = match get_attr(root, "status") {
        Some(v) => v,
        None => {
            return Err(parse_err("missing status"));
        },
    };
    if str_eq(status.as_str(), "ok") {
        match find_child(root, "recenttracks") {
            Some(c) => build_response(c),
            None => Err(parse_err("missing recenttracks")),
        }
    } else if str_eq(status.as_str(), "failed") {
        match find_child(root, "error") {
            Some(c) => match text_of(c) {
                Some(msg) => Err(ArchiveError::Api(msg)),
                None => Err(parse_err("missing error message")),
            },
            None => Err(parse_err("missing error")),
        }
    } else {
        Err(ArchiveError::Api(String::from_str("unknown status")))
    }
}

/// Every track of a parsed page keeps no empty identifier.
pub open spec fn response_wf(resp: Response) -> bool {
    forall|i: int| 0 <= i < resp.tracks@.len() ==> track_wf(#[trigger] resp.tracks@[i])
}

/// Parse one raw response body: the bytes are read as an XML document
/// (malformed input is a parse error), and the root element decides the
/// rest as `from_root` says. Every page this returns was extracted, field
/// for field, from a root whose status was `"ok"`, and never keeps an
/// empty identifier or a currently-playing record.
pub fn from_slice(v: &[u8]) -> (r: Result<Response, ArchiveError>)
    ensures
        r matches Ok(resp) ==> exists|root: XmlNode| #[trigger] ok_root_yields(root, resp),
        r matches Ok(resp) ==> response_wf(resp),
        r matches Err(e) ==> (e matches ArchiveError::Parse(_) || e matches ArchiveError::Api(_)),
        !spec_xml_parses(v@) ==> (r matches Err(e) && e matches ArchiveError::Parse(_)),
{
    let root = match parse_xml(v) {
        Ok(n) => n,
        Err(m) => {
            return Err(ArchiveError::Parse(m));
        },
    };
    let r = from_root(&root);
    proof {
        match r {
            Ok(ref resp) => {
                assert(ok_root_yields(root, *resp));
                match spec_child(root, "recenttracks"@) {
                    Some(c) => {
                        assert forall|i: int| 0 <= i < resp.tracks@.len() implies track_wf(
                            #[trigger] resp.tracks@[i],
                        ) by {
                            lemma_track_matches_wf(spec_kept(c.children@)[i], resp.tracks@[i]);
                        }
                    },
                    None => {
                    },
                }
            },
            Err(_) => {
            },
        }
    }
    r
}

} // verus!
