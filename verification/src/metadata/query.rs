//! Answering a query for the metadata of a track or an album.
//!
//! A query is answered as far as replies go: where one is missing, the action that
//! brings it is asked for.

use crate::encoding::{text_from_utf8, utf8_complaint};
use crate::library::album::{album_named, parse_mpd_album_value};
use crate::library::scan::{found_view, MatchError, MatchErrorView};
use crate::metadata::config::MetadataProfile;
use crate::metadata::extract::{
    apply_metadata_profile, cut_to, ok_from_properties_only, ok_response, tagged_response, untagged_response,
};
use crate::metadata::response::{bare_response, MetadataQueryResponse, ResponseStatus, ResponseView};
use crate::metadata::tags::FileReading;
use crate::number::{decimal, to_decimal};
use crate::paths::{is_absolute, path_below, path_in, starts_at_root};
use crate::text::{cat, has_prefix, lowered, push_text, starts_with, text_eq, texts, to_lower};
use vstd::prelude::*;
use vstd::utf8::{decode_utf8, valid_utf8};

verus! {

/// The scheme of a track by its path.
pub const SCHEME_MPD_PATH: &'static str = "mpd-path";

/// The scheme of an album by its artist and title.
pub const SCHEME_MPD_ALBUM: &'static str = "mpd-album";

/// A query.
#[derive(Debug, Clone)]
pub struct MetadataQueryRequest {
    pub v: u8,
    pub target: QueryTarget,
}

/// What a query is about.
#[derive(Debug, Clone)]
pub struct QueryTarget {
    pub scheme: String,
    pub value: String,
}

/// What a query needs to know.
#[derive(Debug)]
pub enum QueryAction {
    /// Read a query out of a JSON text.
    Decode(String),
    /// Search the library for a track of an album.
    FindAlbum { artist: String, album: String },
    /// Say whether a path is that of a file.
    CheckFile(String),
    /// Read a file's tags.
    ReadFile(String),
}

/// [`QueryAction`] over mathematical values.
#[verifier::ext_equal]
pub enum QueryActionView {
    Decode(Seq<char>),
    FindAlbum { artist: Seq<char>, album: Seq<char> },
    CheckFile(Seq<char>),
    ReadFile(Seq<char>),
}

impl View for QueryAction {
    type V = QueryActionView;

    open spec fn view(&self) -> QueryActionView {
        match self {
            QueryAction::Decode(s) => QueryActionView::Decode(s@),
            QueryAction::FindAlbum { artist, album } => QueryActionView::FindAlbum { artist: artist@, album: album@ },
            QueryAction::CheckFile(s) => QueryActionView::CheckFile(s@),
            QueryAction::ReadFile(s) => QueryActionView::ReadFile(s@),
        }
    }
}

/// What a query was told.
#[derive(Debug)]
pub enum QueryReply {
    Decoded(Result<MetadataQueryRequest, String>),
    Found(Result<Option<String>, MatchError>),
    IsFile(bool),
    Read(Result<FileReading, String>),
}

/// What comes of a query: an answer, or an action that is needed first.
pub enum Answer {
    Ready(ResponseView),
    Need(QueryActionView),
}

/// The view of what comes of a query.
pub open spec fn answer_view(r: Result<MetadataQueryResponse, QueryAction>) -> Answer {
    match r {
        Ok(b) => Answer::Ready(b@),
        Err(a) => Answer::Need(a@),
    }
}

/// A query that is refused.
pub open spec fn refused(detail: Seq<char>) -> Answer {
    Answer::Ready(bare_response(ResponseStatus::BadRequest, Some(detail)))
}

/// A query for something that is not there.
pub open spec fn missing(detail: Seq<char>) -> Answer {
    Answer::Ready(bare_response(ResponseStatus::NotFound, Some(detail)))
}

/// The answer about what was read of a file.
pub open spec fn file_answer(read: Result<FileReading, String>, profile: MetadataProfile) -> ResponseView {
    match read {
        Ok(f) => match f.tag {
            Some(tag) => cut_to(tagged_response(tag, f.properties, None), profile),
            None => cut_to(untagged_response(f.properties), profile),
        },
        Err(e) => bare_response(ResponseStatus::NotFound, Some("read audio file: "@ + e@)),
    }
}

/// Whether a value is the address of something on the web.
pub open spec fn is_web_address(value: Seq<char>) -> bool {
    has_prefix(lowered(value), "http://"@) || has_prefix(lowered(value), "https://"@)
}

/// The paths where a track may be: its own where it starts at the root, else below each
/// directory of the library in turn; none where it is on the web.
pub open spec fn track_paths(roots: Seq<Seq<char>>, value: Seq<char>) -> Seq<Seq<char>> {
    if is_web_address(value) {
        seq![]
    } else if is_absolute(value) {
        seq![value]
    } else {
        roots.map_values(|root: Seq<char>| path_below(root, value))
    }
}

/// What is known of where a track is.
pub enum Located {
    /// Nowhere.
    Nowhere,
    /// Whether a path is that of a file, is not known yet.
    Unknown(Seq<char>),
    /// At a path; so many replies told it.
    At(Seq<char>, nat),
}

/// Where a track is: the first of the paths that is that of a file.
pub open spec fn located(paths: Seq<Seq<char>>, h: Seq<QueryReply>, used: nat) -> Located
    decreases paths.len(),
{
    if paths.len() == 0 {
        Located::Nowhere
    } else if used < h.len() && h[used as int] is IsFile {
        if h[used as int]->IsFile_0 {
            Located::At(paths[0], used + 1)
        } else {
            located(paths.drop_first(), h, used + 1)
        }
    } else {
        Located::Unknown(paths[0])
    }
}

/// The answer about the file at a path, once it was read.
pub open spec fn about_file(path: Seq<char>, h: Seq<QueryReply>, used: nat, profile: MetadataProfile) -> Answer {
    if used < h.len() && h[used as int] is Read {
        Answer::Ready(file_answer(h[used as int]->Read_0, profile))
    } else {
        Answer::Need(QueryActionView::ReadFile(path))
    }
}

/// An answer that says that it is about an album.
pub open spec fn for_album(a: Answer) -> Answer {
    match a {
        Answer::Ready(r) => if r.status == ResponseStatus::Found {
            Answer::Ready(
                ResponseView {
                    detail: Some("target mpd-album: first matching file under [library] roots (local tag scan)"@),
                    ..r
                },
            )
        } else {
            a
        },
        Answer::Need(_) => a,
    }
}

/// The answer about an album.
pub open spec fn about_album(value: Seq<char>, h: Seq<QueryReply>, profile: MetadataProfile) -> Answer {
    match album_named(value) {
        None => refused(
            "invalid mpd-album value: expected \"artist|album\" (see org.evoframework.playback.mpd subject emission)"@,
        ),
        Some((artist, album)) => if 1 < h.len() && h[1] is Found {
            match found_view(h[1]->Found_0) {
                Ok(Some(path)) => for_album(about_file(path, h, 2, profile)),
                Ok(None) => missing(
                    "mpd_album: no file under [library] roots with matching track artist and album tags"@,
                ),
                Err(MatchErrorView::LimitExceeded) => missing(
                    "mpd_album: scan limit (100000 files) reached under [library] roots"@,
                ),
                Err(MatchErrorView::Io(m)) => missing(m),
            }
        } else {
            Answer::Need(QueryActionView::FindAlbum { artist, album })
        },
    }
}

/// The answer about a track.
pub open spec fn about_track(
    roots: Seq<Seq<char>>,
    value: Seq<char>,
    h: Seq<QueryReply>,
    profile: MetadataProfile,
) -> Answer {
    if value.len() == 0 {
        refused("empty mpd-path value"@)
    } else {
        match located(track_paths(roots, value), h, 1) {
            Located::Nowhere => missing("audio file not found for mpd_path"@),
            Located::Unknown(path) => Answer::Need(QueryActionView::CheckFile(path)),
            Located::At(path, used) => about_file(path, h, used, profile),
        }
    }
}

/// The answer to a query that was read.
pub open spec fn routed(
    req: MetadataQueryRequest,
    roots: Seq<Seq<char>>,
    h: Seq<QueryReply>,
    profile: MetadataProfile,
) -> Answer {
    if req.v != 1 {
        refused("unsupported request v: "@ + decimal(req.v as nat))
    } else if req.target.scheme@ == SCHEME_MPD_ALBUM@ {
        about_album(req.target.value@, h, profile)
    } else if req.target.scheme@ == SCHEME_MPD_PATH@ {
        about_track(roots, req.target.value@, h, profile)
    } else {
        refused("unknown target.scheme: "@ + req.target.scheme@)
    }
}

/// What comes of a query.
pub open spec fn answered(
    profile: MetadataProfile,
    roots: Seq<Seq<char>>,
    payload: Seq<u8>,
    h: Seq<QueryReply>,
) -> Answer {
    if payload.len() == 0 {
        refused("empty payload"@)
    } else if !valid_utf8(payload) {
        refused("payload is not UTF-8: "@ + utf8_complaint(payload))
    } else if 0 < h.len() && h[0] is Decoded {
        match h[0]->Decoded_0 {
            Ok(req) => routed(req, roots, h, profile),
            Err(e) => refused("invalid JSON: "@ + e@),
        }
    } else {
        Answer::Need(QueryActionView::Decode(decode_utf8(payload)))
    }
}

fn refuse(detail: String) -> (r: Result<MetadataQueryResponse, QueryAction>)
    ensures
        answer_view(r) == refused(detail@),
{
    Ok(MetadataQueryResponse::v1_error(ResponseStatus::BadRequest, Some(detail)))
}

fn not_there(detail: String) -> (r: Result<MetadataQueryResponse, QueryAction>)
    ensures
        answer_view(r) == missing(detail@),
{
    Ok(MetadataQueryResponse::v1_error(ResponseStatus::NotFound, Some(detail)))
}

/// Answers about what was read of a file.
pub fn read_file_metadata(read: &Result<FileReading, String>, profile: MetadataProfile) -> (r: MetadataQueryResponse)
    ensures
        r@ == file_answer(*read, profile),
{
    match read {
        Ok(f) => {
            let mut r = match &f.tag {
                Some(tag) => ok_response(tag, &f.properties, None),
                None => ok_from_properties_only(&f.properties),
            };
            apply_metadata_profile(&mut r, profile);
            r
        },
        Err(e) => MetadataQueryResponse::v1_error(
            ResponseStatus::NotFound,
            Some(cat("read audio file: ", e.as_str())),
        ),
    }
}

/// The paths where a track may be.
pub fn resolve_audio_path(library_roots: &Vec<String>, value: &str) -> (r: Vec<String>)
    ensures
        texts(r@) == track_paths(texts(library_roots@), value@),
{
    let mut out: Vec<String> = Vec::new();
    proof {
        assert(texts(out@) =~= seq![]);
    }
    let low = to_lower(value);
    if starts_with(low.as_str(), "http://") || starts_with(low.as_str(), "https://") {
        return out;
    }
    if starts_at_root(value) {
        push_text(&mut out, value);
        proof {
            assert(texts(out@) =~= seq![value@]);
        }
        return out;
    }
    let ghost roots = texts(library_roots@);
    let mut i: usize = 0;
    while i < library_roots.len()
        invariant
            i <= library_roots.len(),
            roots == texts(library_roots@),
            texts(out@) == roots.take(i as int).map_values(|root: Seq<char>| path_below(root, value@)),
        decreases library_roots.len() - i,
    {
        let path = path_in(library_roots[i].as_str(), value);
        proof {
            assert(roots[i as int] == library_roots@[i as int]@);
            assert(roots.take(i as int + 1).map_values(|root: Seq<char>| path_below(root, value@)) =~= roots.take(
                i as int,
            ).map_values(|root: Seq<char>| path_below(root, value@)).push(path@));
        }
        push_text(&mut out, path.as_str());
        i += 1;
    }
    proof {
        assert(roots.take(i as int) =~= roots);
    }
    out
}

fn answer_about_file(
    path: String,
    replies: &Vec<QueryReply>,
    used: usize,
    profile: MetadataProfile,
) -> (r: Result<MetadataQueryResponse, QueryAction>)
    ensures
        answer_view(r) == about_file(path@, replies@, used as nat, profile),
{
    if used < replies.len() {
        if let QueryReply::Read(read) = &replies[used] {
            return Ok(read_file_metadata(read, profile));
        }
    }
    Err(QueryAction::ReadFile(path))
}

fn answer_about_album(value: &str, replies: &Vec<QueryReply>, profile: MetadataProfile) -> (r: Result<
    MetadataQueryResponse,
    QueryAction,
>)
    ensures
        answer_view(r) == about_album(value@, replies@, profile),
{
    let (artist, album) = match parse_mpd_album_value(value) {
        Ok(p) => p,
        Err(_) => {
            return refuse(
                "invalid mpd-album value: expected \"artist|album\" (see org.evoframework.playback.mpd subject emission)".to_owned(),
            );
        },
    };
    if 1 < replies.len() {
        if let QueryReply::Found(found) = &replies[1] {
            return match found {
                Ok(Some(path)) => {
                    let mut r = answer_about_file(path.clone(), replies, 2, profile)?;
                    if let ResponseStatus::Found = r.status {
                        r.detail = Some(
                            "target mpd-album: first matching file under [library] roots (local tag scan)".to_owned(),
                        );
                    }
                    Ok(r)
                },
                Ok(None) => not_there(
                    "mpd_album: no file under [library] roots with matching track artist and album tags".to_owned(),
                ),
                Err(MatchError::LimitExceeded) => not_there(
                    "mpd_album: scan limit (100000 files) reached under [library] roots".to_owned(),
                ),
                Err(MatchError::Io(m)) => not_there(m.clone()),
            };
        }
    }
    Err(QueryAction::FindAlbum { artist, album })
}

fn answer_about_track(
    library_roots: &Vec<String>,
    value: &str,
    replies: &Vec<QueryReply>,
    profile: MetadataProfile,
) -> (r: Result<MetadataQueryResponse, QueryAction>)
    ensures
        answer_view(r) == about_track(texts(library_roots@), value@, replies@, profile),
{
    if value.is_empty() {
        return refuse("empty mpd-path value".to_owned());
    }
    let paths = resolve_audio_path(library_roots, value);
    let ghost views = texts(paths@);
    let mut i: usize = 0;
    proof {
        assert(views.skip(0) =~= views);
    }
    while i < paths.len()
        invariant
            i <= paths.len(),
            i <= replies.len(),
            views == texts(paths@),
            views == track_paths(texts(library_roots@), value@),
            value@.len() > 0,
            located(views, replies@, 1) == located(views.skip(i as int), replies@, (i + 1) as nat),
        decreases paths.len() - i,
    {
        proof {
            assert(views.skip(i as int)[0] == paths@[i as int]@);
            assert(views.skip(i as int).drop_first() =~= views.skip(i as int + 1));
        }
        let mut known = false;
        let mut there = false;
        if i < replies.len() && i + 1 < replies.len() {
            if let QueryReply::IsFile(b) = &replies[i + 1] {
                known = true;
                there = *b;
            }
        }
        if !known {
            return Err(QueryAction::CheckFile(paths[i].clone()));
        }
        if there {
            return answer_about_file(paths[i].clone(), replies, i + 2, profile);
        }
        i += 1;
    }
    not_there("audio file not found for mpd_path".to_owned())
}

/// Answers a query that was read.
pub fn route_query(
    req: &MetadataQueryRequest,
    library_roots: &Vec<String>,
    replies: &Vec<QueryReply>,
    profile: MetadataProfile,
) -> (r: Result<MetadataQueryResponse, QueryAction>)
    ensures
        answer_view(r) == routed(*req, texts(library_roots@), replies@, profile),
{
    if req.v != 1 {
        return refuse(cat("unsupported request v: ", to_decimal(req.v as u64).as_str()));
    }
    if text_eq(req.target.scheme.as_str(), SCHEME_MPD_ALBUM) {
        answer_about_album(req.target.value.as_str(), replies, profile)
    } else if text_eq(req.target.scheme.as_str(), SCHEME_MPD_PATH) {
        answer_about_track(library_roots, req.target.value.as_str(), replies, profile)
    } else {
        refuse(cat("unknown target.scheme: ", req.target.scheme.as_str()))
    }
}

/// Answers a query as far as the replies go.
pub fn query_metadata(
    profile: MetadataProfile,
    library_roots: &Vec<String>,
    payload: &Vec<u8>,
    replies: &Vec<QueryReply>,
) -> (r: Result<MetadataQueryResponse, QueryAction>)
    ensures
        answer_view(r) == answered(profile, texts(library_roots@), payload@, replies@),
{
    if payload.len() == 0 {
        return refuse("empty payload".to_owned());
    }
    let text = match text_from_utf8(payload.clone()) {
        Ok(t) => t,
        Err(e) => return refuse(cat("payload is not UTF-8: ", e.as_str())),
    };
    if 0 < replies.len() {
        if let QueryReply::Decoded(decoded) = &replies[0] {
            return match decoded {
                Ok(req) => route_query(req, library_roots, replies, profile),
                Err(e) => refuse(cat("invalid JSON: ", e.as_str())),
            };
        }
    }
    Err(QueryAction::Decode(text))
}

// What holds of every query.

/// A track on the web is not looked for.
pub proof fn web_addresses_are_not_found(
    req: MetadataQueryRequest,
    roots: Seq<Seq<char>>,
    h: Seq<QueryReply>,
    profile: MetadataProfile,
)
    requires
        req.v == 1,
        req.target.scheme@ == SCHEME_MPD_PATH@,
        is_web_address(req.target.value@),
    ensures
        routed(req, roots, h, profile) == missing("audio file not found for mpd_path"@),
{
    reveal_strlit("mpd-path");
    reveal_strlit("mpd-album");
    reveal_strlit("http://");
    reveal_strlit("https://");
    assert(SCHEME_MPD_PATH@.len() == 8);
    assert(SCHEME_MPD_ALBUM@.len() == 9);
    assert(req.target.value@.len() > 0);
}

/// Whether an answer, once it is there, says which profile it was cut to where it found
/// something, and none where it did not.
pub open spec fn names_profile(a: Answer, profile: MetadataProfile) -> bool {
    match a {
        Answer::Ready(r) => {
            &&& r.v == 1
            &&& r.active_profile == if r.status == ResponseStatus::Found {
                Some(profile.name())
            } else {
                None
            }
        },
        Answer::Need(_) => true,
    }
}

proof fn lemma_file_answers(read: Result<FileReading, String>, profile: MetadataProfile)
    ensures
        names_profile(Answer::Ready(file_answer(read, profile)), profile),
{
    if let Ok(f) = read {
        let r = match f.tag {
            Some(tag) => tagged_response(tag, f.properties, None),
            None => untagged_response(f.properties),
        };
        assert(r.v == 1 && r.status == ResponseStatus::Found);
        assert(file_answer(read, profile) == cut_to(r, profile));
    }
}

proof fn lemma_album_answers(value: Seq<char>, h: Seq<QueryReply>, profile: MetadataProfile)
    ensures
        names_profile(about_album(value, h, profile), profile),
{
    if album_named(value) is Some && 1 < h.len() && h[1] is Found {
        if let Ok(Some(path)) = found_view(h[1]->Found_0) {
            if 2 < h.len() && h[2] is Read {
                lemma_file_answers(h[2]->Read_0, profile);
            }
            assert(names_profile(about_file(path, h, 2, profile), profile));
            assert(names_profile(for_album(about_file(path, h, 2, profile)), profile));
        }
    }
}

proof fn lemma_track_answers(roots: Seq<Seq<char>>, value: Seq<char>, h: Seq<QueryReply>, profile: MetadataProfile)
    ensures
        names_profile(about_track(roots, value, h, profile), profile),
{
    if let Located::At(path, used) = located(track_paths(roots, value), h, 1) {
        if used < h.len() && h[used as int] is Read {
            lemma_file_answers(h[used as int]->Read_0, profile);
        }
        assert(names_profile(about_file(path, h, used, profile), profile));
    }
}

/// An answer that found something says which profile it was cut to, and none else does.
pub proof fn found_answers_name_their_profile(
    profile: MetadataProfile,
    roots: Seq<Seq<char>>,
    payload: Seq<u8>,
    h: Seq<QueryReply>,
)
    ensures
        names_profile(answered(profile, roots, payload, h), profile),
{
    if 0 < h.len() && h[0] is Decoded {
        if let Ok(req) = h[0]->Decoded_0 {
            lemma_album_answers(req.target.value@, h, profile);
            lemma_track_answers(roots, req.target.value@, h, profile);
            assert(names_profile(routed(req, roots, h, profile), profile));
        }
    }
}

proof fn lemma_located(paths: Seq<Seq<char>>, h: Seq<QueryReply>, used: nat)
    ensures
        located(paths, h, used) matches Located::At(path, n) ==> {
            let i = n - used - 1;
            &&& 0 <= i < paths.len()
            &&& path == paths[i]
            &&& n <= h.len()
            &&& h[used + i] == QueryReply::IsFile(true)
            &&& forall|j: int| 0 <= j < i ==> #[trigger] h[used + j] == QueryReply::IsFile(false)
            &&& forall|k: int| n <= k <= h.len() ==> located(paths, #[trigger] h.take(k), used) == Located::At(path, n)
        },
    decreases paths.len(),
{
    if paths.len() > 0 && used < h.len() && h[used as int] is IsFile {
        if !h[used as int]->IsFile_0 {
            let rest = paths.drop_first();
            lemma_located(rest, h, used + 1);
            if let Located::At(path, n) = located(paths, h, used) {
                let i = n - used - 1;
                assert(rest[i - 1] == paths[i]);
                assert forall|j: int| 0 <= j < i implies #[trigger] h[used + j] == QueryReply::IsFile(false) by {
                    if j > 0 {
                        assert(h[(used + 1) + (j - 1)] == QueryReply::IsFile(false));
                    }
                }
            }
        }
    }
}

/// A track that was found was read where it is: the file whose tags an answer shows is at
/// the first of the paths where the track may be, of which the world said that it is that
/// of a file; it was asked to read that file, and the answer is about what it read. The
/// result is the place of that path and of that reply.
pub proof fn found_tracks_are_read_where_they_are(
    req: MetadataQueryRequest,
    roots: Seq<Seq<char>>,
    h: Seq<QueryReply>,
    profile: MetadataProfile,
) -> (r: (int, int))
    requires
        req.v == 1,
        req.target.scheme@ == "mpd-path"@,
        routed(req, roots, h, profile) matches Answer::Ready(a) && a.status == ResponseStatus::Found,
    ensures
        ({
            let (i, k) = r;
            let paths = track_paths(roots, req.target.value@);
            &&& 0 <= i < paths.len() && k == i + 2 && k < h.len()
            &&& h[1 + i] == QueryReply::IsFile(true)
            &&& forall|j: int| 0 <= j < i ==> #[trigger] h[1 + j] == QueryReply::IsFile(false)
            &&& routed(req, roots, h.take(k), profile) == Answer::Need(QueryActionView::ReadFile(paths[i]))
            &&& h[k] matches QueryReply::Read(Ok(f)) && routed(req, roots, h, profile) == Answer::Ready(
                cut_to(
                    match f.tag {
                        Some(tag) => tagged_response(tag, f.properties, None),
                        None => untagged_response(f.properties),
                    },
                    profile,
                ),
            )
        }),
{
    reveal_strlit("mpd-path");
    reveal_strlit("mpd-album");
    assert(SCHEME_MPD_PATH@.len() == 8);
    assert(SCHEME_MPD_ALBUM@.len() == 9);
    let paths = track_paths(roots, req.target.value@);
    lemma_located(paths, h, 1);
    let n = located(paths, h, 1)->At_1;
    assert(located(paths, h.take(n as int), 1) == located(paths, h, 1));
    (n - 2, n as int)
}

/// Where a track may be: at its own path where that starts at the root, else at its path
/// below each directory of the library in turn, and nowhere where it is on the web.
pub proof fn tracks_are_below_the_roots(roots: Seq<Seq<char>>, value: Seq<char>)
    ensures
        has_prefix(lowered(value), "http://"@) || has_prefix(lowered(value), "https://"@) ==> track_paths(roots, value).len()
            == 0,
        value.len() > 0 && value[0] == '/' ==> track_paths(roots, value) == seq![value],
        !is_web_address(value) && !is_absolute(value) ==> {
            &&& track_paths(roots, value).len() == roots.len()
            &&& forall|i: int| 0 <= i < roots.len() ==> #[trigger] track_paths(roots, value)[i] == path_below(roots[i], value)
        },
{
    if value.len() > 0 && value[0] == '/' {
        reveal_strlit("http://");
        reveal_strlit("https://");
        assert(lowered(value)[0] == '/');
        assert("http://"@[0] == 'h');
        assert("https://"@[0] == 'h');
    }
}

/// An album that was found was looked for by its artist and its name, and what is shown is
/// what was read of the file that was found for it.
pub proof fn found_albums_are_read_where_they_are(
    req: MetadataQueryRequest,
    roots: Seq<Seq<char>>,
    h: Seq<QueryReply>,
    profile: MetadataProfile,
) -> (r: (Seq<char>, Seq<char>, Seq<char>))
    requires
        req.v == 1,
        req.target.scheme@ == "mpd-album"@,
        routed(req, roots, h, profile) matches Answer::Ready(a) && a.status == ResponseStatus::Found,
    ensures
        ({
            let (artist, album, path) = r;
            &&& album_named(req.target.value@) == Some((artist, album))
            &&& h.len() > 2
            &&& routed(req, roots, h.take(1), profile) == Answer::Need(QueryActionView::FindAlbum { artist, album })
            &&& h[1] matches QueryReply::Found(Ok(Some(p))) && p@ == path
            &&& routed(req, roots, h.take(2), profile) == Answer::Need(QueryActionView::ReadFile(path))
            &&& h[2] matches QueryReply::Read(Ok(f)) && {
                let shown = cut_to(
                    match f.tag {
                        Some(tag) => tagged_response(tag, f.properties, None),
                        None => untagged_response(f.properties),
                    },
                    profile,
                );
                routed(req, roots, h, profile) == Answer::Ready(
                    ResponseView {
                        detail: Some("target mpd-album: first matching file under [library] roots (local tag scan)"@),
                        ..shown
                    },
                )
            }
        }),
{
    let (artist, album) = album_named(req.target.value@)->0;
    let path = found_view(h[1]->Found_0)->Ok_0->0;
    (artist, album, path)
}

/// A query that cannot be understood is refused, and tells so: another version, another
/// scheme, nothing to look for.
pub proof fn unclear_queries_are_refused(
    req: MetadataQueryRequest,
    roots: Seq<Seq<char>>,
    h: Seq<QueryReply>,
    profile: MetadataProfile,
)
    ensures
        req.v != 1 || (req.target.scheme@ != "mpd-path"@ && req.target.scheme@ != "mpd-album"@) || (req.target.scheme@
            == "mpd-path"@ && req.target.value@.len() == 0) ==> (routed(req, roots, h, profile) matches Answer::Ready(a)
            && a.status == ResponseStatus::BadRequest && a.detail is Some),
{
    reveal_strlit("mpd-path");
    reveal_strlit("mpd-album");
    assert(SCHEME_MPD_PATH@.len() == 8);
    assert(SCHEME_MPD_ALBUM@.len() == 9);
}

proof fn lemma_locates(paths: Seq<Seq<char>>, h: Seq<QueryReply>, used: nat, i: int)
    requires
        0 <= i < paths.len(),
        used + i < h.len(),
        h[used + i] == QueryReply::IsFile(true),
        forall|j: int| 0 <= j < i ==> #[trigger] h[used + j] == QueryReply::IsFile(false),
    ensures
        located(paths, h, used) == Located::At(paths[i], (used + i + 1) as nat),
    decreases i,
{
    if i > 0 {
        let rest = paths.drop_first();
        assert(h[used + 0int] == QueryReply::IsFile(false));
        assert forall|j: int| 0 <= j < i - 1 implies #[trigger] h[(used + 1) + j] == QueryReply::IsFile(false) by {
            assert(h[used + (j + 1)] == QueryReply::IsFile(false));
        }
        assert(h[(used + 1) + (i - 1)] == QueryReply::IsFile(true));
        lemma_locates(rest, h, used + 1, i - 1);
        assert(rest[i - 1] == paths[i]);
    }
}

/// A track that is there is answered: where one of its paths is that of a file, and the
/// file can be read, the answer is found and holds what was read; where it cannot, the
/// answer says why.
pub proof fn tracks_that_are_there_are_found(
    req: MetadataQueryRequest,
    roots: Seq<Seq<char>>,
    h: Seq<QueryReply>,
    profile: MetadataProfile,
    i: int,
)
    requires
        req.v == 1,
        req.target.scheme@ == "mpd-path"@,
        req.target.value@.len() > 0,
        0 <= i < track_paths(roots, req.target.value@).len(),
        2 + i < h.len(),
        h[1 + i] == QueryReply::IsFile(true),
        forall|j: int| 0 <= j < i ==> #[trigger] h[1 + j] == QueryReply::IsFile(false),
        h[2 + i] is Read,
    ensures
        routed(req, roots, h, profile) is Ready,
        h[2 + i]->Read_0 is Ok ==> routed(req, roots, h, profile)->Ready_0.status == ResponseStatus::Found,
        h[2 + i]->Read_0 matches Err(e) ==> routed(req, roots, h, profile)->Ready_0.status == ResponseStatus::NotFound
            && routed(req, roots, h, profile)->Ready_0.detail == Some("read audio file: "@ + e@),
{
    reveal_strlit("mpd-path");
    reveal_strlit("mpd-album");
    assert(SCHEME_MPD_PATH@.len() == 8);
    assert(SCHEME_MPD_ALBUM@.len() == 9);
    lemma_locates(track_paths(roots, req.target.value@), h, 1, i);
}

/// An album that is there is answered: where the search found a file of it, and the file
/// can be read, the answer is found and says how. A search that found none, gave up or
/// failed is answered as such.
pub proof fn albums_that_are_there_are_found(
    req: MetadataQueryRequest,
    roots: Seq<Seq<char>>,
    h: Seq<QueryReply>,
    profile: MetadataProfile,
)
    requires
        req.v == 1,
        req.target.scheme@ == "mpd-album"@,
        album_named(req.target.value@) is Some,
        h.len() > 1,
        h[1] is Found,
    ensures
        h[1]->Found_0 matches Ok(Some(_)) ==> (h.len() > 2 && h[2] is Read ==> {
            &&& routed(req, roots, h, profile) is Ready
            &&& h[2]->Read_0 is Ok ==> routed(req, roots, h, profile)->Ready_0.status == ResponseStatus::Found && routed(
                req,
                roots,
                h,
                profile,
            )->Ready_0.detail == Some("target mpd-album: first matching file under [library] roots (local tag scan)"@)
            &&& h[2]->Read_0 is Err ==> routed(req, roots, h, profile)->Ready_0.status == ResponseStatus::NotFound
        }),
        h[1]->Found_0 matches Ok(None) ==> routed(req, roots, h, profile) == missing(
            "mpd_album: no file under [library] roots with matching track artist and album tags"@,
        ),
        h[1]->Found_0 matches Err(MatchError::LimitExceeded) ==> routed(req, roots, h, profile) == missing(
            "mpd_album: scan limit (100000 files) reached under [library] roots"@,
        ),
        h[1]->Found_0 matches Err(MatchError::Io(m)) ==> routed(req, roots, h, profile) == missing(m@),
{
    reveal_strlit("mpd-path");
    reveal_strlit("mpd-album");
    assert(SCHEME_MPD_PATH@.len() == 8);
    assert(SCHEME_MPD_ALBUM@.len() == 9);
}

/// A query in words is read before it is answered, and what it says is what is answered;
/// one that is empty, not text or not understood is refused.
pub proof fn queries_are_read_first(
    profile: MetadataProfile,
    roots: Seq<Seq<char>>,
    payload: Seq<u8>,
    h: Seq<QueryReply>,
)
    requires
        payload.len() > 0,
        valid_utf8(payload),
    ensures
        h.len() == 0 ==> answered(profile, roots, payload, h) == Answer::Need(QueryActionView::Decode(decode_utf8(payload))),
        h.len() > 0 ==> (h[0] matches QueryReply::Decoded(Ok(req)) ==> answered(profile, roots, payload, h) == routed(
            req,
            roots,
            h,
            profile,
        )),
        h.len() > 0 ==> (h[0] matches QueryReply::Decoded(Err(e)) ==> answered(profile, roots, payload, h) == refused(
            "invalid JSON: "@ + e@,
        )),
        answered(profile, roots, seq![], h) == refused("empty payload"@),
{
}

} // verus!
