//! Searching the library for a track of an album.
//!
//! A search asks for one thing at a time: what a path is, what a directory holds, what
//! the tags of a file say. It visits the roots one after the other, each directory
//! before what stands behind it, and the entries of a directory in the order of their
//! names.

use crate::library::album::{
    file_tag_matches, is_probable_audio_file, looks_like_audio, tags_match, MAX_MPD_ALBUM_SCAN_CANDIDATES,
};
use crate::paths::{join_path, joined};
use crate::text::{cat4, has_prefix, opt_text, starts_with, texts, trim, trimmed};
use crate::text_order::{in_order, sort_texts};
use vstd::prelude::*;

verus! {

/// Why a search failed.
#[derive(Debug, Clone, PartialEq, Eq)]
pub enum MatchError {
    /// The tags of too many files were read.
    LimitExceeded,
    /// A directory could not be read.
    Io(String),
}

/// [`MatchError`] over character sequences.
#[verifier::ext_equal]
pub enum MatchErrorView {
    LimitExceeded,
    Io(Seq<char>),
}

impl View for MatchError {
    type V = MatchErrorView;

    open spec fn view(&self) -> MatchErrorView {
        match self {
            MatchError::LimitExceeded => MatchErrorView::LimitExceeded,
            MatchError::Io(s) => MatchErrorView::Io(s@),
        }
    }
}

/// The view of what a search found.
pub open spec fn found_view(r: Result<Option<String>, MatchError>) -> Result<Option<Seq<char>>, MatchErrorView> {
    match r {
        Ok(p) => Ok(opt_text(p)),
        Err(e) => Err(e@),
    }
}

/// What a path is.
#[derive(Debug, Clone, Copy, PartialEq, Eq, Structural)]
pub enum PathKind {
    File,
    Directory,
    Neither,
}

/// The artist and the album that a file's tags name.
#[derive(Debug, Clone)]
pub struct TagNames {
    pub artist: Option<String>,
    pub album: Option<String>,
}

/// [`TagNames`] over character sequences.
#[verifier::ext_equal]
pub struct TagNamesView {
    pub artist: Option<Seq<char>>,
    pub album: Option<Seq<char>>,
}

impl View for TagNames {
    type V = TagNamesView;

    open spec fn view(&self) -> TagNamesView {
        TagNamesView { artist: opt_text(self.artist), album: opt_text(self.album) }
    }
}

/// What was learned.
#[derive(Debug)]
pub enum ScanEvent {
    /// What the path is.
    Kind(PathKind),
    /// The names in the directory, or how reading it complains.
    Names(Result<Vec<String>, String>),
    /// The names in the file's tags, where it can be read and has tags.
    Tags(Option<TagNames>),
}

/// [`ScanEvent`] over mathematical values.
#[verifier::ext_equal]
pub enum ScanEventView {
    Kind(PathKind),
    Names(Result<Seq<Seq<char>>, Seq<char>>),
    Tags(Option<TagNamesView>),
}

impl View for ScanEvent {
    type V = ScanEventView;

    open spec fn view(&self) -> ScanEventView {
        match self {
            ScanEvent::Kind(k) => ScanEventView::Kind(*k),
            ScanEvent::Names(Ok(v)) => ScanEventView::Names(Ok(texts(v@))),
            ScanEvent::Names(Err(e)) => ScanEventView::Names(Err(e@)),
            ScanEvent::Tags(Some(t)) => ScanEventView::Tags(Some(t@)),
            ScanEvent::Tags(None) => ScanEventView::Tags(None),
        }
    }
}

/// What to do next.
#[derive(Debug)]
pub enum ScanAction {
    /// Say what a path is.
    Look(String),
    /// Read a directory.
    List(String),
    /// Read a file's tags.
    ReadTags(String),
    /// The search is over.
    Done(Result<Option<String>, MatchError>),
}

/// [`ScanAction`] over mathematical values.
#[verifier::ext_equal]
pub enum ScanActionView {
    Look(Seq<char>),
    List(Seq<char>),
    ReadTags(Seq<char>),
    Done(Result<Option<Seq<char>>, MatchErrorView>),
}

impl View for ScanAction {
    type V = ScanActionView;

    open spec fn view(&self) -> ScanActionView {
        match self {
            ScanAction::Look(p) => ScanActionView::Look(p@),
            ScanAction::List(p) => ScanActionView::List(p@),
            ScanAction::ReadTags(p) => ScanActionView::ReadTags(p@),
            ScanAction::Done(r) => ScanActionView::Done(found_view(*r)),
        }
    }
}

/// A path that is still to be visited.
#[derive(Debug, Clone)]
pub struct Visit {
    pub path: String,
    /// Whether it is a root of the library.
    pub root: bool,
    /// Whether its name starts with a dot, in a directory.
    pub hidden: bool,
}

/// [`Visit`] over mathematical values.
#[verifier::ext_equal]
pub struct VisitView {
    pub path: Seq<char>,
    pub root: bool,
    pub hidden: bool,
}

impl View for Visit {
    type V = VisitView;

    open spec fn view(&self) -> VisitView {
        VisitView { path: self.path@, root: self.root, hidden: self.hidden }
    }
}

/// Whether a name is hidden.
pub open spec fn is_hidden(name: Seq<char>) -> bool {
    has_prefix(name, "."@)
}

/// The visit of an entry of a directory.
pub open spec fn entry_visit(dir: Seq<char>, name: Seq<char>) -> VisitView {
    VisitView { path: joined(dir, name), root: false, hidden: is_hidden(name) }
}

/// The visits of names in a directory.
pub open spec fn entry_visits(dir: Seq<char>, names: Seq<Seq<char>>) -> Seq<VisitView> {
    names.map_values(|name: Seq<char>| entry_visit(dir, name))
}

/// The visits of the roots.
pub open spec fn root_visits(roots: Seq<Seq<char>>) -> Seq<VisitView> {
    roots.map_values(|p: Seq<char>| VisitView { path: p, root: true, hidden: false })
}

/// A search.
#[derive(Debug)]
pub struct AlbumScan {
    pub want_artist: String,
    pub want_album: String,
    /// What is still to be visited, the next one last.
    pub pending: Vec<Visit>,
    /// The files whose tags were read.
    pub examined: u32,
}

/// What is still to be visited, the next one first.
pub open spec fn upcoming(v: Seq<Visit>) -> Seq<VisitView> {
    v.reverse().map_values(|x: Visit| x@)
}

/// [`AlbumScan`] over mathematical values.
#[verifier::ext_equal]
pub struct ScanView {
    pub want_artist: Seq<char>,
    pub want_album: Seq<char>,
    pub pending: Seq<VisitView>,
    pub examined: u32,
}

impl View for AlbumScan {
    type V = ScanView;

    open spec fn view(&self) -> ScanView {
        ScanView {
            want_artist: self.want_artist@,
            want_album: self.want_album@,
            pending: upcoming(self.pending@),
            examined: self.examined,
        }
    }
}

/// The complaint about a directory that could not be read.
pub open spec fn unreadable(dir: Seq<char>, why: Seq<char>) -> MatchErrorView {
    MatchErrorView::Io("read_dir "@ + dir + ": "@ + why)
}

impl ScanView {
    /// What to do where nothing is asked yet: look at the next path, or end.
    pub open spec fn ask(self) -> ScanActionView {
        if self.pending.len() == 0 {
            ScanActionView::Done(Ok(None))
        } else {
            ScanActionView::Look(self.pending[0].path)
        }
    }

    /// Without the path that is being visited.
    pub open spec fn passed(self) -> ScanView {
        ScanView { pending: self.pending.drop_first(), ..self }
    }

    /// Going on behind the path that is being visited.
    pub open spec fn skipped(self) -> (ScanView, ScanActionView) {
        (self.passed(), self.passed().ask())
    }

    /// Reading the tags of the path that is being visited, where it looks like audio.
    pub open spec fn examining(self) -> (ScanView, ScanActionView) {
        if !looks_like_audio(self.pending[0].path) {
            self.skipped()
        } else if self.examined >= MAX_MPD_ALBUM_SCAN_CANDIDATES {
            (self, ScanActionView::Done(Err(MatchErrorView::LimitExceeded)))
        } else {
            (
                ScanView { examined: (self.examined + 1) as u32, ..self },
                ScanActionView::ReadTags(self.pending[0].path),
            )
        }
    }

    /// The search after something was learned, and what to do next.
    pub open spec fn resumed(self, event: ScanEventView) -> (ScanView, ScanActionView) {
        if self.pending.len() == 0 {
            (self, ScanActionView::Done(Ok(None)))
        } else {
            let here = self.pending[0];
            match event {
                ScanEventView::Kind(PathKind::Directory) => if here.hidden {
                    self.skipped()
                } else {
                    (self, ScanActionView::List(here.path))
                },
                ScanEventView::Kind(PathKind::File) => self.examining(),
                ScanEventView::Kind(PathKind::Neither) => if here.root {
                    self.skipped()
                } else {
                    self.examining()
                },
                ScanEventView::Names(Ok(names)) => {
                    let inside = ScanView {
                        pending: entry_visits(here.path, in_order(names)) + self.pending.drop_first(),
                        ..self
                    };
                    (inside, inside.ask())
                },
                ScanEventView::Names(Err(why)) => (self, ScanActionView::Done(Err(unreadable(here.path, why)))),
                ScanEventView::Tags(Some(t)) => if tags_match(t.artist, t.album, self.want_artist, self.want_album) {
                    (self, ScanActionView::Done(Ok(Some(here.path))))
                } else {
                    self.skipped()
                },
                ScanEventView::Tags(None) => self.skipped(),
            }
        }
    }
}

/// A search that is about to start.
pub open spec fn scan_start(roots: Seq<Seq<char>>, want_artist: Seq<char>, want_album: Seq<char>) -> ScanView {
    ScanView {
        want_artist: trimmed(want_artist),
        want_album: trimmed(want_album),
        pending: root_visits(roots),
        examined: 0,
    }
}

proof fn lemma_upcoming_pop(v: Seq<Visit>)
    requires
        v.len() > 0,
    ensures
        upcoming(v).len() == v.len(),
        upcoming(v)[0] == v.last()@,
        upcoming(v.drop_last()) == upcoming(v).drop_first(),
{
    assert(upcoming(v.drop_last()) =~= upcoming(v).drop_first());
}

proof fn lemma_upcoming_push(v: Seq<Visit>, x: Visit)
    ensures
        upcoming(v.push(x)) == seq![x@] + upcoming(v),
{
    assert(upcoming(v.push(x)) =~= seq![x@] + upcoming(v));
}

impl AlbumScan {
    /// A search for a track of an album.
    pub fn new(library_roots: &Vec<String>, want_artist: &str, want_album: &str) -> (r: AlbumScan)
        ensures
            r@ == scan_start(texts(library_roots@), want_artist@, want_album@),
    {
        let mut pending: Vec<Visit> = Vec::new();
        let mut i: usize = library_roots.len();
        let ghost roots = texts(library_roots@);
        proof {
            assert(upcoming(pending@) =~= root_visits(roots.skip(i as int)));
        }
        while i > 0
            invariant
                i <= library_roots.len(),
                roots == texts(library_roots@),
                upcoming(pending@) == root_visits(roots.skip(i as int)),
            decreases i,
        {
            i -= 1;
            let visit = Visit { path: library_roots[i].clone(), root: true, hidden: false };
            proof {
                lemma_upcoming_push(pending@, visit);
                assert(root_visits(roots.skip(i as int)) =~= seq![visit@] + root_visits(roots.skip(i as int + 1)));
            }
            pending.push(visit);
        }
        proof {
            assert(roots.skip(0) =~= roots);
        }
        AlbumScan {
            want_artist: trim(want_artist).to_owned(),
            want_album: trim(want_album).to_owned(),
            pending,
            examined: 0,
        }
    }

    /// What to do where nothing is asked yet.
    pub fn ask(&self) -> (r: ScanAction)
        ensures
            r@ == self@.ask(),
    {
        let n: usize = self.pending.len();
        if n == 0 {
            ScanAction::Done(Ok(None))
        } else {
            proof {
                lemma_upcoming_pop(self.pending@);
            }
            ScanAction::Look(self.pending[n - 1].path.clone())
        }
    }

    fn skip(&mut self) -> (r: ScanAction)
        requires
            old(self).pending@.len() > 0,
        ensures
            (final(self)@, r@) == old(self)@.skipped(),
    {
        proof {
            lemma_upcoming_pop(self.pending@);
        }
        let _gone = self.pending.pop();
        self.ask()
    }

    fn examine(&mut self) -> (r: ScanAction)
        requires
            old(self).pending@.len() > 0,
        ensures
            (final(self)@, r@) == old(self)@.examining(),
    {
        proof {
            lemma_upcoming_pop(self.pending@);
        }
        let n: usize = self.pending.len();
        let path = self.pending[n - 1].path.clone();
        if !is_probable_audio_file(path.as_str()) {
            return self.skip();
        }
        if self.examined >= MAX_MPD_ALBUM_SCAN_CANDIDATES {
            return ScanAction::Done(Err(MatchError::LimitExceeded));
        }
        self.examined += 1;
        ScanAction::ReadTags(path)
    }

    fn enter(&mut self, names: Vec<String>) -> (r: ScanAction)
        requires
            old(self).pending@.len() > 0,
        ensures
            (final(self)@, r@) == old(self)@.resumed(ScanEventView::Names(Ok(texts(names@)))),
    {
        let ghost before = self.pending@;
        proof {
            lemma_upcoming_pop(before);
        }
        let n: usize = self.pending.len();
        let dir = self.pending[n - 1].path.clone();
        let _gone = self.pending.pop();
        let sorted = sort_texts(names);
        let ghost all = texts(sorted@);
        let ghost rest = upcoming(before).drop_first();
        let mut i: usize = sorted.len();
        proof {
            assert(entry_visits(dir@, all.skip(i as int)) + rest =~= rest);
        }
        while i > 0
            invariant
                i <= sorted.len(),
                all == texts(sorted@),
                self.want_artist == old(self).want_artist,
                self.want_album == old(self).want_album,
                self.examined == old(self).examined,
                upcoming(self.pending@) == entry_visits(dir@, all.skip(i as int)) + rest,
            decreases i,
        {
            i -= 1;
            let name = sorted[i].as_str();
            let visit = Visit { path: join_path(dir.as_str(), name), root: false, hidden: starts_with(name, ".") };
            proof {
                lemma_upcoming_push(self.pending@, visit);
                assert(entry_visits(dir@, all.skip(i as int)) =~= seq![visit@] + entry_visits(
                    dir@,
                    all.skip(i as int + 1),
                ));
                assert(seq![visit@] + (entry_visits(dir@, all.skip(i as int + 1)) + rest) =~= entry_visits(
                    dir@,
                    all.skip(i as int),
                ) + rest);
            }
            self.pending.push(visit);
        }
        proof {
            assert(all.skip(0) =~= all);
        }
        self.ask()
    }

    /// Takes what was learned, and says what to do next.
    pub fn resume(&mut self, event: ScanEvent) -> (r: ScanAction)
        ensures
            (final(self)@, r@) == old(self)@.resumed(event@),
    {
        let n: usize = self.pending.len();
        if n == 0 {
            return ScanAction::Done(Ok(None));
        }
        proof {
            lemma_upcoming_pop(self.pending@);
        }
        match event {
            ScanEvent::Kind(PathKind::Directory) => {
                if self.pending[n - 1].hidden {
                    self.skip()
                } else {
                    ScanAction::List(self.pending[n - 1].path.clone())
                }
            },
            ScanEvent::Kind(PathKind::File) => self.examine(),
            ScanEvent::Kind(PathKind::Neither) => {
                if self.pending[n - 1].root {
                    self.skip()
                } else {
                    self.examine()
                }
            },
            ScanEvent::Names(Ok(names)) => self.enter(names),
            ScanEvent::Names(Err(why)) => {
                let path = self.pending[n - 1].path.as_str();
                ScanAction::Done(Err(MatchError::Io(cat4("read_dir ", path, ": ", why.as_str()))))
            },
            ScanEvent::Tags(Some(t)) => {
                let artist = match &t.artist {
                    Some(s) => Some(s.as_str()),
                    None => None,
                };
                let album = match &t.album {
                    Some(s) => Some(s.as_str()),
                    None => None,
                };
                if file_tag_matches(artist, album, self.want_artist.as_str(), self.want_album.as_str()) {
                    ScanAction::Done(Ok(Some(self.pending[n - 1].path.clone())))
                } else {
                    self.skip()
                }
            },
            ScanEvent::Tags(None) => self.skip(),
        }
    }
}

/// Starts the search for the first track of an album: the search, and what to do first.
/// Each time that was done, [`AlbumScan::resume`] takes what was learned, until the
/// search is over.
pub fn first_matching_audio_path(library_roots: &Vec<String>, want_artist: &str, want_album: &str) -> (r: (
    AlbumScan,
    ScanAction,
))
    ensures
        r.0@ == scan_start(texts(library_roots@), want_artist@, want_album@),
        r.1@ == r.0@.ask(),
{
    let scan = AlbumScan::new(library_roots, want_artist, want_album);
    let first = scan.ask();
    (scan, first)
}

// What a search finds in a library that does not change meanwhile.

/// A library: what each path is, what each directory holds and what each file's tags
/// say.
pub struct LibraryTree {
    pub kind: spec_fn(Seq<char>) -> PathKind,
    pub names: spec_fn(Seq<char>) -> Result<Seq<Seq<char>>, Seq<char>>,
    pub tags: spec_fn(Seq<char>) -> Option<TagNamesView>,
}

/// What a visit comes to.
#[verifier::ext_equal]
pub enum Walked {
    /// Nothing was found; so many files were examined by then.
    Missing(u32),
    /// The search is over.
    Over(Result<Option<Seq<char>>, MatchErrorView>),
    /// The directories are nested deeper than was allowed for.
    TooDeep,
}

/// What examining a path comes to.
pub open spec fn examined_path(lib: LibraryTree, path: Seq<char>, artist: Seq<char>, album: Seq<char>, examined: u32) -> Walked {
    if !looks_like_audio(path) {
        Walked::Missing(examined)
    } else if examined >= MAX_MPD_ALBUM_SCAN_CANDIDATES {
        Walked::Over(Err(MatchErrorView::LimitExceeded))
    } else {
        match (lib.tags)(path) {
            Some(t) => if tags_match(t.artist, t.album, artist, album) {
                Walked::Over(Ok(Some(path)))
            } else {
                Walked::Missing((examined + 1) as u32)
            },
            None => Walked::Missing((examined + 1) as u32),
        }
    }
}

/// What visiting paths one after the other comes to: each directory that is not hidden
/// is searched before what stands behind it, its entries in the order of their names,
/// to a given depth.
pub open spec fn walked(
    lib: LibraryTree,
    visits: Seq<VisitView>,
    artist: Seq<char>,
    album: Seq<char>,
    examined: u32,
    depth: nat,
) -> Walked
    decreases depth, visits.len(),
{
    if visits.len() == 0 {
        Walked::Missing(examined)
    } else {
        let here = visits[0];
        let first = match (lib.kind)(here.path) {
            PathKind::Directory => if here.hidden {
                Walked::Missing(examined)
            } else if depth == 0 {
                Walked::TooDeep
            } else {
                match (lib.names)(here.path) {
                    Ok(names) => walked(
                        lib,
                        entry_visits(here.path, in_order(names)),
                        artist,
                        album,
                        examined,
                        (depth - 1) as nat,
                    ),
                    Err(why) => Walked::Over(Err(unreadable(here.path, why))),
                }
            },
            PathKind::File => examined_path(lib, here.path, artist, album, examined),
            PathKind::Neither => if here.root {
                Walked::Missing(examined)
            } else {
                examined_path(lib, here.path, artist, album, examined)
            },
        };
        match first {
            Walked::Missing(n) => walked(lib, visits.drop_first(), artist, album, n, depth),
            other => other,
        }
    }
}

/// What is learned of a library by doing what a search asks for.
pub open spec fn learned(lib: LibraryTree, action: ScanActionView) -> ScanEventView {
    match action {
        ScanActionView::Look(p) => ScanEventView::Kind((lib.kind)(p)),
        ScanActionView::List(p) => ScanEventView::Names((lib.names)(p)),
        ScanActionView::ReadTags(p) => ScanEventView::Tags((lib.tags)(p)),
        ScanActionView::Done(_) => ScanEventView::Tags(None),
    }
}

/// Where a search ends within a number of steps, from a state and what it asks for.
pub open spec fn search_result(lib: LibraryTree, scan: ScanView, action: ScanActionView, steps: nat) -> Option<
    Result<Option<Seq<char>>, MatchErrorView>,
>
    decreases steps,
{
    match action {
        ScanActionView::Done(r) => Some(r),
        _ => if steps == 0 {
            None
        } else {
            let (next, asked) = scan.resumed(learned(lib, action));
            search_result(lib, next, asked, (steps - 1) as nat)
        },
    }
}

/// A search that has `visits` and then `rest` ahead of it.
spec fn facing(visits: Seq<VisitView>, rest: Seq<VisitView>, artist: Seq<char>, album: Seq<char>, examined: u32) -> ScanView {
    ScanView { want_artist: artist, want_album: album, pending: visits + rest, examined }
}

/// Going through paths, a search ends as [`walked`] says, or comes to what stands behind
/// them.
proof fn lemma_search(
    lib: LibraryTree,
    visits: Seq<VisitView>,
    rest: Seq<VisitView>,
    artist: Seq<char>,
    album: Seq<char>,
    examined: u32,
    depth: nat,
    result: Result<Option<Seq<char>>, MatchErrorView>,
) -> (steps: nat)
    requires
        match walked(lib, visits, artist, album, examined, depth) {
            Walked::Missing(n) => {
                let behind = facing(seq![], rest, artist, album, n);
                exists|k: nat| #[trigger] search_result(lib, behind, behind.ask(), k) == Some(result)
            },
            Walked::Over(r) => r == result,
            Walked::TooDeep => false,
        },
    ensures
        ({
            let here = facing(visits, rest, artist, album, examined);
            search_result(lib, here, here.ask(), steps) == Some(result)
        }),
    decreases depth, visits.len(),
{
    let scan = facing(visits, rest, artist, album, examined);
    if visits.len() == 0 {
        assert(visits =~= seq![]);
        let behind = facing(seq![], rest, artist, album, examined);
        choose|k: nat| #[trigger] search_result(lib, behind, behind.ask(), k) == Some(result)
    } else {
        let here = visits[0];
        let others = visits.drop_first();
        let ask = scan.ask();
        assert(scan.pending[0] == here);
        assert(scan.pending.drop_first() =~= others + rest);
        let kind = (lib.kind)(here.path);
        let (s1, a1) = scan.resumed(learned(lib, ask));
        if kind == PathKind::Directory && !here.hidden {
            assert(a1 == ScanActionView::List(here.path));
            let (s2, a2) = s1.resumed(learned(lib, a1));
            match (lib.names)(here.path) {
                Ok(names) => {
                    let inner = entry_visits(here.path, in_order(names));
                    assert(s2 == facing(inner, others + rest, artist, album, examined));
                    match walked(lib, inner, artist, album, examined, (depth - 1) as nat) {
                        Walked::Missing(n) => {
                            let k = lemma_search(lib, others, rest, artist, album, n, depth, result);
                            let behind = facing(seq![], others + rest, artist, album, n);
                            assert(behind =~= facing(others, rest, artist, album, n));
                            assert(search_result(lib, behind, behind.ask(), k) == Some(result));
                        },
                        _ => {},
                    }
                    let k2 = lemma_search(
                        lib,
                        inner,
                        others + rest,
                        artist,
                        album,
                        examined,
                        (depth - 1) as nat,
                        result,
                    );
                    assert(search_result(lib, s1, a1, (k2 + 1) as nat) == Some(result));
                    assert(search_result(lib, scan, ask, (k2 + 2) as nat) == Some(result));
                    (k2 + 2) as nat
                },
                Err(_) => {
                    assert(search_result(lib, s1, a1, 1) == Some(result)) by {
                        reveal_with_fuel(search_result, 2);
                    }
                    assert(search_result(lib, scan, ask, 2) == Some(result));
                    2
                },
            }
        } else if kind == PathKind::Directory || (kind == PathKind::Neither && here.root) || !looks_like_audio(here.path) {
            let k = lemma_search(lib, others, rest, artist, album, examined, depth, result);
            assert(s1 =~= facing(others, rest, artist, album, examined));
            assert(search_result(lib, scan, ask, (k + 1) as nat) == Some(result));
            (k + 1) as nat
        } else if examined >= MAX_MPD_ALBUM_SCAN_CANDIDATES {
            assert(search_result(lib, scan, ask, 1) == Some(result)) by {
                reveal_with_fuel(search_result, 2);
            }
            1
        } else {
            assert(a1 == ScanActionView::ReadTags(here.path));
            let (s2, a2) = s1.resumed(learned(lib, a1));
            let found = (lib.tags)(here.path) matches Some(t) && tags_match(t.artist, t.album, artist, album);
            if found {
                assert(search_result(lib, s1, a1, 1) == Some(result)) by {
                    reveal_with_fuel(search_result, 2);
                }
                assert(search_result(lib, scan, ask, 2) == Some(result));
                2
            } else {
                let n = (examined + 1) as u32;
                let k = lemma_search(lib, others, rest, artist, album, n, depth, result);
                assert(s2 =~= facing(others, rest, artist, album, n));
                assert(search_result(lib, s1, a1, (k + 1) as nat) == Some(result));
                assert(search_result(lib, scan, ask, (k + 2) as nat) == Some(result));
                (k + 2) as nat
            }
        }
    }
}

/// A search in a library that does not change meanwhile, and is not nested without end,
/// finds the first track of the album in the order in which the library is walked, or
/// none, or fails where the walk fails: whatever the library holds.
pub proof fn search_finds_the_first_match(
    lib: LibraryTree,
    roots: Seq<Seq<char>>,
    want_artist: Seq<char>,
    want_album: Seq<char>,
    depth: nat,
)
    requires
        walked(lib, root_visits(roots), trimmed(want_artist), trimmed(want_album), 0, depth) !is TooDeep,
    ensures
        ({
            let scan = scan_start(roots, want_artist, want_album);
            let result = match walked(lib, root_visits(roots), trimmed(want_artist), trimmed(want_album), 0, depth) {
                Walked::Over(r) => r,
                _ => Ok(None),
            };
            exists|steps: nat| #[trigger] search_result(lib, scan, scan.ask(), steps) == Some(result)
        }),
{
    let artist = trimmed(want_artist);
    let album = trimmed(want_album);
    let visits = root_visits(roots);
    let scan = scan_start(roots, want_artist, want_album);
    let result = match walked(lib, visits, artist, album, 0, depth) {
        Walked::Over(r) => r,
        _ => Ok(None),
    };
    if let Walked::Missing(n) = walked(lib, visits, artist, album, 0, depth) {
        let behind = facing(seq![], seq![], artist, album, n);
        assert(behind.pending.len() == 0);
        assert(search_result(lib, behind, behind.ask(), 0) == Some(result));
    }
    let steps = lemma_search(lib, visits, seq![], artist, album, 0, depth, result);
    assert(facing(visits, seq![], artist, album, 0) =~= scan);
    assert(search_result(lib, scan, scan.ask(), steps) == Some(result));
}

/// A search never reads the tags of more files than is allowed.
pub proof fn searches_are_bounded(scan: ScanView, event: ScanEventView)
    requires
        scan.examined <= MAX_MPD_ALBUM_SCAN_CANDIDATES,
    ensures
        scan.resumed(event).0.examined <= MAX_MPD_ALBUM_SCAN_CANDIDATES,
        scan.resumed(event).1 is ReadTags ==> scan.resumed(event).0.examined == scan.examined + 1,
        scan.resumed(event).1 !is ReadTags ==> scan.resumed(event).0.examined == scan.examined,
{
}

/// Only a match is found: a search ends with a path only when the tags of the file at that
/// path name the artist and the album that are wanted.
pub proof fn only_matches_are_found(scan: ScanView, event: ScanEventView)
    requires
        scan.pending.len() > 0,
    ensures
        scan.resumed(event).1 matches ScanActionView::Done(Ok(Some(path))) ==> path == scan.pending[0].path && (event
            matches ScanEventView::Tags(Some(t)) && tags_match(t.artist, t.album, scan.want_artist, scan.want_album)),
        event matches ScanEventView::Tags(Some(t)) ==> tags_match(t.artist, t.album, scan.want_artist, scan.want_album)
            ==> scan.resumed(event).1 == ScanActionView::Done(Ok(Some(scan.pending[0].path))),
        scan.resumed(event).0.want_artist == scan.want_artist,
        scan.resumed(event).0.want_album == scan.want_album,
{
}

/// What is visited: the tags of a file are read where its extension is that of audio, and a
/// directory is listed unless it is hidden; everything else is passed over, and the next
/// path is looked at.
pub proof fn audio_files_and_open_directories_are_visited(scan: ScanView)
    requires
        scan.pending.len() > 0,
        scan.examined < 100_000,
    ensures
        ({
            let here = scan.pending[0];
            let after_file = scan.resumed(ScanEventView::Kind(PathKind::File));
            let after_dir = scan.resumed(ScanEventView::Kind(PathKind::Directory));
            let next = if scan.pending.len() == 1 {
                ScanActionView::Done(Ok(None))
            } else {
                ScanActionView::Look(scan.pending[1].path)
            };
            &&& looks_like_audio(here.path) ==> after_file.1 == ScanActionView::ReadTags(here.path) && after_file.0.pending
                == scan.pending
            &&& !looks_like_audio(here.path) ==> after_file.1 == next && after_file.0.pending == scan.pending.drop_first()
            &&& !here.hidden ==> after_dir.1 == ScanActionView::List(here.path) && after_dir.0.pending == scan.pending
            &&& here.hidden ==> after_dir.1 == next && after_dir.0.pending == scan.pending.drop_first()
            &&& scan.resumed(ScanEventView::Tags(None)).1 == next
        }),
{
}

/// A directory is searched before what stands behind it, entry by entry in the order of
/// their names; where it cannot be read, the search fails and says which and why.
pub proof fn directories_are_searched_in_order(scan: ScanView, names: Seq<Seq<char>>, why: Seq<char>, i: int)
    requires
        scan.pending.len() > 0,
    ensures
        ({
            let dir = scan.pending[0].path;
            let after = scan.resumed(ScanEventView::Names(Ok(names))).0;
            let sorted = in_order(names);
            &&& after.pending.len() == sorted.len() + scan.pending.len() - 1
            &&& 0 <= i < sorted.len() ==> after.pending[i].path == joined(dir, sorted[i]) && !after.pending[i].root && (
            after.pending[i].hidden <==> sorted[i].len() > 0 && sorted[i][0] == '.')
            &&& sorted.len() <= i < after.pending.len() ==> after.pending[i] == scan.pending[i - sorted.len() + 1]
        }),
        scan.resumed(ScanEventView::Names(Err(why))).1 == ScanActionView::Done(
            Err(MatchErrorView::Io("read_dir "@ + scan.pending[0].path + ": "@ + why)),
        ),
{
    let sorted = in_order(names);
    reveal_strlit(".");
    if 0 <= i < sorted.len() && sorted[i].len() > 0 {
        assert(sorted[i].take(1) =~= seq![sorted[i][0]]);
        assert("."@ =~= seq!['.']);
        if sorted[i][0] == '.' {
            assert(sorted[i].take(1) =~= "."@);
        } else {
            assert(sorted[i].take(1)[0] != "."@[0]);
        }
    }
}

/// A search that has read the tags of 100,000 files gives up before the next.
pub proof fn searches_give_up_at_the_limit(scan: ScanView)
    requires
        scan.pending.len() > 0,
        looks_like_audio(scan.pending[0].path),
        scan.examined >= 100_000,
    ensures
        scan.resumed(ScanEventView::Kind(PathKind::File)).1 == ScanActionView::Done(Err(MatchErrorView::LimitExceeded)),
{
}

/// Each field is seen under its own name, as it is.
pub proof fn fields_are_seen_under_their_names(tag_names: TagNames, visit: Visit, album_scan: AlbumScan)
    ensures
        tag_names@.artist == opt_text(tag_names.artist),
        tag_names@.album == opt_text(tag_names.album),
        visit@.path == visit.path@,
        visit@.root == visit.root,
        visit@.hidden == visit.hidden,
        album_scan@.want_artist == album_scan.want_artist@,
        album_scan@.want_album == album_scan.want_album@,
        album_scan@.pending == upcoming(album_scan.pending@),
        album_scan@.examined == album_scan.examined,
{
}

} // verus!
