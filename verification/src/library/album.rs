//! Albums by artist and title, and the tags of the tracks in them.

use crate::paths::{extension_of_path, path_extension};
use crate::text::{
    columns_come_apart, eq_ignoring_case, is_space, lemma_trim_fixed, lowered, opt_slice, same_ignoring_case, slices,
    split_n, splitn, text_eq, trim, trimmed,
};
use vstd::prelude::*;

verus! {

/// The artist of tracks that name none.
pub const UNKNOWN_ARTIST: &'static str = "unknown";

/// The most files whose tags are read in one search.
pub const MAX_MPD_ALBUM_SCAN_CANDIDATES: u32 = 100_000;

/// Why an album could not be named.
#[derive(Debug, Clone, Copy, PartialEq, Eq, Structural)]
pub enum ParseError {
    /// There is no `|`, or nothing behind it.
    InvalidFormat,
}

/// An artist's name, or the one that stands for none.
pub open spec fn artist_or_unknown(s: Seq<char>) -> Seq<char> {
    if trimmed(s).len() == 0 {
        UNKNOWN_ARTIST@
    } else {
        trimmed(s)
    }
}

/// The artist and the album that a text names: what stands before its first `|` and
/// what stands behind it.
pub open spec fn album_named(value: Seq<char>) -> Option<(Seq<char>, Seq<char>)> {
    let parts = split_n(trimmed(value), 2, '|');
    if parts.len() < 2 || trimmed(parts[1]).len() == 0 {
        None
    } else {
        Some((artist_or_unknown(parts[0]), trimmed(parts[1])))
    }
}

/// The view of an artist and an album.
pub open spec fn pair_view(r: Result<(String, String), ParseError>) -> Option<(Seq<char>, Seq<char>)> {
    match r {
        Ok((a, b)) => Some((a@, b@)),
        Err(_) => None,
    }
}

fn artist_of(s: &str) -> (r: String)
    ensures
        r@ == artist_or_unknown(s@),
{
    let t = trim(s);
    if t.is_empty() {
        UNKNOWN_ARTIST.to_owned()
    } else {
        t.to_owned()
    }
}

/// Reads an artist and an album out of `artist|album`.
pub fn parse_mpd_album_value(value: &str) -> (r: Result<(String, String), ParseError>)
    ensures
        pair_view(r) == album_named(value@),
{
    let parts = splitn(trim(value), 2, '|');
    if parts.len() < 2 {
        return Err(ParseError::InvalidFormat);
    }
    proof {
        assert(slices(parts@)[0] == parts@[0]@);
        assert(slices(parts@)[1] == parts@[1]@);
    }
    let album = trim(parts[1]);
    if album.is_empty() {
        return Err(ParseError::InvalidFormat);
    }
    Ok((artist_of(parts[0]), album.to_owned()))
}

/// The extensions of audio files.
pub open spec fn audio_extensions() -> Seq<Seq<char>> {
    seq![
        "flac"@,
        "mp3"@,
        "m4a"@,
        "mp4"@,
        "m4b"@,
        "aac"@,
        "ogg"@,
        "oga"@,
        "opus"@,
        "wma"@,
        "wav"@,
        "aif"@,
        "aiff"@,
        "wv"@,
        "ape"@,
        "mpc"@,
        "mka"@,
        "webm"@,
        "3gp"@,
        "aax"@,
    ]
}

/// Whether an extension is one of audio files, in whatever case.
pub open spec fn is_audio_extension(ext: Seq<char>) -> bool {
    exists|i: int| 0 <= i < audio_extensions().len() && same_ignoring_case(#[trigger] audio_extensions()[i], ext)
}

/// Whether a path is taken for that of an audio file, by its extension.
pub open spec fn looks_like_audio(path: Seq<char>) -> bool {
    path_extension(path) matches Some(ext) && is_audio_extension(ext)
}

/// Decides [`looks_like_audio`].
pub fn is_probable_audio_file(path: &str) -> (r: bool)
    ensures
        r == looks_like_audio(path@),
{
    let ext = match extension_of_path(path) {
        Some(e) => e,
        None => return false,
    };
    let known = vec![
        "flac",
        "mp3",
        "m4a",
        "mp4",
        "m4b",
        "aac",
        "ogg",
        "oga",
        "opus",
        "wma",
        "wav",
        "aif",
        "aiff",
        "wv",
        "ape",
        "mpc",
        "mka",
        "webm",
        "3gp",
        "aax",
    ];
    proof {
        assert(slices(known@) =~= audio_extensions());
    }
    let mut i: usize = 0;
    while i < known.len()
        invariant
            i <= known.len(),
            path_extension(path@) == Some(ext@),
            slices(known@) == audio_extensions(),
            forall|j: int| 0 <= j < i ==> !same_ignoring_case(#[trigger] audio_extensions()[j], ext@),
        decreases known.len() - i,
    {
        proof {
            assert(slices(known@)[i as int] == known@[i as int]@);
        }
        if eq_ignoring_case(known[i], ext) {
            return true;
        }
        i += 1;
    }
    false
}

/// Whether tags with an artist and an album are those of a track in the album wanted. A
/// track without an album is in none.
pub open spec fn tags_match(
    artist: Option<Seq<char>>,
    album: Option<Seq<char>>,
    want_artist: Seq<char>,
    want_album: Seq<char>,
) -> bool {
    let a = match artist {
        Some(s) => artist_or_unknown(s),
        None => UNKNOWN_ARTIST@,
    };
    match album {
        Some(b) => trimmed(b).len() > 0 && a == want_artist && trimmed(b) == want_album,
        None => false,
    }
}

/// Decides [`tags_match`].
pub fn file_tag_matches(
    file_artist: Option<&str>,
    file_album: Option<&str>,
    want_artist: &str,
    want_album: &str,
) -> (r: bool)
    ensures
        r == tags_match(opt_slice(file_artist), opt_slice(file_album), want_artist@, want_album@),
{
    let a = match file_artist {
        Some(s) => artist_of(s),
        None => UNKNOWN_ARTIST.to_owned(),
    };
    match file_album {
        Some(b) => {
            let t = trim(b);
            !t.is_empty() && text_eq(a.as_str(), want_artist) && text_eq(t, want_album)
        },
        None => false,
    }
}

/// A track without an artist, or with a blank one, matches the artist `unknown`.
pub proof fn nameless_artists_are_unknown(blank: Seq<char>, album: Seq<char>)
    requires
        trimmed(blank).len() == 0,
        album.len() > 0,
        trimmed(album) == album,
    ensures
        tags_match(None, Some(album), UNKNOWN_ARTIST@, album),
        tags_match(Some(blank), Some(album), UNKNOWN_ARTIST@, album),
{
}

/// A text `artist|album` names its artist and its album: what stands before the first bar
/// and what stands behind it. One without a bar, or without an album, names none.
pub proof fn albums_are_named_artist_first(artist: Seq<char>, album: Seq<char>)
    requires
        artist.len() > 0,
        album.len() > 0,
        trimmed(artist) == artist,
        trimmed(album) == album,
        !is_space(artist[0]),
        !is_space(album.last()),
        !artist.contains('|'),
    ensures
        album_named(artist + seq!['|'] + album) == Some((artist, album)),
        album_named(artist) is None,
        album_named(artist + seq!['|']) is None,
{
    let s = artist + seq!['|'] + album;
    lemma_trim_fixed(s);
    columns_come_apart(artist, album, 2, '|');
    assert(split_n(album, 1, '|') =~= seq![album]);
    let none = Seq::<char>::empty();
    let t = artist + seq!['|'] + none;
    assert(t =~= artist + seq!['|']);
    lemma_trim_fixed(t);
    columns_come_apart(artist, none, 2, '|');
    assert(split_n(none, 1, '|') =~= seq![none]);
}

/// Tags match an album exactly where they name its artist and its album; a file without
/// an album matches none.
pub proof fn tags_match_by_name(artist: Seq<char>, album: Seq<char>, want_artist: Seq<char>, want_album: Seq<char>)
    requires
        trimmed(artist).len() > 0,
        want_album.len() > 0,
    ensures
        tags_match(Some(artist), Some(album), want_artist, want_album) <==> trimmed(artist) == want_artist && trimmed(album)
            == want_album,
        !tags_match(Some(artist), None, want_artist, want_album),
        !tags_match(None, None, want_artist, want_album),
        tags_match(None, Some(album), want_artist, want_album) <==> want_artist == "unknown"@ && trimmed(album)
            == want_album,
{
}

/// A file is taken for audio exactly by its extension, in whatever case.
pub proof fn audio_is_told_by_its_extension(path: Seq<char>)
    ensures
        looks_like_audio(path) <==> (path_extension(path) matches Some(ext) && (lowered(ext) == lowered("flac"@) || lowered(ext) == lowered("mp3"@) || lowered(ext) == lowered("m4a"@) || lowered(ext) == lowered("mp4"@) || lowered(ext) == lowered("m4b"@) || lowered(ext) == lowered("aac"@) || lowered(ext) == lowered("ogg"@) || lowered(ext) == lowered("oga"@) || lowered(ext) == lowered("opus"@) || lowered(ext) == lowered("wma"@) || lowered(ext) == lowered("wav"@) || lowered(ext) == lowered("aif"@) || lowered(ext) == lowered("aiff"@) || lowered(ext) == lowered("wv"@) || lowered(ext) == lowered("ape"@) || lowered(ext) == lowered("mpc"@) || lowered(ext) == lowered("mka"@) || lowered(ext) == lowered("webm"@) || lowered(ext) == lowered("3gp"@) || lowered(ext) == lowered("aax"@))),
{
    if let Some(ext) = path_extension(path) {
        let known = audio_extensions();
        if looks_like_audio(path) {
            let i = choose|i: int| 0 <= i < known.len() && same_ignoring_case(#[trigger] known[i], ext);
            assert(lowered(known[i]) == lowered(ext));
        }
        assert(known[0] == "flac"@);
        assert(known[1] == "mp3"@);
        assert(known[2] == "m4a"@);
        assert(known[3] == "mp4"@);
        assert(known[4] == "m4b"@);
        assert(known[5] == "aac"@);
        assert(known[6] == "ogg"@);
        assert(known[7] == "oga"@);
        assert(known[8] == "opus"@);
        assert(known[9] == "wma"@);
        assert(known[10] == "wav"@);
        assert(known[11] == "aif"@);
        assert(known[12] == "aiff"@);
        assert(known[13] == "wv"@);
        assert(known[14] == "ape"@);
        assert(known[15] == "mpc"@);
        assert(known[16] == "mka"@);
        assert(known[17] == "webm"@);
        assert(known[18] == "3gp"@);
        assert(known[19] == "aax"@);
    }
}

} // verus!
