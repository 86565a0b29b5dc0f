//! The music library: album names, roots, and the search for an album.

use evo_device_audio::library::album::{
    file_tag_matches, is_probable_audio_file, parse_mpd_album_value, ParseError, MAX_MPD_ALBUM_SCAN_CANDIDATES,
    UNKNOWN_ARTIST,
};
use evo_device_audio::library::scan::{
    first_matching_audio_path, MatchError, PathKind, ScanAction, ScanEvent, TagNames,
};

#[test]
fn parse_mpd_album_splits_first_pipe_only() {
    assert_eq!(parse_mpd_album_value(r"a|b|c").unwrap(), (r"a".to_string(), r"b|c".to_string()));
    assert_eq!(
        parse_mpd_album_value("  unknown  |  Hits  ").unwrap(),
        ("unknown".to_string(), "Hits".to_string())
    );
    assert_eq!(parse_mpd_album_value("|Solo").unwrap().0, UNKNOWN_ARTIST);
    assert!(parse_mpd_album_value("nope").is_err());
    assert!(parse_mpd_album_value("x|").is_err());
    assert_eq!(parse_mpd_album_value("x|").unwrap_err(), ParseError::InvalidFormat);
}

#[test]
fn file_tag_match_rules() {
    assert!(file_tag_matches(None, Some("A"), UNKNOWN_ARTIST, "A"));
    assert!(file_tag_matches(Some("B"), Some("A"), "B", "A"));
    assert!(!file_tag_matches(Some("B"), Some("A"), "C", "A"));
    assert!(!file_tag_matches(Some("B"), None, "B", "A"));
}

#[test]
fn audio_files_are_known_by_their_extension() {
    assert!(is_probable_audio_file("/m/a.flac"));
    assert!(is_probable_audio_file("/m/A.MP3"));
    assert!(!is_probable_audio_file("/m/a.txt"));
    assert!(!is_probable_audio_file("/m/flac"));
}

/// A tree in memory: its files with their artist and album, and its directories.
struct Tree {
    files: Vec<(&'static str, &'static str, &'static str)>,
    broken: Vec<&'static str>,
}

impl Tree {
    fn kind(&self, path: &str) -> PathKind {
        if self.files.iter().any(|f| f.0 == path) {
            PathKind::File
        } else if !self.names(path).is_empty() || self.broken.contains(&path) {
            PathKind::Directory
        } else {
            PathKind::Neither
        }
    }

    fn names(&self, path: &str) -> Vec<String> {
        let mut names: Vec<String> = vec![];
        for f in &self.files {
            if let Some(rest) = f.0.strip_prefix(path).and_then(|r| r.strip_prefix('/')) {
                let name = rest.split('/').next().unwrap().to_string();
                if !names.contains(&name) {
                    names.push(name);
                }
            }
        }
        names
    }

    fn search(&self, roots: &[&str], artist: &str, album: &str) -> (Result<Option<String>, MatchError>, Vec<String>) {
        let roots: Vec<String> = roots.iter().map(|r| r.to_string()).collect();
        let mut read = vec![];
        let (mut scan, mut action) = first_matching_audio_path(&roots, artist, album);
        loop {
            let event = match action {
                ScanAction::Look(path) => ScanEvent::Kind(self.kind(&path)),
                ScanAction::List(path) => ScanEvent::Names(if self.broken.contains(&path.as_str()) {
                    Err("permission denied".to_string())
                } else {
                    Ok(self.names(&path))
                }),
                ScanAction::ReadTags(path) => {
                    let found = self.files.iter().find(|f| f.0 == path).map(|f| TagNames {
                        artist: Some(f.1.to_string()),
                        album: Some(f.2.to_string()),
                    });
                    read.push(path);
                    ScanEvent::Tags(found)
                }
                ScanAction::Done(r) => return (r, read),
            };
            action = scan.resume(event);
        }
    }
}

#[test]
fn end_to_end_finds_in_tree() {
    let tree = Tree { files: vec![("/lib/Bandname/TheAlbum/1.mp3", "Bandname", "TheAlbum")], broken: vec![] };
    let (a, al) = parse_mpd_album_value("Bandname|TheAlbum").unwrap();
    let (found, _) = tree.search(&["/lib"], &a, &al);
    assert_eq!(found, Ok(Some("/lib/Bandname/TheAlbum/1.mp3".to_string())));
}

#[test]
fn the_first_match_in_the_order_of_names_is_found() {
    let tree = Tree {
        files: vec![
            ("/lib/b/2.flac", "X", "Y"),
            ("/lib/b/1.flac", "X", "Y"),
            ("/lib/a/9.flac", "X", "Z"),
            ("/lib/.hidden/0.flac", "X", "Y"),
            ("/lib/a/notes.txt", "X", "Y"),
        ],
        broken: vec![],
    };
    let (found, read) = tree.search(&["/lib"], "X", "Y");
    assert_eq!(found, Ok(Some("/lib/b/1.flac".to_string())));
    assert_eq!(read, vec!["/lib/a/9.flac", "/lib/b/1.flac"]);
}

#[test]
fn nothing_is_found_where_nothing_matches() {
    let tree = Tree { files: vec![("/lib/1.mp3", "X", "Y")], broken: vec![] };
    assert_eq!(tree.search(&["/lib", "/elsewhere"], "X", "Q").0, Ok(None));
    assert_eq!(tree.search(&[], "X", "Y").0, Ok(None));
}

#[test]
fn a_search_ends_at_its_limit() {
    let roots = vec!["/lib".to_string()];
    let (mut scan, action) = first_matching_audio_path(&roots, "X", "Y");
    assert!(matches!(action, ScanAction::Look(ref p) if p == "/lib"));
    assert!(matches!(scan.resume(ScanEvent::Kind(PathKind::Directory)), ScanAction::List(_)));
    let many: Vec<String> = (0..MAX_MPD_ALBUM_SCAN_CANDIDATES + 1).map(|i| format!("{i}.mp3")).collect();
    let mut action = scan.resume(ScanEvent::Names(Ok(many)));
    let mut read: u32 = 0;
    let end = loop {
        action = match action {
            ScanAction::Look(_) => scan.resume(ScanEvent::Kind(PathKind::File)),
            ScanAction::ReadTags(_) => {
                read += 1;
                scan.resume(ScanEvent::Tags(None))
            }
            ScanAction::List(_) => unreachable!(),
            ScanAction::Done(r) => break r,
        };
    };
    assert_eq!(end, Err(MatchError::LimitExceeded));
    assert!(read <= MAX_MPD_ALBUM_SCAN_CANDIDATES);
}
