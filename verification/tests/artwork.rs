//! Covers that stand in audio files.

use evo_device_audio::artwork::embedded::{
    cache_basename_for_track, cache_basename_with, extension_for_mime, pick_picture, read_embedded_cover,
    sniff_image_mime, write_embedded_to_cache, EmbeddedImage, FilePictures, PictureKind, TagPicture,
};
use std::hash::{Hash, Hasher};
use std::path::Path;

#[test]
fn sniff_jpeg() {
    assert_eq!(sniff_image_mime(&[0xFF, 0xD8, 0xFF, 0, 0]), "image/jpeg");
}

#[test]
fn sniffing_knows_the_other_kinds() {
    assert_eq!(sniff_image_mime(&[0x89, b'P', b'N', b'G', 0x0D, 0x0A, 0x1A, 0x0A]), "image/png");
    assert_eq!(sniff_image_mime(b"GIF89a"), "image/gif");
    assert_eq!(sniff_image_mime(b"RIFF\0\0\0\0WEBPVP8 "), "image/webp");
    assert_eq!(sniff_image_mime(b"plain"), "application/octet-stream");
    assert_eq!(sniff_image_mime(b""), "application/octet-stream");
}

fn picture(kind: PictureKind, mime: Option<&str>, data: &[u8]) -> TagPicture {
    TagPicture { kind, mime: mime.map(|m| m.to_string()), data: data.to_vec() }
}

#[test]
fn read_embedded_from_plain_text_fails() {
    assert!(read_embedded_cover(&None).is_none());
}

#[test]
fn front_covers_come_first() {
    let front = picture(PictureKind::CoverFront, Some("image/png"), b"front");
    let back = picture(PictureKind::CoverBack, Some("image/png"), b"back");
    let other = picture(PictureKind::Elsewhere, Some("image/png"), b"other");
    let pick = |p: &Vec<TagPicture>| pick_picture(p).map(|i| i.data);
    assert_eq!(pick(&vec![back.clone(), other.clone(), front.clone()]), Some(b"front".to_vec()));
    assert_eq!(pick(&vec![back.clone(), other.clone()]), Some(b"other".to_vec()));
    assert_eq!(pick(&vec![back.clone()]), Some(b"back".to_vec()));
    assert_eq!(pick(&vec![]), None);
}

#[test]
fn other_tags_are_asked_after_the_primary_one() {
    let one = picture(PictureKind::CoverFront, None, &[0xFF, 0xD8, 0xFF, 1]);
    let file = FilePictures { primary: Some(vec![]), tags: vec![vec![], vec![one]] };
    let cover = read_embedded_cover(&Some(file)).expect("cover");
    assert_eq!(cover.mime, "image/jpeg");
    assert_eq!(cover.data, vec![0xFF, 0xD8, 0xFF, 1]);
}

#[test]
fn kinds_have_their_extensions() {
    assert_eq!(extension_for_mime("image/jpeg"), "jpg");
    assert_eq!(extension_for_mime("image/png"), "png");
    assert_eq!(extension_for_mime("image/unheard-of"), "jpg");
}

#[test]
fn names_in_the_cache_hold_the_digest_of_the_path() {
    let mut hasher = std::collections::hash_map::DefaultHasher::new();
    Path::new("/m/a.flac").hash(&mut hasher);
    let digest = hasher.finish();
    assert_eq!(cache_basename_for_track("/m/a.flac"), cache_basename_with(digest, "/m/a.flac"));
    assert!(cache_basename_for_track("/m/a.flac").contains(&format!("{digest:016x}")));
    assert_ne!(cache_basename_for_track("/m/a.flac"), cache_basename_for_track("/m/b.flac"));
}

#[test]
fn covers_are_kept_under_the_state_directory() {
    let image = EmbeddedImage { data: vec![1], mime: "image/png".to_string() };
    let path = write_embedded_to_cache("/state", "/m/a.flac", &image).expect("path");
    assert!(path.starts_with("/state/artwork_cache/"));
    assert!(path.ends_with(".png"));
    let text = EmbeddedImage { data: vec![1], mime: "text/plain".to_string() };
    assert!(write_embedded_to_cache("/state", "/m/a.flac", &text).is_err());
}
