//! Covers that stand in the tags of a file.

use crate::number::{hex_padded, to_hex16};
use crate::paths::{file_name, file_name_of, join_path, joined};
use crate::text::{cat3, has_prefix, starts_with, text_eq};
use std::collections::hash_map::DefaultHasher;
use std::hash::{Hash, Hasher};
use vstd::prelude::*;
use vstd::string::*;

verus! {

broadcast use vstd::string::group_string_axioms;

/// What a picture shows.
#[derive(Debug, Clone, Copy, PartialEq, Eq, Structural)]
pub enum PictureKind {
    CoverFront,
    CoverBack,
    Elsewhere,
}

/// A picture in a tag.
#[derive(Debug, Clone)]
pub struct TagPicture {
    pub kind: PictureKind,
    /// The type that the tag gives it.
    pub mime: Option<String>,
    pub data: Vec<u8>,
}

/// A picture that is known to be one.
#[derive(Debug, Clone)]
pub struct EmbeddedImage {
    pub data: Vec<u8>,
    pub mime: String,
}

/// [`EmbeddedImage`] over mathematical values.
#[verifier::ext_equal]
pub struct ImageView {
    pub data: Seq<u8>,
    pub mime: Seq<char>,
}

impl View for EmbeddedImage {
    type V = ImageView;

    open spec fn view(&self) -> ImageView {
        ImageView { data: self.data@, mime: self.mime@ }
    }
}

/// The view of an optional picture.
pub open spec fn opt_image(i: Option<EmbeddedImage>) -> Option<ImageView> {
    match i {
        Some(x) => Some(x@),
        None => None,
    }
}

/// Whether bytes start with others.
pub open spec fn opens_with(data: Seq<u8>, magic: Seq<u8>) -> bool {
    magic.len() <= data.len() && data.take(magic.len() as int) == magic
}

/// The first bytes of a JPEG.
pub open spec fn jpeg_magic() -> Seq<u8> {
    seq![0xff, 0xd8, 0xff]
}

/// The first bytes of a PNG.
pub open spec fn png_magic() -> Seq<u8> {
    seq![0x89, 0x50, 0x4e, 0x47, 0x0d, 0x0a, 0x1a, 0x0a]
}

/// The first bytes of a GIF of 1987.
pub open spec fn gif87_magic() -> Seq<u8> {
    seq![0x47, 0x49, 0x46, 0x38, 0x37, 0x61]
}

/// The first bytes of a GIF of 1989.
pub open spec fn gif89_magic() -> Seq<u8> {
    seq![0x47, 0x49, 0x46, 0x38, 0x39, 0x61]
}

/// The first bytes of a RIFF container.
pub open spec fn riff_magic() -> Seq<u8> {
    seq![0x52, 0x49, 0x46, 0x46]
}

/// The bytes that mark a WebP in a RIFF container.
pub open spec fn webp_magic() -> Seq<u8> {
    seq![0x57, 0x45, 0x42, 0x50]
}

/// Whether bytes are those of a WebP.
pub open spec fn is_webp(data: Seq<u8>) -> bool {
    data.len() >= 12 && opens_with(data, riff_magic()) && data.subrange(8, 12) == webp_magic()
}

/// The type that the first bytes of a picture show.
pub open spec fn sniffed(data: Seq<u8>) -> Seq<char> {
    if opens_with(data, jpeg_magic()) {
        "image/jpeg"@
    } else if opens_with(data, png_magic()) {
        "image/png"@
    } else if opens_with(data, gif87_magic()) || opens_with(data, gif89_magic()) {
        "image/gif"@
    } else if is_webp(data) {
        "image/webp"@
    } else {
        "application/octet-stream"@
    }
}

/// Whether bytes stand at an index.
fn stands_in(data: &[u8], from: usize, magic: &Vec<u8>) -> (r: bool)
    requires
        from + magic@.len() <= data@.len(),
    ensures
        r == (data@.subrange(from as int, from + magic@.len()) == magic@),
{
    let total: usize = data.len();
    let mut i: usize = 0;
    while i < magic.len()
        invariant
            i <= magic.len(),
            total == data@.len(),
            from + magic@.len() <= total,
            forall|j: int| 0 <= j < i ==> data@[from + j] == #[trigger] magic@[j],
        decreases magic.len() - i,
    {
        if data[from + i] != magic[i] {
            proof {
                assert(data@.subrange(from as int, from + magic@.len())[i as int] != magic@[i as int]);
            }
            return false;
        }
        i += 1;
    }
    proof {
        assert(data@.subrange(from as int, from + magic@.len()) =~= magic@);
    }
    true
}

fn opens(data: &[u8], magic: &Vec<u8>) -> (r: bool)
    ensures
        r == opens_with(data@, magic@),
{
    if data.len() < magic.len() {
        return false;
    }
    proof {
        assert(data@.subrange(0, magic@.len() as int) =~= data@.take(magic@.len() as int));
    }
    stands_in(data, 0, magic)
}

/// The type that the first bytes of a picture show.
pub fn sniff_image_mime(data: &[u8]) -> (r: String)
    ensures
        r@ == sniffed(data@),
{
    let jpeg: Vec<u8> = vec![0xff, 0xd8, 0xff];
    let png: Vec<u8> = vec![0x89, 0x50, 0x4e, 0x47, 0x0d, 0x0a, 0x1a, 0x0a];
    let gif87: Vec<u8> = vec![0x47, 0x49, 0x46, 0x38, 0x37, 0x61];
    let gif89: Vec<u8> = vec![0x47, 0x49, 0x46, 0x38, 0x39, 0x61];
    let riff: Vec<u8> = vec![0x52, 0x49, 0x46, 0x46];
    let webp: Vec<u8> = vec![0x57, 0x45, 0x42, 0x50];
    proof {
        assert(jpeg@ =~= jpeg_magic());
        assert(png@ =~= png_magic());
        assert(gif87@ =~= gif87_magic());
        assert(gif89@ =~= gif89_magic());
        assert(riff@ =~= riff_magic());
        assert(webp@ =~= webp_magic());
    }
    if opens(data, &jpeg) {
        "image/jpeg".to_owned()
    } else if opens(data, &png) {
        "image/png".to_owned()
    } else if opens(data, &gif87) || opens(data, &gif89) {
        "image/gif".to_owned()
    } else if data.len() >= 12 && opens(data, &riff) && stands_in(data, 8, &webp) {
        "image/webp".to_owned()
    } else {
        "application/octet-stream".to_owned()
    }
}

/// Whether a type is one of pictures.
pub open spec fn is_image_type(mime: Seq<char>) -> bool {
    has_prefix(mime, "image/"@)
}

/// The type of a picture: that of the tag where it is one of pictures, else what the
/// first bytes show.
pub open spec fn picture_type(p: TagPicture) -> Seq<char> {
    match p.mime {
        Some(m) => if is_image_type(m@) {
            m@
        } else {
            sniffed(p.data@)
        },
        None => sniffed(p.data@),
    }
}

/// The picture in a tag's entry, where there is one.
pub open spec fn image_in(p: TagPicture) -> Option<ImageView> {
    if p.data@.len() == 0 || !is_image_type(picture_type(p)) {
        None
    } else {
        Some(ImageView { data: p.data@, mime: picture_type(p) })
    }
}

fn type_of(p: &TagPicture) -> (r: String)
    ensures
        r@ == picture_type(*p),
{
    if let Some(m) = &p.mime {
        if starts_with(m.as_str(), "image/") {
            return m.clone();
        }
    }
    sniff_image_mime(p.data.as_slice())
}

/// Takes the picture out of a tag's entry.
pub fn image_from_picture(p: &TagPicture) -> (r: Option<EmbeddedImage>)
    ensures
        opt_image(r) == image_in(*p),
{
    if p.data.len() == 0 {
        return None;
    }
    let mime = type_of(p);
    if !starts_with(mime.as_str(), "image/") {
        return None;
    }
    Some(EmbeddedImage { data: p.data.clone(), mime })
}

/// How eagerly a picture is taken for the cover.
#[derive(Debug, Clone, Copy, PartialEq, Eq, Structural)]
pub enum CoverRank {
    /// It shows the front.
    Front,
    /// It shows anything but the back.
    NotBack,
    /// It shows anything.
    Any,
}

/// Whether a kind of picture has a rank.
pub open spec fn has_rank(kind: PictureKind, rank: CoverRank) -> bool {
    match rank {
        CoverRank::Front => kind == PictureKind::CoverFront,
        CoverRank::NotBack => kind != PictureKind::CoverBack,
        CoverRank::Any => true,
    }
}

/// The first picture of a rank.
pub open spec fn first_image(pictures: Seq<TagPicture>, rank: CoverRank) -> Option<ImageView>
    decreases pictures.len(),
{
    if pictures.len() == 0 {
        None
    } else if has_rank(pictures[0].kind, rank) && image_in(pictures[0]) is Some {
        image_in(pictures[0])
    } else {
        first_image(pictures.drop_first(), rank)
    }
}

/// The cover in a tag: the first picture of the front, else the first that is not of the
/// back, else the first of all.
pub open spec fn picked(pictures: Seq<TagPicture>) -> Option<ImageView> {
    match first_image(pictures, CoverRank::Front) {
        Some(i) => Some(i),
        None => match first_image(pictures, CoverRank::NotBack) {
            Some(i) => Some(i),
            None => first_image(pictures, CoverRank::Any),
        },
    }
}

fn first_of_rank(pictures: &Vec<TagPicture>, rank: CoverRank) -> (r: Option<EmbeddedImage>)
    ensures
        opt_image(r) == first_image(pictures@, rank),
{
    let mut i: usize = 0;
    proof {
        assert(pictures@.skip(0) =~= pictures@);
    }
    while i < pictures.len()
        invariant
            i <= pictures.len(),
            first_image(pictures@, rank) == first_image(pictures@.skip(i as int), rank),
        decreases pictures.len() - i,
    {
        proof {
            assert(pictures@.skip(i as int).drop_first() =~= pictures@.skip(i as int + 1));
        }
        let eligible = match rank {
            CoverRank::Front => pictures[i].kind == PictureKind::CoverFront,
            CoverRank::NotBack => pictures[i].kind != PictureKind::CoverBack,
            CoverRank::Any => true,
        };
        if eligible {
            if let Some(image) = image_from_picture(&pictures[i]) {
                return Some(image);
            }
        }
        i += 1;
    }
    None
}

/// Picks the cover of a tag.
pub fn pick_picture(pictures: &Vec<TagPicture>) -> (r: Option<EmbeddedImage>)
    ensures
        opt_image(r) == picked(pictures@),
{
    if let Some(image) = first_of_rank(pictures, CoverRank::Front) {
        return Some(image);
    }
    if let Some(image) = first_of_rank(pictures, CoverRank::NotBack) {
        return Some(image);
    }
    first_of_rank(pictures, CoverRank::Any)
}

/// The pictures of a file: those of its primary tag, where it has one, and those of all
/// its tags.
#[derive(Debug, Clone)]
pub struct FilePictures {
    pub primary: Option<Vec<TagPicture>>,
    pub tags: Vec<Vec<TagPicture>>,
}

/// The first cover among tags.
pub open spec fn first_cover(tags: Seq<Vec<TagPicture>>) -> Option<ImageView>
    decreases tags.len(),
{
    if tags.len() == 0 {
        None
    } else if picked(tags[0]@) is Some {
        picked(tags[0]@)
    } else {
        first_cover(tags.drop_first())
    }
}

/// The cover in a file: that of its primary tag, else the first among all its tags. A
/// file that cannot be read has none.
pub open spec fn embedded_cover(file: Option<FilePictures>) -> Option<ImageView> {
    match file {
        Some(f) => if f.primary matches Some(p) && picked(p@) is Some {
            picked(f.primary->0@)
        } else {
            first_cover(f.tags@)
        },
        None => None,
    }
}

/// Picks the cover of a file.
pub fn read_embedded_cover(file: &Option<FilePictures>) -> (r: Option<EmbeddedImage>)
    ensures
        opt_image(r) == embedded_cover(*file),
{
    let f = match file {
        Some(f) => f,
        None => return None,
    };
    if let Some(p) = &f.primary {
        if let Some(image) = pick_picture(p) {
            return Some(image);
        }
    }
    let mut i: usize = 0;
    proof {
        assert(f.tags@.skip(0) =~= f.tags@);
    }
    while i < f.tags.len()
        invariant
            i <= f.tags.len(),
            *file == Some(*f),
            embedded_cover(*file) == first_cover(f.tags@.skip(i as int)),
        decreases f.tags.len() - i,
    {
        proof {
            assert(f.tags@.skip(i as int).drop_first() =~= f.tags@.skip(i as int + 1));
        }
        if let Some(image) = pick_picture(&f.tags[i]) {
            return Some(image);
        }
        i += 1;
    }
    None
}

/// The extension of files of a type.
pub open spec fn extension_of(mime: Seq<char>) -> Seq<char> {
    if mime == "image/png"@ {
        "png"@
    } else if mime == "image/webp"@ {
        "webp"@
    } else if mime == "image/gif"@ {
        "gif"@
    } else {
        "jpg"@
    }
}

/// The extension of files of a type.
pub fn extension_for_mime(mime: &str) -> (r: &'static str)
    ensures
        r@ == extension_of(mime@),
{
    if text_eq(mime, "image/png") {
        "png"
    } else if text_eq(mime, "image/webp") {
        "webp"
    } else if text_eq(mime, "image/gif") {
        "gif"
    } else {
        "jpg"
    }
}

/// The first 32 characters of a name.
pub open spec fn shortened(name: Seq<char>) -> Seq<char> {
    if name.len() > 32 {
        name.take(32)
    } else {
        name
    }
}

/// The name under which the cover of a track is kept, for a digest of its path.
pub open spec fn cache_basename(digest: u64, track: Seq<char>) -> Seq<char> {
    let name = match file_name(track) {
        Some(n) => n,
        None => "track"@,
    };
    hex_padded(digest as nat, 16) + "_"@ + shortened(name)
}

/// The name under which the cover of a track is kept, for a digest of its path.
pub fn cache_basename_with(digest: u64, track: &str) -> (r: String)
    ensures
        r@ == cache_basename(digest, track@),
{
    let name = match file_name_of(track) {
        Some(n) => n,
        None => "track",
    };
    let len: usize = name.unicode_len();
    let short = if len > 32 {
        name.substring_char(0, 32)
    } else {
        name
    };
    proof {
        assert(short@ =~= shortened(name@));
    }
    cat3(to_hex16(digest).as_str(), "_", short)
}

/// `std::hash::Hash::hash` of a `std::path::Path` into a hasher. What it feeds the hasher
/// is left to the machine, so nothing is known of the hasher behind it.
#[verifier::external_body]
fn hash_path(track: &str, hasher: &mut DefaultHasher) {
    std::path::Path::new(track).hash(hasher);
}

/// A digest of a path. Which one it is, is not said.
fn path_digest(track: &str) -> (r: u64) {
    let mut hasher = DefaultHasher::new();
    hash_path(track, &mut hasher);
    hasher.finish()
}

/// The name under which the cover of a track is kept: some digest of its path, and the
/// start of its file name.
pub fn cache_basename_for_track(track: &str) -> (r: String)
    ensures
        exists|digest: u64| r@ == #[trigger] cache_basename(digest, track@),
{
    let digest: u64 = path_digest(track);
    cache_basename_with(digest, track)
}

/// The path at which a cover of a type is kept under a name.
pub open spec fn cache_path(state_dir: Seq<char>, basename: Seq<char>, mime: Seq<char>) -> Seq<char> {
    joined(joined(state_dir, "artwork_cache"@), basename + "."@ + extension_of(mime))
}

/// The path at which a cover is kept, or why it is not kept.
pub fn cache_file(state_dir: &str, basename: &str, mime: &str) -> (r: Result<String, String>)
    ensures
        match r {
            Ok(p) => is_image_type(mime@) && p@ == cache_path(state_dir@, basename@, mime@),
            Err(e) => !is_image_type(mime@) && e@ == "embedded payload is not an image/* type"@,
        },
{
    if !starts_with(mime, "image/") {
        return Err("embedded payload is not an image/* type".to_owned());
    }
    let dir = join_path(state_dir, "artwork_cache");
    let name = cat3(basename, ".", extension_for_mime(mime));
    Ok(join_path(dir.as_str(), name.as_str()))
}

/// The path at which the cover of a track is kept: below the state directory, under a
/// name that [`cache_basename_for_track`] gives.
pub fn write_embedded_to_cache(state_dir: &str, track: &str, image: &EmbeddedImage) -> (r: Result<String, String>)
    ensures
        match r {
            Ok(p) => is_image_type(image@.mime) && exists|digest: u64|
                p@ == cache_path(state_dir@, #[trigger] cache_basename(digest, track@), image@.mime),
            Err(e) => !is_image_type(image@.mime) && e@ == "embedded payload is not an image/* type"@,
        },
{
    let basename = cache_basename_for_track(track);
    cache_file(state_dir, basename.as_str(), image.mime.as_str())
}

// What holds of every cover.

/// Every cover has bytes and a type of pictures.
pub proof fn covers_are_pictures(file: Option<FilePictures>)
    requires
        embedded_cover(file) is Some,
    ensures
        embedded_cover(file)->0.data.len() > 0,
        is_image_type(embedded_cover(file)->0.mime),
{
    let f = file->0;
    if f.primary is Some && picked(f.primary->0@) is Some {
        lemma_picked(f.primary->0@);
    } else {
        lemma_first_cover(f.tags@);
    }
}

proof fn lemma_first_cover(tags: Seq<Vec<TagPicture>>)
    ensures
        first_cover(tags) matches Some(i) ==> i.data.len() > 0 && is_image_type(i.mime),
    decreases tags.len(),
{
    if tags.len() > 0 {
        lemma_picked(tags[0]@);
        lemma_first_cover(tags.drop_first());
    }
}

proof fn lemma_picked(pictures: Seq<TagPicture>)
    ensures
        picked(pictures) matches Some(i) ==> i.data.len() > 0 && is_image_type(i.mime),
{
    lemma_first_image(pictures, CoverRank::Front);
    lemma_first_image(pictures, CoverRank::NotBack);
    lemma_first_image(pictures, CoverRank::Any);
}

proof fn lemma_first_image(pictures: Seq<TagPicture>, rank: CoverRank)
    ensures
        first_image(pictures, rank) matches Some(i) ==> i.data.len() > 0 && is_image_type(i.mime),
        first_image(pictures, rank) is None <==> (forall|i: int|
            0 <= i < pictures.len() && has_rank((#[trigger] pictures[i]).kind, rank) ==> image_in(pictures[i]) is None),
    decreases pictures.len(),
{
    if pictures.len() > 0 {
        let rest = pictures.drop_first();
        lemma_first_image(rest, rank);
        assert forall|i: int| 0 <= i < rest.len() implies #[trigger] rest[i] == pictures[i + 1] by {}
        if first_image(pictures, rank) is None {
            assert forall|i: int| 0 <= i < pictures.len() && has_rank((#[trigger] pictures[i]).kind, rank) implies image_in(
                pictures[i],
            ) is None by {
                if i > 0 {
                    assert(rest[i - 1] == pictures[i]);
                }
            }
        } else if first_image(rest, rank) is Some {
            let k = choose|k: int| 0 <= k < rest.len() && has_rank((#[trigger] rest[k]).kind, rank) && image_in(rest[k]) is Some;
            assert(pictures[k + 1] == rest[k]);
        } else {
            assert(has_rank(pictures[0].kind, rank) && image_in(pictures[0]) is Some);
        }
    }
}

/// A tag with a picture at all has a cover.
pub proof fn any_picture_gives_a_cover(pictures: Seq<TagPicture>, i: int)
    requires
        0 <= i < pictures.len(),
        image_in(pictures[i]) is Some,
    ensures
        picked(pictures) is Some,
{
    lemma_first_image(pictures, CoverRank::Any);
    assert(has_rank(pictures[i].kind, CoverRank::Any));
}

/// The type of a picture is told by its first bytes: those of JPEG, PNG, GIF and WebP.
pub proof fn first_bytes_tell_the_type(data: Seq<u8>)
    ensures
        data.len() >= 3 && data[0] == 0xff && data[1] == 0xd8 && data[2] == 0xff ==> sniffed(data) == "image/jpeg"@,
        data.len() >= 8 && data[0] == 0x89 && data[1] == 0x50 && data[2] == 0x4e && data[3] == 0x47 && data[4] == 0x0d
            && data[5] == 0x0a && data[6] == 0x1a && data[7] == 0x0a ==> sniffed(data) == "image/png"@,
        data.len() >= 6 && data[0] == 0x47 && data[1] == 0x49 && data[2] == 0x46 && data[3] == 0x38 && (data[4] == 0x37
            || data[4] == 0x39) && data[5] == 0x61 ==> sniffed(data) == "image/gif"@,
        data.len() >= 12 && data[0] == 0x52 && data[1] == 0x49 && data[2] == 0x46 && data[3] == 0x46 && data[8] == 0x57
            && data[9] == 0x45 && data[10] == 0x42 && data[11] == 0x50 ==> sniffed(data) == "image/webp"@,
        data.len() < 3 ==> sniffed(data) == "application/octet-stream"@,
        data.len() > 0 && data[0] != 0xff && data[0] != 0x89 && data[0] != 0x47 && data[0] != 0x52 ==> sniffed(data)
            == "application/octet-stream"@,
{
    if data.len() >= 3 {
        assert(data.take(3) =~= seq![data[0], data[1], data[2]]);
        assert(jpeg_magic() =~= seq![0xffu8, 0xd8, 0xff]);
        assert(data.take(3)[0] == data[0]);
        assert(jpeg_magic()[0] == 0xff);
    }
    if data.len() >= 8 {
        assert(data.take(8)[0] == data[0]);
        assert(png_magic()[0] == 0x89);
        if data[0] == 0x89 && data[1] == 0x50 && data[2] == 0x4e && data[3] == 0x47 && data[4] == 0x0d && data[5] == 0x0a
            && data[6] == 0x1a && data[7] == 0x0a {
            assert(data.take(8) =~= png_magic());
        }
    }
    if data.len() >= 6 {
        assert(data.take(6)[0] == data[0]);
        assert(gif87_magic()[0] == 0x47);
        assert(gif89_magic()[0] == 0x47);
        if data[0] == 0x47 && data[1] == 0x49 && data[2] == 0x46 && data[3] == 0x38 && data[5] == 0x61 {
            if data[4] == 0x37 {
                assert(data.take(6) =~= gif87_magic());
            }
            if data[4] == 0x39 {
                assert(data.take(6) =~= gif89_magic());
            }
        }
    }
    if data.len() >= 4 {
        assert(data.take(4)[0] == data[0]);
        assert(riff_magic()[0] == 0x52);
        if data.len() >= 12 && data[0] == 0x52 && data[1] == 0x49 && data[2] == 0x46 && data[3] == 0x46 && data[8] == 0x57
            && data[9] == 0x45 && data[10] == 0x42 && data[11] == 0x50 {
            assert(data.take(4) =~= riff_magic());
            assert(data.subrange(8, 12) =~= webp_magic());
        }
    }
}

/// A picture is kept byte for byte, with the type that its tag gives where that is one of
/// pictures, and else the type that its bytes show; an empty one, or one that is no
/// picture, is none.
pub proof fn pictures_are_kept_as_they_are(p: TagPicture)
    ensures
        image_in(p) matches Some(i) ==> i.data == p.data@ && i.data.len() > 0 && has_prefix(i.mime, "image/"@),
        p.data@.len() == 0 ==> image_in(p) is None,
        p.data@.len() > 0 ==> (p.mime matches Some(m) ==> has_prefix(m@, "image/"@) ==> (image_in(p) matches Some(i)
            && i.mime == m@)),
        p.data@.len() > 0 && (p.mime matches Some(m) ==> !has_prefix(m@, "image/"@)) ==> match image_in(p) {
            Some(i) => i.mime == sniffed(p.data@),
            None => !has_prefix(sniffed(p.data@), "image/"@),
        },
{
}

proof fn lemma_first_of(pictures: Seq<TagPicture>, rank: CoverRank) -> (k: int)
    requires
        first_image(pictures, rank) is Some,
    ensures
        0 <= k < pictures.len(),
        first_image(pictures, rank) == image_in(pictures[k]),
        has_rank(pictures[k].kind, rank),
        forall|j: int| 0 <= j < k ==> !(has_rank((#[trigger] pictures[j]).kind, rank) && image_in(pictures[j]) is Some),
    decreases pictures.len(),
{
    if has_rank(pictures[0].kind, rank) && image_in(pictures[0]) is Some {
        0
    } else {
        let rest = pictures.drop_first();
        let k = lemma_first_of(rest, rank);
        assert forall|j: int| 0 <= j < k + 1 implies !(has_rank((#[trigger] pictures[j]).kind, rank) && image_in(
            pictures[j],
        ) is Some) by {
            if j > 0 {
                assert(rest[j - 1] == pictures[j]);
            }
        }
        k + 1
    }
}

/// The cover of a tag is one of its pictures, and the best: where one of the front can be
/// shown, the first of those; else the first that is not of the back; and one of the back
/// only where nothing else can be shown. The result is its place.
pub proof fn front_covers_come_first(pictures: Seq<TagPicture>) -> (k: int)
    requires
        picked(pictures) is Some,
    ensures
        0 <= k < pictures.len(),
        picked(pictures) == image_in(pictures[k]),
        pictures[k].kind != PictureKind::CoverFront ==> forall|j: int|
            0 <= j < pictures.len() && (#[trigger] pictures[j]).kind == PictureKind::CoverFront ==> image_in(pictures[j])
                is None,
        pictures[k].kind == PictureKind::CoverFront ==> forall|j: int|
            0 <= j < k && (#[trigger] pictures[j]).kind == PictureKind::CoverFront ==> image_in(pictures[j]) is None,
        pictures[k].kind == PictureKind::CoverBack ==> forall|j: int|
            0 <= j < pictures.len() && (#[trigger] pictures[j]).kind != PictureKind::CoverBack ==> image_in(pictures[j])
                is None,
{
    lemma_first_image(pictures, CoverRank::Front);
    lemma_first_image(pictures, CoverRank::NotBack);
    let rank = if first_image(pictures, CoverRank::Front) is Some {
        CoverRank::Front
    } else if first_image(pictures, CoverRank::NotBack) is Some {
        CoverRank::NotBack
    } else {
        CoverRank::Any
    };
    let k = lemma_first_of(pictures, rank);
    assert(first_image(pictures, CoverRank::Front) is None ==> forall|j: int|
        0 <= j < pictures.len() && has_rank((#[trigger] pictures[j]).kind, CoverRank::Front) ==> image_in(pictures[j])
            is None);
    assert(first_image(pictures, CoverRank::NotBack) is None ==> forall|j: int|
        0 <= j < pictures.len() && has_rank((#[trigger] pictures[j]).kind, CoverRank::NotBack) ==> image_in(pictures[j])
            is None);
    k
}

/// The primary tag comes before the others, and the others in their order; a file that
/// cannot be read has no cover.
pub proof fn primary_tags_come_first(f: FilePictures)
    ensures
        embedded_cover(None) is None,
        f.primary matches Some(p) ==> picked(p@) is Some ==> embedded_cover(Some(f)) == picked(p@),
        (f.primary matches Some(p) ==> picked(p@) is None) && f.tags@.len() > 0 && picked(f.tags@[0]@) is Some
            ==> embedded_cover(Some(f)) == picked(f.tags@[0]@),
        (f.primary matches Some(p) ==> picked(p@) is None) && f.tags@.len() == 0 ==> embedded_cover(Some(f)) is None,
{
}

/// A cover is kept below the state directory, in the directory of covers, under its name
/// and the extension of its type; the name holds a digest of the track's path and at most
/// 32 characters of the track's name.
pub proof fn covers_are_kept_by_name(state_dir: Seq<char>, digest: u64, track: Seq<char>, mime: Seq<char>)
    ensures
        cache_path(state_dir, cache_basename(digest, track), mime) == joined(
            joined(state_dir, "artwork_cache"@),
            cache_basename(digest, track) + "."@ + (if mime == "image/png"@ {
                "png"@
            } else if mime == "image/webp"@ {
                "webp"@
            } else if mime == "image/gif"@ {
                "gif"@
            } else {
                "jpg"@
            }),
        ),
        file_name(track) matches Some(n) ==> n.len() <= 32 ==> cache_basename(digest, track) == hex_padded(
            digest as nat,
            16,
        ) + "_"@ + n,
        file_name(track) matches Some(n) ==> n.len() > 32 ==> cache_basename(digest, track) == hex_padded(
            digest as nat,
            16,
        ) + "_"@ + n.take(32),
{
}

/// Each field is seen under its own name, as it is.
pub proof fn fields_are_seen_under_their_names(embedded_image: EmbeddedImage)
    ensures
        embedded_image@.data == embedded_image.data@,
        embedded_image@.mime == embedded_image.mime@,
{
}

} // verus!
