//! The tags of a file, as plain values.

use crate::text::{opt_slice, push_text, texts};
use vstd::prelude::*;

verus! {

/// What an item of a tag is about.
#[derive(Debug, Clone, Copy, PartialEq, Eq, Structural)]
pub enum TagKey {
    TrackTitleSortOrder,
    AlbumTitleSortOrder,
    TrackArtistSortOrder,
    AlbumArtistSortOrder,
    ComposerSortOrder,
    OriginalAlbumTitle,
    OriginalArtist,
    OriginalLyricist,
    OriginalReleaseDate,
    RecordingDate,
    ReleaseDate,
    Isrc,
    CatalogNumber,
    Barcode,
    MusicBrainzRecordingId,
    MusicBrainzTrackId,
    MusicBrainzReleaseId,
    MusicBrainzReleaseGroupId,
    MusicBrainzArtistId,
    MusicBrainzReleaseArtistId,
    MusicBrainzWorkId,
    ReplayGainTrackGain,
    ReplayGainTrackPeak,
    ReplayGainAlbumGain,
    ReplayGainAlbumPeak,
    Composer,
    Conductor,
    Lyricist,
    Arranger,
    Writer,
    Producer,
    MixEngineer,
    Engineer,
    Label,
    Publisher,
    Remixer,
    Director,
    Performer,
    Work,
    Movement,
    MovementNumber,
    MovementTotal,
    ShowName,
    ContentGroup,
    TrackArtists,
    AlbumArtist,
    TrackSubtitle,
    Language,
    Script,
    Comment,
    Mood,
    InitialKey,
    Bpm,
    IntegerBpm,
    Lyrics,
    FlagCompilation,
    FlagPodcast,
    /// Something that no answer shows.
    Elsewhere,
}

/// The key of an item: one that is known, or the name of one that is not.
#[derive(Debug, Clone)]
pub enum ItemKey {
    Known(TagKey),
    Unknown(String),
}

/// The value of an item.
#[derive(Debug, Clone)]
pub enum ItemValue {
    Text(String),
    Locator(String),
    /// So many bytes.
    Binary(usize),
}

/// An item of a tag.
#[derive(Debug, Clone)]
pub struct TagItem {
    pub key: ItemKey,
    pub value: ItemValue,
}

/// A tag: its items, and what its format makes of the fields that every format has.
#[derive(Debug, Clone)]
pub struct TagReading {
    pub items: Vec<TagItem>,
    pub title: Option<String>,
    pub artist: Option<String>,
    pub album: Option<String>,
    pub genre: Option<String>,
    pub track: Option<u32>,
    pub track_total: Option<u32>,
    pub disk: Option<u32>,
    pub disk_total: Option<u32>,
    pub year: Option<u32>,
}

/// What was measured of a file. Where a bit rate is 0, it is not known.
#[derive(Debug, Clone, Copy, PartialEq, Eq, Structural)]
pub struct AudioProperties {
    pub duration_ms: u64,
    pub sample_rate: Option<u32>,
    pub bit_depth: Option<u8>,
    pub channels: Option<u8>,
    pub channel_mask_bits: Option<u32>,
    pub overall_bitrate: Option<u32>,
    pub audio_bitrate: Option<u32>,
}

/// What was read of a file: its tag, where it has one, and what was measured.
#[derive(Debug, Clone)]
pub struct FileReading {
    pub tag: Option<TagReading>,
    pub properties: AudioProperties,
}

/// Whether an item is about something.
pub open spec fn is_about(item: TagItem, key: TagKey) -> bool {
    match item.key {
        ItemKey::Known(k) => k == key,
        ItemKey::Unknown(_) => false,
    }
}

/// The text of an item.
pub open spec fn item_text(item: TagItem) -> Option<Seq<char>> {
    match item.value {
        ItemValue::Text(s) => Some(s@),
        _ => None,
    }
}

/// The text of the first item about something.
pub open spec fn first_text(items: Seq<TagItem>, key: TagKey) -> Option<Seq<char>>
    decreases items.len(),
{
    if items.len() == 0 {
        None
    } else if is_about(items[0], key) {
        item_text(items[0])
    } else {
        first_text(items.drop_first(), key)
    }
}

/// The texts of all items about something.
pub open spec fn all_texts(items: Seq<TagItem>, key: TagKey) -> Seq<Seq<char>>
    decreases items.len(),
{
    if items.len() == 0 {
        seq![]
    } else {
        let before = all_texts(items.drop_last(), key);
        if is_about(items.last(), key) {
            match item_text(items.last()) {
                Some(s) => before.push(s),
                None => before,
            }
        } else {
            before
        }
    }
}

fn about(item: &TagItem, key: TagKey) -> (r: bool)
    ensures
        r == is_about(*item, key),
{
    match &item.key {
        ItemKey::Known(k) => *k == key,
        ItemKey::Unknown(_) => false,
    }
}

/// The text of the first item about something.
pub fn get_string<'a>(items: &'a Vec<TagItem>, key: TagKey) -> (r: Option<&'a str>)
    ensures
        opt_slice(r) == first_text(items@, key),
{
    let mut i: usize = 0;
    proof {
        assert(items@.skip(0) =~= items@);
    }
    while i < items.len()
        invariant
            i <= items.len(),
            first_text(items@, key) == first_text(items@.skip(i as int), key),
        decreases items.len() - i,
    {
        proof {
            assert(items@.skip(i as int).drop_first() =~= items@.skip(i as int + 1));
        }
        if about(&items[i], key) {
            return match &items[i].value {
                ItemValue::Text(s) => Some(s.as_str()),
                _ => None,
            };
        }
        i += 1;
    }
    None
}

/// The texts of all items about something.
pub fn get_strings(items: &Vec<TagItem>, key: TagKey) -> (r: Vec<String>)
    ensures
        texts(r@) == all_texts(items@, key),
{
    let mut out: Vec<String> = Vec::new();
    let mut i: usize = 0;
    proof {
        assert(items@.take(0) =~= Seq::<TagItem>::empty());
        assert(texts(out@) =~= seq![]);
    }
    while i < items.len()
        invariant
            i <= items.len(),
            texts(out@) == all_texts(items@.take(i as int), key),
        decreases items.len() - i,
    {
        proof {
            let t = items@.take(i as int + 1);
            assert(t.drop_last() =~= items@.take(i as int));
            assert(t.last() == items@[i as int]);
        }
        if about(&items[i], key) {
            if let ItemValue::Text(s) = &items[i].value {
                push_text(&mut out, s.as_str());
            }
        }
        i += 1;
    }
    proof {
        assert(items@.take(i as int) =~= items@);
    }
    out
}

/// The text of a field is that of the first item about it, and none where that one is no
/// text; all its texts are those of every item about it, in their order.
pub proof fn fields_are_read_in_order(items: Seq<TagItem>, item: TagItem, key: TagKey, s: String)
    ensures
        item.key == ItemKey::Known(key) && item.value == ItemValue::Text(s) ==> {
            &&& first_text(seq![item] + items, key) == Some(s@)
            &&& all_texts(items.push(item), key) == all_texts(items, key).push(s@)
        },
        item.key == ItemKey::Known(key) && !(item.value is Text) ==> {
            &&& first_text(seq![item] + items, key) is None
            &&& all_texts(items.push(item), key) == all_texts(items, key)
        },
        item.key != ItemKey::Known(key) ==> {
            &&& first_text(seq![item] + items, key) == first_text(items, key)
            &&& all_texts(items.push(item), key) == all_texts(items, key)
        },
        first_text(Seq::<TagItem>::empty(), key) is None,
        all_texts(Seq::<TagItem>::empty(), key).len() == 0,
{
    assert((seq![item] + items).drop_first() =~= items);
    assert(items.push(item).drop_last() =~= items);
}

} // verus!
