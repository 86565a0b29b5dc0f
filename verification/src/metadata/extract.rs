//! What an answer shows of a file's tags.

use crate::metadata::config::MetadataProfile;
use crate::metadata::response::{
    bare_response, opt_texts, opt_view, ClassicalMetadata, ClassicalView, CreditsMetadata, CreditsView, DatesMetadata,
    DatesView, FileMetadata, IdentifiersMetadata, IdentifiersView, MetadataQueryResponse, OriginalMetadata,
    OriginalView, ReplayGainMetadata, ReplayGainView, ResponseStatus, ResponseView, SortMetadata, SortView,
};
use crate::metadata::tags::{
    all_texts, first_text, get_string, get_strings, is_about, item_text, AudioProperties, ItemKey, ItemValue, TagItem, TagKey, TagReading,
};
use crate::number::{decimal, decimal_reads_back, number_in, parse_u32, to_decimal};
use crate::text::{cat3, chars_of, list_texts, listed, opt_text, push_text, text_eq, texts, trim, trimmed};
use crate::text_map::TextMap;
use vstd::prelude::*;
use vstd::string::*;

verus! {

broadcast use vstd::string::group_string_axioms;

/// The most bytes of a text that an answer shows.
pub const MAX_TEXT_FIELD_BYTES: usize = 512_000;

/// The most bytes of a tempo that an answer shows.
pub const MAX_BPM_BYTES: usize = 64;

/// The bytes of a character in UTF-8.
pub open spec fn char_width(c: char) -> nat {
    let u = c as u32;
    if u < 0x80 {
        1
    } else if u < 0x800 {
        2
    } else if u < 0x1_0000 {
        3
    } else {
        4
    }
}

/// The characters of a text that start before a number of bytes, where so many are
/// behind already.
pub open spec fn starting_before(s: Seq<char>, offset: nat, cap: nat) -> Seq<char>
    decreases s.len(),
{
    if s.len() == 0 || offset >= cap {
        seq![]
    } else {
        seq![s[0]] + starting_before(s.drop_first(), offset + char_width(s[0]), cap)
    }
}

/// A text cut to the characters that start before a number of bytes.
pub open spec fn capped(s: Seq<char>, cap: nat) -> Seq<char> {
    starting_before(s, 0, cap)
}

fn width(c: char) -> (r: usize)
    ensures
        r == char_width(c),
{
    let u: u32 = c as u32;
    if u < 0x80 {
        1
    } else if u < 0x800 {
        2
    } else if u < 0x1_0000 {
        3
    } else {
        4
    }
}

/// Cuts a text.
pub fn cap_text<'a>(s: &'a str, cap: usize) -> (r: &'a str)
    requires
        cap <= MAX_TEXT_FIELD_BYTES,
    ensures
        r@ == capped(s@, cap as nat),
{
    let cs = chars_of(s);
    let n: usize = cs.len();
    let mut k: usize = 0;
    let mut offset: usize = 0;
    proof {
        assert(s@.skip(0) =~= s@);
        assert(s@.take(0) + capped(s@, cap as nat) =~= capped(s@, cap as nat));
    }
    while k < n && offset < cap
        invariant
            k <= n,
            n == cs@.len(),
            cs@ == s@,
            cap <= MAX_TEXT_FIELD_BYTES,
            offset <= cap + 4,
            capped(s@, cap as nat) == s@.take(k as int) + starting_before(
                s@.skip(k as int),
                offset as nat,
                cap as nat,
            ),
        decreases n - k,
    {
        let w: usize = width(cs[k]);
        proof {
            let rest = s@.skip(k as int);
            assert(rest.drop_first() =~= s@.skip(k as int + 1));
            let tail = starting_before(rest.drop_first(), offset as nat + char_width(rest[0]), cap as nat);
            assert(s@.take(k as int) + (seq![rest[0]] + tail) =~= s@.take(k as int + 1) + tail);
        }
        offset += w;
        k += 1;
    }
    proof {
        assert(starting_before(s@.skip(k as int), offset as nat, cap as nat) =~= seq![]);
        assert(s@.subrange(0, k as int) =~= capped(s@, cap as nat));
    }
    s.substring_char(0, k)
}

/// The first text about something, without the white space at its ends and cut to a
/// number of bytes; none where it is blank.
pub open spec fn tag_text(items: Seq<TagItem>, key: TagKey, cap: nat) -> Option<Seq<char>> {
    match first_text(items, key) {
        Some(s) => if trimmed(s).len() == 0 {
            None
        } else {
            Some(capped(trimmed(s), cap))
        },
        None => None,
    }
}

/// The first text about something, as an answer shows it.
pub open spec fn shown_text(items: Seq<TagItem>, key: TagKey) -> Option<Seq<char>> {
    tag_text(items, key, MAX_TEXT_FIELD_BYTES as nat)
}

/// Reads a text out of a tag.
pub fn tag_s(items: &Vec<TagItem>, key: TagKey, cap: usize) -> (r: Option<String>)
    requires
        cap <= MAX_TEXT_FIELD_BYTES,
    ensures
        opt_text(r) == tag_text(items@, key, cap as nat),
{
    match get_string(items, key) {
        Some(s) => {
            let t = trim(s);
            if t.is_empty() {
                None
            } else {
                Some(cap_text(t, cap).to_owned())
            }
        },
        None => None,
    }
}

/// Reads a text that an answer shows out of a tag.
pub fn opt_s(items: &Vec<TagItem>, key: TagKey) -> (r: Option<String>)
    ensures
        opt_text(r) == shown_text(items@, key),
{
    tag_s(items, key, MAX_TEXT_FIELD_BYTES)
}

/// The comments, each on a line of its own.
pub open spec fn comment_lines(items: Seq<TagItem>) -> Option<Seq<char>> {
    let all = all_texts(items, TagKey::Comment);
    if all.len() == 0 {
        None
    } else {
        Some(listed(all, "\n"@))
    }
}

/// Reads the comments: the first one, and where there are several, each of the others on
/// a line of its own after it.
pub fn first_comment_line(items: &Vec<TagItem>) -> (r: Option<String>)
    ensures
        opt_text(r) == comment_lines(items@),
{
    let all = get_strings(items, TagKey::Comment);
    if all.len() == 0 {
        None
    } else {
        Some(list_texts(&all, "\n"))
    }
}

/// The tempo: as it is, or else as a whole number.
pub open spec fn bpm_of(items: Seq<TagItem>) -> Option<Seq<char>> {
    match tag_text(items, TagKey::Bpm, MAX_BPM_BYTES as nat) {
        Some(s) => Some(s),
        None => tag_text(items, TagKey::IntegerBpm, MAX_BPM_BYTES as nat),
    }
}

/// Reads the tempo.
pub fn bpm_string(items: &Vec<TagItem>) -> (r: Option<String>)
    ensures
        opt_text(r) == bpm_of(items@),
{
    match tag_s(items, TagKey::Bpm, MAX_BPM_BYTES) {
        Some(s) => Some(s),
        None => tag_s(items, TagKey::IntegerBpm, MAX_BPM_BYTES),
    }
}

/// The number about something.
pub open spec fn tag_number(items: Seq<TagItem>, key: TagKey) -> Option<u32> {
    match first_text(items, key) {
        Some(s) => number_in(s),
        None => None,
    }
}

/// Reads a number out of a tag.
pub fn parse_u32_tag(items: &Vec<TagItem>, key: TagKey) -> (r: Option<u32>)
    ensures
        r == tag_number(items@, key),
{
    match get_string(items, key) {
        Some(s) => parse_u32(s),
        None => None,
    }
}

/// What a flag says.
pub open spec fn flag_in(s: Seq<char>) -> Option<bool> {
    let t = trimmed(s);
    if t == "1"@ || t == "true"@ || t == "True"@ || t == "yes"@ || t == "Yes"@ {
        Some(true)
    } else if t == "0"@ || t == "false"@ || t == "False"@ || t == "no"@ || t == "No"@ {
        Some(false)
    } else {
        None
    }
}

/// What the flag about something says.
pub open spec fn tag_flag(items: Seq<TagItem>, key: TagKey) -> Option<bool> {
    match first_text(items, key) {
        Some(s) => flag_in(s),
        None => None,
    }
}

fn parse_flag(items: &Vec<TagItem>, key: TagKey) -> (r: Option<bool>)
    ensures
        r == tag_flag(items@, key),
{
    match get_string(items, key) {
        Some(s) => {
            let t = trim(s);
            if text_eq(t, "1") || text_eq(t, "true") || text_eq(t, "True") || text_eq(t, "yes") || text_eq(t, "Yes") {
                Some(true)
            } else if text_eq(t, "0") || text_eq(t, "false") || text_eq(t, "False") || text_eq(t, "no") || text_eq(
                t,
                "No",
            ) {
                Some(false)
            } else {
                None
            }
        },
        None => None,
    }
}

/// Whether a track is on a compilation, where its tags say.
pub fn parse_compilation_bool(items: &Vec<TagItem>) -> (r: Option<bool>)
    ensures
        r == tag_flag(items@, TagKey::FlagCompilation),
{
    parse_flag(items, TagKey::FlagCompilation)
}

/// Whether a track is a podcast, where its tags say.
pub fn parse_podcast_bool(items: &Vec<TagItem>) -> (r: Option<bool>)
    ensures
        r == tag_flag(items@, TagKey::FlagPodcast),
{
    parse_flag(items, TagKey::FlagPodcast)
}

/// Texts without the white space at their ends; blank ones are left out.
pub open spec fn tidied(s: Seq<Seq<char>>) -> Seq<Seq<char>>
    decreases s.len(),
{
    if s.len() == 0 {
        seq![]
    } else if trimmed(s.last()).len() == 0 {
        tidied(s.drop_last())
    } else {
        tidied(s.drop_last()).push(trimmed(s.last()))
    }
}

/// All texts about something, where there are any.
pub open spec fn tag_list(items: Seq<TagItem>, key: TagKey) -> Option<Seq<Seq<char>>> {
    let all = tidied(all_texts(items, key));
    if all.len() == 0 {
        None
    } else {
        Some(all)
    }
}

/// Reads all texts about something.
pub fn tag_string_list(items: &Vec<TagItem>, key: TagKey) -> (r: Option<Vec<String>>)
    ensures
        opt_texts(r) == tag_list(items@, key),
{
    let all = get_strings(items, key);
    let ghost views = texts(all@);
    let mut out: Vec<String> = Vec::new();
    let mut i: usize = 0;
    proof {
        assert(views.take(0) =~= Seq::<Seq<char>>::empty());
        assert(texts(out@) =~= seq![]);
    }
    while i < all.len()
        invariant
            i <= all.len(),
            views == texts(all@),
            texts(out@) == tidied(views.take(i as int)),
        decreases all.len() - i,
    {
        proof {
            let t = views.take(i as int + 1);
            assert(t.drop_last() =~= views.take(i as int));
            assert(t.last() == all@[i as int]@);
        }
        let t = trim(all[i].as_str());
        if !t.is_empty() {
            push_text(&mut out, t);
        }
        i += 1;
    }
    proof {
        assert(views.take(i as int) =~= views);
        assert(texts(out@).len() == out@.len());
    }
    if out.len() == 0 {
        None
    } else {
        Some(out)
    }
}

/// The keys by which tracks are sorted, where the tags say anything of it.
pub open spec fn sort_in(items: Seq<TagItem>) -> Option<SortView> {
    let view = SortView {
        track_title: shown_text(items, TagKey::TrackTitleSortOrder),
        album: shown_text(items, TagKey::AlbumTitleSortOrder),
        track_artist: shown_text(items, TagKey::TrackArtistSortOrder),
        album_artist: shown_text(items, TagKey::AlbumArtistSortOrder),
        composer: shown_text(items, TagKey::ComposerSortOrder),
    };
    if view.is_empty() {
        None
    } else {
        Some(view)
    }
}

/// Reads the keys by which tracks are sorted.
pub fn sort_block(items: &Vec<TagItem>) -> (r: Option<SortMetadata>)
    ensures
        opt_view(r) == sort_in(items@),
{
    let block = SortMetadata {
        track_title: opt_s(items, TagKey::TrackTitleSortOrder),
        album: opt_s(items, TagKey::AlbumTitleSortOrder),
        track_artist: opt_s(items, TagKey::TrackArtistSortOrder),
        album_artist: opt_s(items, TagKey::AlbumArtistSortOrder),
        composer: opt_s(items, TagKey::ComposerSortOrder),
    };
    block.unless_empty()
}

/// What the track was first released as, where the tags say anything of it.
pub open spec fn original_in(items: Seq<TagItem>) -> Option<OriginalView> {
    let view = OriginalView {
        album: shown_text(items, TagKey::OriginalAlbumTitle),
        artist: shown_text(items, TagKey::OriginalArtist),
        lyricist: shown_text(items, TagKey::OriginalLyricist),
        release_date: shown_text(items, TagKey::OriginalReleaseDate),
    };
    if view.is_empty() {
        None
    } else {
        Some(view)
    }
}

/// Reads what the track was first released as.
pub fn original_block(items: &Vec<TagItem>) -> (r: Option<OriginalMetadata>)
    ensures
        opt_view(r) == original_in(items@),
{
    let block = OriginalMetadata {
        album: opt_s(items, TagKey::OriginalAlbumTitle),
        artist: opt_s(items, TagKey::OriginalArtist),
        lyricist: opt_s(items, TagKey::OriginalLyricist),
        release_date: opt_s(items, TagKey::OriginalReleaseDate),
    };
    block.unless_empty()
}

/// The dates of a track, as they are written, where the tags say anything of it.
pub open spec fn dates_in(items: Seq<TagItem>) -> Option<DatesView> {
    let view = DatesView {
        recording: shown_text(items, TagKey::RecordingDate),
        release: shown_text(items, TagKey::ReleaseDate),
        original_release: shown_text(items, TagKey::OriginalReleaseDate),
    };
    if view.is_empty() {
        None
    } else {
        Some(view)
    }
}

/// Reads the dates of a track, as they are written.
pub fn dates_block(items: &Vec<TagItem>) -> (r: Option<DatesMetadata>)
    ensures
        opt_view(r) == dates_in(items@),
{
    let block = DatesMetadata {
        recording: opt_s(items, TagKey::RecordingDate),
        release: opt_s(items, TagKey::ReleaseDate),
        original_release: opt_s(items, TagKey::OriginalReleaseDate),
    };
    block.unless_empty()
}

/// Under which numbers a track is known, where the tags say anything of it.
pub open spec fn identifiers_in(items: Seq<TagItem>) -> Option<IdentifiersView> {
    let view = IdentifiersView {
        isrc: shown_text(items, TagKey::Isrc),
        catalog_number: shown_text(items, TagKey::CatalogNumber),
        barcode: shown_text(items, TagKey::Barcode),
        musicbrainz_recording_id: shown_text(items, TagKey::MusicBrainzRecordingId),
        musicbrainz_track_id: shown_text(items, TagKey::MusicBrainzTrackId),
        musicbrainz_release_id: shown_text(items, TagKey::MusicBrainzReleaseId),
        musicbrainz_release_group_id: shown_text(items, TagKey::MusicBrainzReleaseGroupId),
        musicbrainz_artist_id: shown_text(items, TagKey::MusicBrainzArtistId),
        musicbrainz_release_artist_id: shown_text(items, TagKey::MusicBrainzReleaseArtistId),
        musicbrainz_work_id: shown_text(items, TagKey::MusicBrainzWorkId),
    };
    if view.is_empty() {
        None
    } else {
        Some(view)
    }
}

/// Reads under which numbers a track is known.
pub fn identifiers_block(items: &Vec<TagItem>) -> (r: Option<IdentifiersMetadata>)
    ensures
        opt_view(r) == identifiers_in(items@),
{
    let block = IdentifiersMetadata {
        isrc: opt_s(items, TagKey::Isrc),
        catalog_number: opt_s(items, TagKey::CatalogNumber),
        barcode: opt_s(items, TagKey::Barcode),
        musicbrainz_recording_id: opt_s(items, TagKey::MusicBrainzRecordingId),
        musicbrainz_track_id: opt_s(items, TagKey::MusicBrainzTrackId),
        musicbrainz_release_id: opt_s(items, TagKey::MusicBrainzReleaseId),
        musicbrainz_release_group_id: opt_s(items, TagKey::MusicBrainzReleaseGroupId),
        musicbrainz_artist_id: opt_s(items, TagKey::MusicBrainzArtistId),
        musicbrainz_release_artist_id: opt_s(items, TagKey::MusicBrainzReleaseArtistId),
        musicbrainz_work_id: opt_s(items, TagKey::MusicBrainzWorkId),
    };
    block.unless_empty()
}

/// The loudness of a track, as it is written, where the tags say anything of it.
pub open spec fn replay_gain_in(items: Seq<TagItem>) -> Option<ReplayGainView> {
    let view = ReplayGainView {
        track_gain: shown_text(items, TagKey::ReplayGainTrackGain),
        track_peak: shown_text(items, TagKey::ReplayGainTrackPeak),
        album_gain: shown_text(items, TagKey::ReplayGainAlbumGain),
        album_peak: shown_text(items, TagKey::ReplayGainAlbumPeak),
    };
    if view.is_empty() {
        None
    } else {
        Some(view)
    }
}

/// Reads the loudness of a track, as it is written.
pub fn replay_gain_block(items: &Vec<TagItem>) -> (r: Option<ReplayGainMetadata>)
    ensures
        opt_view(r) == replay_gain_in(items@),
{
    let block = ReplayGainMetadata {
        track_gain: opt_s(items, TagKey::ReplayGainTrackGain),
        track_peak: opt_s(items, TagKey::ReplayGainTrackPeak),
        album_gain: opt_s(items, TagKey::ReplayGainAlbumGain),
        album_peak: opt_s(items, TagKey::ReplayGainAlbumPeak),
    };
    block.unless_empty()
}

/// The first performer.
pub open spec fn performer_in(items: Seq<TagItem>) -> Option<Seq<char>> {
    match tag_list(items, TagKey::Performer) {
        Some(all) => Some(all[0]),
        None => shown_text(items, TagKey::Performer),
    }
}

/// Who had a part in a track, where the tags say anything of it.
pub open spec fn credits_in(items: Seq<TagItem>) -> Option<CreditsView> {
    let view = CreditsView {
        composer: shown_text(items, TagKey::Composer),
        conductor: shown_text(items, TagKey::Conductor),
        lyricist: shown_text(items, TagKey::Lyricist),
        arranger: shown_text(items, TagKey::Arranger),
        writer: shown_text(items, TagKey::Writer),
        performer: performer_in(items),
        performers: tag_list(items, TagKey::Performer),
        producer: shown_text(items, TagKey::Producer),
        mix_engineer: shown_text(items, TagKey::MixEngineer),
        engineer: shown_text(items, TagKey::Engineer),
        label: shown_text(items, TagKey::Label),
        publisher: shown_text(items, TagKey::Publisher),
        remixer: shown_text(items, TagKey::Remixer),
        director: shown_text(items, TagKey::Director),
    };
    if view.is_empty() {
        None
    } else {
        Some(view)
    }
}

/// Reads who had a part in a track.
pub fn credits_block(items: &Vec<TagItem>) -> (r: Option<CreditsMetadata>)
    ensures
        opt_view(r) == credits_in(items@),
{
    let performers = tag_string_list(items, TagKey::Performer);
    let performer = match &performers {
        Some(all) => {
            if all.len() > 0 {
                proof {
                    assert(texts(all@)[0] == all@[0]@);
                }
                Some(all[0].clone())
            } else {
                opt_s(items, TagKey::Performer)
            }
        },
        None => opt_s(items, TagKey::Performer),
    };
    let block = CreditsMetadata {
        composer: opt_s(items, TagKey::Composer),
        conductor: opt_s(items, TagKey::Conductor),
        lyricist: opt_s(items, TagKey::Lyricist),
        arranger: opt_s(items, TagKey::Arranger),
        writer: opt_s(items, TagKey::Writer),
        performer,
        performers,
        producer: opt_s(items, TagKey::Producer),
        mix_engineer: opt_s(items, TagKey::MixEngineer),
        engineer: opt_s(items, TagKey::Engineer),
        label: opt_s(items, TagKey::Label),
        publisher: opt_s(items, TagKey::Publisher),
        remixer: opt_s(items, TagKey::Remixer),
        director: opt_s(items, TagKey::Director),
    };
    block.unless_empty()
}

/// The work that a track is part of, where the tags say anything of it.
pub open spec fn classical_in(items: Seq<TagItem>) -> Option<ClassicalView> {
    let view = ClassicalView {
        work: shown_text(items, TagKey::Work),
        movement: shown_text(items, TagKey::Movement),
        movement_number: tag_number(items, TagKey::MovementNumber),
        movement_total: tag_number(items, TagKey::MovementTotal),
        show_name: shown_text(items, TagKey::ShowName),
        content_group: shown_text(items, TagKey::ContentGroup),
    };
    if view.is_empty() {
        None
    } else {
        Some(view)
    }
}

/// Reads the work that a track is part of.
pub fn classical_block(items: &Vec<TagItem>) -> (r: Option<ClassicalMetadata>)
    ensures
        opt_view(r) == classical_in(items@),
{
    let block = ClassicalMetadata {
        work: opt_s(items, TagKey::Work),
        movement: opt_s(items, TagKey::Movement),
        movement_number: parse_u32_tag(items, TagKey::MovementNumber),
        movement_total: parse_u32_tag(items, TagKey::MovementTotal),
        show_name: opt_s(items, TagKey::ShowName),
        content_group: opt_s(items, TagKey::ContentGroup),
    };
    block.unless_empty()
}

/// A number that is not 0.
pub open spec fn above_zero(n: Option<u32>) -> Option<u32> {
    match n {
        Some(v) => if v > 0 {
            n
        } else {
            None
        },
        None => None,
    }
}

fn unless_zero(n: Option<u32>) -> (r: Option<u32>)
    ensures
        r == above_zero(n),
{
    match n {
        Some(v) => {
            if v > 0 {
                Some(v)
            } else {
                None
            }
        },
        None => None,
    }
}

/// A duration that is not 0.
pub open spec fn duration_in(p: AudioProperties) -> Option<u64> {
    if p.duration_ms > 0 {
        Some(p.duration_ms)
    } else {
        None
    }
}

fn duration_of(p: &AudioProperties) -> (r: Option<u64>)
    ensures
        r == duration_in(*p),
{
    if p.duration_ms > 0 {
        Some(p.duration_ms)
    } else {
        None
    }
}

/// What was measured of a file, as an answer shows it.
pub open spec fn file_in(p: AudioProperties) -> FileMetadata {
    FileMetadata {
        duration_ms: duration_in(p),
        sample_rate_hz: p.sample_rate,
        bit_depth: p.bit_depth,
        channels: p.channels,
        channel_mask_bits: p.channel_mask_bits,
        overall_bitrate_kbps: above_zero(p.overall_bitrate),
        audio_bitrate_kbps: above_zero(p.audio_bitrate),
    }
}

/// Shows what was measured of a file.
pub fn file_block_from_props(p: &AudioProperties) -> (r: FileMetadata)
    ensures
        r == file_in(*p),
{
    FileMetadata {
        duration_ms: duration_of(p),
        sample_rate_hz: p.sample_rate,
        bit_depth: p.bit_depth,
        channels: p.channels,
        channel_mask_bits: p.channel_mask_bits,
        overall_bitrate_kbps: unless_zero(p.overall_bitrate),
        audio_bitrate_kbps: unless_zero(p.audio_bitrate),
    }
}

/// What an item that no other field takes says: its text, or how long it is.
pub open spec fn extra_value(item: TagItem) -> Option<Seq<char>> {
    match item.key {
        ItemKey::Known(_) => None,
        ItemKey::Unknown(name) => if name@.len() == 0 {
            None
        } else {
            match item.value {
                ItemValue::Text(s) => if trimmed(s@).len() == 0 {
                    None
                } else {
                    Some(capped(trimmed(s@), MAX_TEXT_FIELD_BYTES as nat))
                },
                ItemValue::Locator(s) => if trimmed(s@).len() == 0 {
                    None
                } else {
                    Some(capped(trimmed(s@), MAX_TEXT_FIELD_BYTES as nat))
                },
                ItemValue::Binary(n) => if n == 0 {
                    None
                } else {
                    Some("<binary: "@ + decimal(n as nat) + " bytes>"@)
                },
            }
        },
    }
}

/// The name of an item that no other field takes.
pub open spec fn extra_name(item: TagItem) -> Seq<char> {
    match item.key {
        ItemKey::Known(_) => seq![],
        ItemKey::Unknown(name) => name@,
    }
}

/// How many of the items say something under a name.
pub open spec fn times_said(items: Seq<TagItem>, name: Seq<char>) -> nat
    decreases items.len(),
{
    if items.len() == 0 {
        0
    } else {
        let before = times_said(items.drop_last(), name);
        if extra_value(items.last()) is Some && extra_name(items.last()) == name {
            before + 1
        } else {
            before
        }
    }
}

/// The key of what is said under a name: the name, and behind the first time a number.
pub open spec fn extra_key(name: Seq<char>, times: nat) -> Seq<char> {
    if times == 0 {
        name
    } else {
        name + "@"@ + decimal(times)
    }
}

/// What the items say that no other field takes, each under its key.
pub open spec fn extras_map(items: Seq<TagItem>) -> Map<Seq<char>, Seq<char>>
    decreases items.len(),
{
    if items.len() == 0 {
        Map::empty()
    } else {
        let before = extras_map(items.drop_last());
        match extra_value(items.last()) {
            Some(v) => before.insert(
                extra_key(extra_name(items.last()), times_said(items.drop_last(), extra_name(items.last()))),
                v,
            ),
            None => before,
        }
    }
}

/// Whether the items say something that no other field takes.
pub open spec fn says_more(items: Seq<TagItem>) -> bool {
    exists|i: int| 0 <= i < items.len() && extra_value(#[trigger] items[i]) is Some
}

/// What the items say that no other field takes, where they say anything.
pub open spec fn extras_in(items: Seq<TagItem>) -> Option<Map<Seq<char>, Seq<char>>> {
    if says_more(items) {
        Some(extras_map(items))
    } else {
        None
    }
}

fn extra_of(item: &TagItem) -> (r: Option<String>)
    ensures
        opt_text(r) == extra_value(*item),
{
    match &item.key {
        ItemKey::Known(_) => None,
        ItemKey::Unknown(name) => {
            if name.as_str().is_empty() {
                return None;
            }
            match &item.value {
                ItemValue::Text(s) => {
                    let t = trim(s.as_str());
                    if t.is_empty() {
                        None
                    } else {
                        Some(cap_text(t, MAX_TEXT_FIELD_BYTES).to_owned())
                    }
                },
                ItemValue::Locator(s) => {
                    let t = trim(s.as_str());
                    if t.is_empty() {
                        None
                    } else {
                        Some(cap_text(t, MAX_TEXT_FIELD_BYTES).to_owned())
                    }
                },
                ItemValue::Binary(n) => {
                    if *n == 0 {
                        None
                    } else {
                        Some(cat3("<binary: ", to_decimal(*n as u64).as_str(), " bytes>"))
                    }
                },
            }
        },
    }
}

fn count_said(items: &Vec<TagItem>, upto: usize, name: &str) -> (r: usize)
    requires
        upto <= items@.len(),
    ensures
        r == times_said(items@.take(upto as int), name@),
{
    let mut n: usize = 0;
    let mut i: usize = 0;
    proof {
        assert(items@.take(0) =~= Seq::<TagItem>::empty());
    }
    while i < upto
        invariant
            i <= upto <= items@.len(),
            n <= i,
            n == times_said(items@.take(i as int), name@),
        decreases upto - i,
    {
        proof {
            let t = items@.take(i as int + 1);
            assert(t.drop_last() =~= items@.take(i as int));
            assert(t.last() == items@[i as int]);
        }
        if let ItemKey::Unknown(other) = &items[i].key {
            if text_eq(other.as_str(), name) && extra_of(&items[i]).is_some() {
                n += 1;
            }
        }
        i += 1;
    }
    n
}

/// Reads what no other field takes.
pub fn collect_extras(items: &Vec<TagItem>) -> (r: Option<TextMap>)
    ensures
        opt_view(r) == extras_in(items@),
{
    let mut out = TextMap::new();
    let mut any = false;
    let mut i: usize = 0;
    proof {
        assert(items@.take(0) =~= Seq::<TagItem>::empty());
    }
    while i < items.len()
        invariant
            i <= items.len(),
            out.wf(),
            out@ == extras_map(items@.take(i as int)),
            any == (exists|j: int| 0 <= j < i && extra_value(#[trigger] items@[j]) is Some),
        decreases items.len() - i,
    {
        proof {
            let t = items@.take(i as int + 1);
            assert(t.drop_last() =~= items@.take(i as int));
            assert(t.last() == items@[i as int]);
        }
        if let ItemKey::Unknown(name) = &items[i].key {
            if let Some(value) = extra_of(&items[i]) {
                let times: usize = count_said(items, i, name.as_str());
                let key = if times == 0 {
                    name.clone()
                } else {
                    cat3(name.as_str(), "@", to_decimal(times as u64).as_str())
                };
                out.insert(key, value);
                any = true;
            }
        }
        i += 1;
    }
    proof {
        assert(items@.take(i as int) =~= items@);
    }
    if any {
        Some(out)
    } else {
        None
    }
}

/// A text of the tag without the white space at its ends; none where it is blank.
pub open spec fn tidy(s: Option<String>) -> Option<Seq<char>> {
    match s {
        Some(t) => if trimmed(t@).len() == 0 {
            None
        } else {
            Some(trimmed(t@))
        },
        None => None,
    }
}

/// Tidies a text.
pub fn opt_cow(s: &Option<String>) -> (r: Option<String>)
    ensures
        opt_text(r) == tidy(*s),
{
    match s {
        Some(t) => {
            let u = trim(t.as_str());
            if u.is_empty() {
                None
            } else {
                Some(u.to_owned())
            }
        },
        None => None,
    }
}

/// The whole answer about a file with a tag.
pub open spec fn tagged_response(tag: TagReading, props: AudioProperties, detail: Option<Seq<char>>) -> ResponseView {
    let items = tag.items@;
    ResponseView {
        v: 1,
        status: ResponseStatus::Found,
        detail,
        active_profile: None,
        title: tidy(tag.title),
        artist: tidy(tag.artist),
        album: tidy(tag.album),
        album_artist: shown_text(items, TagKey::AlbumArtist),
        artists: tag_list(items, TagKey::TrackArtists),
        genre: tidy(tag.genre),
        track: tag.track,
        track_total: tag.track_total,
        disc: tag.disk,
        disc_total: tag.disk_total,
        year: tag.year,
        duration_ms: duration_in(props),
        subtitle: shown_text(items, TagKey::TrackSubtitle),
        language: shown_text(items, TagKey::Language),
        script: shown_text(items, TagKey::Script),
        comment: comment_lines(items),
        mood: shown_text(items, TagKey::Mood),
        initial_key: shown_text(items, TagKey::InitialKey),
        bpm: bpm_of(items),
        lyrics: shown_text(items, TagKey::Lyrics),
        sort: sort_in(items),
        credits: credits_in(items),
        classical: classical_in(items),
        original: original_in(items),
        dates: dates_in(items),
        identifiers: identifiers_in(items),
        replay_gain: replay_gain_in(items),
        file: Some(file_in(props)),
        compilation: tag_flag(items, TagKey::FlagCompilation),
        podcast: tag_flag(items, TagKey::FlagPodcast),
        extras: extras_in(items),
    }
}

/// Makes the whole answer about a file with a tag.
pub fn ok_response(tag: &TagReading, props: &AudioProperties, extra_detail: Option<String>) -> (r: MetadataQueryResponse)
    ensures
        r@ == tagged_response(*tag, *props, opt_text(extra_detail)),
        r.track == tag.track,
        r.track_total == tag.track_total,
        r.disc == tag.disk,
        r.disc_total == tag.disk_total,
        r.year == tag.year,
        opt_text(r.title) == tidy(tag.title),
        opt_text(r.artist) == tidy(tag.artist),
        opt_text(r.album) == tidy(tag.album),
        opt_text(r.genre) == tidy(tag.genre),
{
    let items = &tag.items;
    MetadataQueryResponse {
        v: 1,
        status: ResponseStatus::Found,
        detail: extra_detail,
        active_profile: None,
        title: opt_cow(&tag.title),
        artist: opt_cow(&tag.artist),
        album: opt_cow(&tag.album),
        album_artist: opt_s(items, TagKey::AlbumArtist),
        artists: tag_string_list(items, TagKey::TrackArtists),
        genre: opt_cow(&tag.genre),
        track: tag.track,
        track_total: tag.track_total,
        disc: tag.disk,
        disc_total: tag.disk_total,
        year: tag.year,
        duration_ms: duration_of(props),
        subtitle: opt_s(items, TagKey::TrackSubtitle),
        language: opt_s(items, TagKey::Language),
        script: opt_s(items, TagKey::Script),
        comment: first_comment_line(items),
        mood: opt_s(items, TagKey::Mood),
        initial_key: opt_s(items, TagKey::InitialKey),
        bpm: bpm_string(items),
        lyrics: opt_s(items, TagKey::Lyrics),
        sort: sort_block(items),
        credits: credits_block(items),
        classical: classical_block(items),
        original: original_block(items),
        dates: dates_block(items),
        identifiers: identifiers_block(items),
        replay_gain: replay_gain_block(items),
        file: Some(file_block_from_props(props)),
        compilation: parse_compilation_bool(items),
        podcast: parse_podcast_bool(items),
        extras: collect_extras(items),
    }
}

/// The answer about a file without a tag.
pub open spec fn untagged_response(props: AudioProperties) -> ResponseView {
    ResponseView {
        duration_ms: duration_in(props),
        file: Some(file_in(props)),
        ..bare_response(ResponseStatus::Found, None)
    }
}

/// Makes the answer about a file without a tag.
pub fn ok_from_properties_only(props: &AudioProperties) -> (r: MetadataQueryResponse)
    ensures
        r@ == untagged_response(*props),
{
    let mut m = MetadataQueryResponse::v1_error(ResponseStatus::Found, None);
    m.duration_ms = duration_of(props);
    m.file = Some(file_block_from_props(props));
    m
}

/// An answer cut to a profile: the standard one has no nested groups, no measurements,
/// no extras and no lyrics.
pub open spec fn cut_to(r: ResponseView, profile: MetadataProfile) -> ResponseView {
    if r.status != ResponseStatus::Found {
        r
    } else {
        let named = ResponseView { active_profile: Some(profile.name()), ..r };
        match profile {
            MetadataProfile::Extended => named,
            MetadataProfile::Standard => ResponseView {
                sort: None,
                credits: None,
                classical: None,
                original: None,
                dates: None,
                identifiers: None,
                replay_gain: None,
                file: None,
                extras: None,
                lyrics: None,
                ..named
            },
        }
    }
}

/// Cuts an answer to a profile.
pub fn apply_metadata_profile(r: &mut MetadataQueryResponse, profile: MetadataProfile)
    ensures
        final(r)@ == cut_to(old(r)@, profile),
{
    match r.status {
        ResponseStatus::Found => {},
        _ => return,
    }
    r.active_profile = Some(profile.as_wire().to_owned());
    match profile {
        MetadataProfile::Extended => {},
        MetadataProfile::Standard => {
            r.sort = None;
            r.credits = None;
            r.classical = None;
            r.original = None;
            r.dates = None;
            r.identifiers = None;
            r.replay_gain = None;
            r.file = None;
            r.extras = None;
            r.lyrics = None;
        },
    }
}

/// Makes the whole answer about a file with a tag, with every group.
pub fn build_ok_response(tag: &TagReading, props: &AudioProperties, extra_detail: Option<String>) -> (r: MetadataQueryResponse)
    ensures
        r@ == cut_to(tagged_response(*tag, *props, opt_text(extra_detail)), MetadataProfile::Extended),
{
    let mut r = ok_response(tag, props, extra_detail);
    apply_metadata_profile(&mut r, MetadataProfile::Extended);
    r
}

/// A file of which nothing but its duration was measured.
pub open spec fn only_duration(duration_ms: u64) -> AudioProperties {
    AudioProperties {
        duration_ms,
        sample_rate: None,
        bit_depth: None,
        channels: None,
        channel_mask_bits: None,
        overall_bitrate: None,
        audio_bitrate: None,
    }
}

/// Makes the whole answer about a tag, of whose file nothing but the duration is known.
pub fn response_from_tag(tag: &TagReading, duration_ms: u64, detail: Option<String>) -> (r: MetadataQueryResponse)
    ensures
        r@ == cut_to(tagged_response(*tag, only_duration(duration_ms), opt_text(detail)), MetadataProfile::Extended),
{
    let props = AudioProperties {
        duration_ms,
        sample_rate: None,
        bit_depth: None,
        channels: None,
        channel_mask_bits: None,
        overall_bitrate: None,
        audio_bitrate: None,
    };
    build_ok_response(tag, &props, detail)
}

// What holds of every answer.

proof fn lemma_capped(s: Seq<char>, offset: nat, cap: nat)
    ensures
        starting_before(s, offset, cap).len() <= s.len(),
        starting_before(s, offset, cap) == s.take(starting_before(s, offset, cap).len() as int),
    decreases s.len(),
{
    if s.len() == 0 || offset >= cap {
        assert(starting_before(s, offset, cap) =~= s.take(0));
    } else {
        let rest = s.drop_first();
        lemma_capped(rest, offset + char_width(s[0]), cap);
        let t = starting_before(rest, offset + char_width(s[0]), cap);
        assert(seq![s[0]] + t =~= s.take(t.len() as int + 1));
    }
}

/// The bytes of a text in UTF-8.
pub open spec fn byte_length(s: Seq<char>) -> nat
    decreases s.len(),
{
    if s.len() == 0 {
        0
    } else {
        char_width(s[0]) + byte_length(s.drop_first())
    }
}

proof fn lemma_capped_bytes(s: Seq<char>, offset: nat, cap: nat)
    ensures
        offset < cap ==> offset + byte_length(starting_before(s, offset, cap)) < cap + 4,
        offset + byte_length(s) <= cap ==> starting_before(s, offset, cap) == s,
    decreases s.len(),
{
    if s.len() == 0 {
        assert(starting_before(s, offset, cap) =~= s);
    } else if offset < cap {
        let rest = s.drop_first();
        let next = offset + char_width(s[0]);
        lemma_capped_bytes(rest, next, cap);
        let t = starting_before(rest, next, cap);
        assert((seq![s[0]] + t).drop_first() =~= t);
        if next >= cap {
            assert(t =~= seq![]);
        }
        if offset + byte_length(s) <= cap {
            assert(seq![s[0]] + t =~= s);
        }
    }
}

/// A text is cut at its end alone, to less than a character beyond the limit; and it is
/// not cut where it is within the limit.
pub proof fn texts_are_cut_at_their_end(s: Seq<char>, cap: nat)
    requires
        cap > 0,
    ensures
        capped(s, cap) == s.take(capped(s, cap).len() as int),
        byte_length(capped(s, cap)) < cap + 4,
        byte_length(s) <= cap ==> capped(s, cap) == s,
{
    lemma_capped(s, 0, cap);
    lemma_capped_bytes(s, 0, cap);
}

/// Cutting an answer twice is cutting it once; and what the standard profile shows, the
/// extended one shows too, and the same.
pub proof fn profiles_only_leave_out(r: ResponseView)
    requires
        r.status == ResponseStatus::Found,
    ensures
        cut_to(cut_to(r, MetadataProfile::Standard), MetadataProfile::Standard) == cut_to(r, MetadataProfile::Standard),
        cut_to(cut_to(r, MetadataProfile::Extended), MetadataProfile::Standard) == cut_to(r, MetadataProfile::Standard),
        cut_to(r, MetadataProfile::Extended) == (ResponseView {
            active_profile: Some(MetadataProfile::Extended.name()),
            ..r
        }),
        cut_to(r, MetadataProfile::Standard).title == r.title,
        cut_to(r, MetadataProfile::Standard).artists == r.artists,
        cut_to(r, MetadataProfile::Standard).duration_ms == r.duration_ms,
        cut_to(r, MetadataProfile::Standard).credits is None,
        cut_to(r, MetadataProfile::Standard).file is None,
        cut_to(r, MetadataProfile::Standard).lyrics is None,
        cut_to(r, MetadataProfile::Standard).extras is None,
{
}

/// Whether an item is the first about something.
pub open spec fn is_first(items: Seq<TagItem>, key: TagKey, i: int) -> bool {
    &&& 0 <= i < items.len()
    &&& items[i].key == ItemKey::Known(key)
    &&& forall|j: int| 0 <= j < i ==> (#[trigger] items[j]).key != ItemKey::Known(key)
}

/// Whether a field of an answer shows what the items say about something: the text of the
/// first item about it, without the white space at its ends, and whole where it is at most
/// 512,000 bytes long; nothing where there is no such item, or it is blank or no text.
pub open spec fn shows(items: Seq<TagItem>, key: TagKey, field: Option<Seq<char>>) -> bool {
    &&& (forall|i: int| 0 <= i < items.len() ==> (#[trigger] items[i]).key != ItemKey::Known(key)) ==> field is None
    &&& forall|i: int| #[trigger]
        is_first(items, key, i) ==> match items[i].value {
            ItemValue::Text(s) => {
                &&& field is Some <==> trimmed(s@).len() > 0
                &&& field is Some && byte_length(trimmed(s@)) <= 512_000 ==> field == Some(trimmed(s@))
            },
            _ => field is None,
        }
}

proof fn lemma_first(items: Seq<TagItem>, key: TagKey)
    ensures
        (forall|i: int| 0 <= i < items.len() ==> (#[trigger] items[i]).key != ItemKey::Known(key)) ==> first_text(
            items,
            key,
        ) is None,
        forall|i: int| #[trigger] is_first(items, key, i) ==> first_text(items, key) == item_text(items[i]),
    decreases items.len(),
{
    if items.len() > 0 {
        let rest = items.drop_first();
        lemma_first(rest, key);
        assert forall|i: int| #[trigger] is_first(items, key, i) implies first_text(items, key) == item_text(
            items[i],
        ) by {
            if i > 0 {
                assert(items[0].key != ItemKey::Known(key));
                assert(rest[i - 1] == items[i]);
                assert forall|j: int| 0 <= j < i - 1 implies (#[trigger] rest[j]).key != ItemKey::Known(key) by {
                    assert(rest[j] == items[j + 1]);
                }
                assert(is_first(rest, key, i - 1));
            }
        }
        if forall|i: int| 0 <= i < items.len() ==> (#[trigger] items[i]).key != ItemKey::Known(key) {
            assert(items[0].key != ItemKey::Known(key));
            assert forall|i: int| 0 <= i < rest.len() implies (#[trigger] rest[i]).key != ItemKey::Known(key) by {
                assert(rest[i] == items[i + 1]);
            }
        }
    }
}

proof fn lemma_shows(items: Seq<TagItem>)
    ensures
        forall|key: TagKey| shows(items, key, #[trigger] shown_text(items, key)),
{
    assert forall|key: TagKey| shows(items, key, #[trigger] shown_text(items, key)) by {
        lemma_first(items, key);
        assert forall|i: int| #[trigger] is_first(items, key, i) implies match items[i].value {
            ItemValue::Text(s) => {
                &&& shown_text(items, key) is Some <==> trimmed(s@).len() > 0
                &&& shown_text(items, key) is Some && byte_length(trimmed(s@)) <= 512_000 ==> shown_text(items, key)
                    == Some(trimmed(s@))
            },
            _ => shown_text(items, key) is None,
        } by {
            if let ItemValue::Text(s) = items[i].value {
                texts_are_cut_at_their_end(trimmed(s@), MAX_TEXT_FIELD_BYTES as nat);
            }
        }
    }
}

/// The answer about a tagged file carries the tag's own numbers and names, each in its
/// field: the track of how many, the disc of how many, the year; title, artist, album and
/// genre, without the white space at their ends.
pub proof fn answers_carry_the_tag(tag: TagReading, props: AudioProperties, detail: Option<Seq<char>>)
    ensures
        ({
            let r = tagged_response(tag, props, detail);
            &&& r.status == ResponseStatus::Found
            &&& r.detail == detail
            &&& r.track == tag.track
            &&& r.track_total == tag.track_total
            &&& r.disc == tag.disk
            &&& r.disc_total == tag.disk_total
            &&& r.year == tag.year
            &&& tag.disk is Some && tag.disk_total is Some && tag.disk->0 <= tag.disk_total->0 ==> r.disc->0
                <= r.disc_total->0
            &&& tag.track is Some && tag.track_total is Some && tag.track->0 <= tag.track_total->0 ==> r.track->0
                <= r.track_total->0
            &&& tag.title matches Some(s) ==> r.title == (if trimmed(s@).len() == 0 {
                None
            } else {
                Some(trimmed(s@))
            })
            &&& tag.artist matches Some(s) ==> r.artist == (if trimmed(s@).len() == 0 {
                None
            } else {
                Some(trimmed(s@))
            })
            &&& tag.album matches Some(s) ==> r.album == (if trimmed(s@).len() == 0 {
                None
            } else {
                Some(trimmed(s@))
            })
            &&& tag.genre matches Some(s) ==> r.genre == (if trimmed(s@).len() == 0 {
                None
            } else {
                Some(trimmed(s@))
            })
            &&& tag.title is None ==> r.title is None
            &&& tag.artist is None ==> r.artist is None
            &&& tag.album is None ==> r.album is None
            &&& tag.genre is None ==> r.genre is None
        }),
{
}

/// What was measured of a file is shown as it was measured, with or without a tag; a
/// duration or a bit rate of 0 is one that is not known.
pub proof fn answers_carry_the_measurements(tag: TagReading, props: AudioProperties, detail: Option<Seq<char>>)
    ensures
        tagged_response(tag, props, detail).file == untagged_response(props).file,
        tagged_response(tag, props, detail).duration_ms == untagged_response(props).duration_ms,
        untagged_response(props).status == ResponseStatus::Found,
        untagged_response(props).title is None,
        untagged_response(props).duration_ms == (if props.duration_ms == 0 {
            None
        } else {
            Some(props.duration_ms)
        }),
        untagged_response(props).file matches Some(f) && {
            &&& f.duration_ms == untagged_response(props).duration_ms
            &&& f.sample_rate_hz == props.sample_rate
            &&& f.bit_depth == props.bit_depth
            &&& f.channels == props.channels
            &&& f.channel_mask_bits == props.channel_mask_bits
            &&& f.overall_bitrate_kbps == (if props.overall_bitrate == Some(0u32) {
                None
            } else {
                props.overall_bitrate
            })
            &&& f.audio_bitrate_kbps == (if props.audio_bitrate == Some(0u32) {
                None
            } else {
                props.audio_bitrate
            })
        },
{
}

/// The texts of a tag are shown each in the field that is about the same.
pub proof fn answers_show_the_texts(tag: TagReading, props: AudioProperties, detail: Option<Seq<char>>)
    ensures
        ({
            let r = tagged_response(tag, props, detail);
            let items = tag.items@;
            &&& shows(items, TagKey::AlbumArtist, r.album_artist)
            &&& shows(items, TagKey::TrackSubtitle, r.subtitle)
            &&& shows(items, TagKey::Language, r.language)
            &&& shows(items, TagKey::Script, r.script)
            &&& shows(items, TagKey::Mood, r.mood)
            &&& shows(items, TagKey::InitialKey, r.initial_key)
            &&& shows(items, TagKey::Lyrics, r.lyrics)
        }),
{
    lemma_shows(tag.items@);
}

/// The keys by which tracks are sorted are shown each in its field, as soon as there is one of them.
pub proof fn answers_show_sort(tag: TagReading, props: AudioProperties, detail: Option<Seq<char>>)
    ensures
        ({
            let items = tag.items@;
            match tagged_response(tag, props, detail).sort {
                Some(b) => {
                    &&& shows(items, TagKey::TrackTitleSortOrder, b.track_title)
                    &&& shows(items, TagKey::AlbumTitleSortOrder, b.album)
                    &&& shows(items, TagKey::TrackArtistSortOrder, b.track_artist)
                    &&& shows(items, TagKey::AlbumArtistSortOrder, b.album_artist)
                    &&& shows(items, TagKey::ComposerSortOrder, b.composer)
                },
                None => {
                    &&& shows(items, TagKey::TrackTitleSortOrder, None)
                    &&& shows(items, TagKey::AlbumTitleSortOrder, None)
                    &&& shows(items, TagKey::TrackArtistSortOrder, None)
                    &&& shows(items, TagKey::AlbumArtistSortOrder, None)
                    &&& shows(items, TagKey::ComposerSortOrder, None)
                },
            }
        }),
{
    let items = tag.items@;
    lemma_shows(items);
    assert(shows(items, TagKey::TrackTitleSortOrder, shown_text(items, TagKey::TrackTitleSortOrder)));
    assert(shows(items, TagKey::AlbumTitleSortOrder, shown_text(items, TagKey::AlbumTitleSortOrder)));
    assert(shows(items, TagKey::TrackArtistSortOrder, shown_text(items, TagKey::TrackArtistSortOrder)));
    assert(shows(items, TagKey::AlbumArtistSortOrder, shown_text(items, TagKey::AlbumArtistSortOrder)));
    assert(shows(items, TagKey::ComposerSortOrder, shown_text(items, TagKey::ComposerSortOrder)));
}

/// What a track was first released as are shown each in its field, as soon as there is one of them.
pub proof fn answers_show_original(tag: TagReading, props: AudioProperties, detail: Option<Seq<char>>)
    ensures
        ({
            let items = tag.items@;
            match tagged_response(tag, props, detail).original {
                Some(b) => {
                    &&& shows(items, TagKey::OriginalAlbumTitle, b.album)
                    &&& shows(items, TagKey::OriginalArtist, b.artist)
                    &&& shows(items, TagKey::OriginalLyricist, b.lyricist)
                    &&& shows(items, TagKey::OriginalReleaseDate, b.release_date)
                },
                None => {
                    &&& shows(items, TagKey::OriginalAlbumTitle, None)
                    &&& shows(items, TagKey::OriginalArtist, None)
                    &&& shows(items, TagKey::OriginalLyricist, None)
                    &&& shows(items, TagKey::OriginalReleaseDate, None)
                },
            }
        }),
{
    let items = tag.items@;
    lemma_shows(items);
    assert(shows(items, TagKey::OriginalAlbumTitle, shown_text(items, TagKey::OriginalAlbumTitle)));
    assert(shows(items, TagKey::OriginalArtist, shown_text(items, TagKey::OriginalArtist)));
    assert(shows(items, TagKey::OriginalLyricist, shown_text(items, TagKey::OriginalLyricist)));
    assert(shows(items, TagKey::OriginalReleaseDate, shown_text(items, TagKey::OriginalReleaseDate)));
}

/// The dates of a track are shown each in its field, as soon as there is one of them.
pub proof fn answers_show_dates(tag: TagReading, props: AudioProperties, detail: Option<Seq<char>>)
    ensures
        ({
            let items = tag.items@;
            match tagged_response(tag, props, detail).dates {
                Some(b) => {
                    &&& shows(items, TagKey::RecordingDate, b.recording)
                    &&& shows(items, TagKey::ReleaseDate, b.release)
                    &&& shows(items, TagKey::OriginalReleaseDate, b.original_release)
                },
                None => {
                    &&& shows(items, TagKey::RecordingDate, None)
                    &&& shows(items, TagKey::ReleaseDate, None)
                    &&& shows(items, TagKey::OriginalReleaseDate, None)
                },
            }
        }),
{
    let items = tag.items@;
    lemma_shows(items);
    assert(shows(items, TagKey::RecordingDate, shown_text(items, TagKey::RecordingDate)));
    assert(shows(items, TagKey::ReleaseDate, shown_text(items, TagKey::ReleaseDate)));
    assert(shows(items, TagKey::OriginalReleaseDate, shown_text(items, TagKey::OriginalReleaseDate)));
}

/// The numbers under which a track is known are shown each in its field, as soon as there is one of them.
pub proof fn answers_show_identifiers(tag: TagReading, props: AudioProperties, detail: Option<Seq<char>>)
    ensures
        ({
            let items = tag.items@;
            match tagged_response(tag, props, detail).identifiers {
                Some(b) => {
                    &&& shows(items, TagKey::Isrc, b.isrc)
                    &&& shows(items, TagKey::CatalogNumber, b.catalog_number)
                    &&& shows(items, TagKey::Barcode, b.barcode)
                    &&& shows(items, TagKey::MusicBrainzRecordingId, b.musicbrainz_recording_id)
                    &&& shows(items, TagKey::MusicBrainzTrackId, b.musicbrainz_track_id)
                    &&& shows(items, TagKey::MusicBrainzReleaseId, b.musicbrainz_release_id)
                    &&& shows(items, TagKey::MusicBrainzReleaseGroupId, b.musicbrainz_release_group_id)
                    &&& shows(items, TagKey::MusicBrainzArtistId, b.musicbrainz_artist_id)
                    &&& shows(items, TagKey::MusicBrainzReleaseArtistId, b.musicbrainz_release_artist_id)
                    &&& shows(items, TagKey::MusicBrainzWorkId, b.musicbrainz_work_id)
                },
                None => {
                    &&& shows(items, TagKey::Isrc, None)
                    &&& shows(items, TagKey::CatalogNumber, None)
                    &&& shows(items, TagKey::Barcode, None)
                    &&& shows(items, TagKey::MusicBrainzRecordingId, None)
                    &&& shows(items, TagKey::MusicBrainzTrackId, None)
                    &&& shows(items, TagKey::MusicBrainzReleaseId, None)
                    &&& shows(items, TagKey::MusicBrainzReleaseGroupId, None)
                    &&& shows(items, TagKey::MusicBrainzArtistId, None)
                    &&& shows(items, TagKey::MusicBrainzReleaseArtistId, None)
                    &&& shows(items, TagKey::MusicBrainzWorkId, None)
                },
            }
        }),
{
    let items = tag.items@;
    lemma_shows(items);
    assert(shows(items, TagKey::Isrc, shown_text(items, TagKey::Isrc)));
    assert(shows(items, TagKey::CatalogNumber, shown_text(items, TagKey::CatalogNumber)));
    assert(shows(items, TagKey::Barcode, shown_text(items, TagKey::Barcode)));
    assert(shows(items, TagKey::MusicBrainzRecordingId, shown_text(items, TagKey::MusicBrainzRecordingId)));
    assert(shows(items, TagKey::MusicBrainzTrackId, shown_text(items, TagKey::MusicBrainzTrackId)));
    assert(shows(items, TagKey::MusicBrainzReleaseId, shown_text(items, TagKey::MusicBrainzReleaseId)));
    assert(shows(items, TagKey::MusicBrainzReleaseGroupId, shown_text(items, TagKey::MusicBrainzReleaseGroupId)));
    assert(shows(items, TagKey::MusicBrainzArtistId, shown_text(items, TagKey::MusicBrainzArtistId)));
    assert(shows(items, TagKey::MusicBrainzReleaseArtistId, shown_text(items, TagKey::MusicBrainzReleaseArtistId)));
    assert(shows(items, TagKey::MusicBrainzWorkId, shown_text(items, TagKey::MusicBrainzWorkId)));
}

/// The loudness of a track are shown each in its field, as soon as there is one of them.
pub proof fn answers_show_replay_gain(tag: TagReading, props: AudioProperties, detail: Option<Seq<char>>)
    ensures
        ({
            let items = tag.items@;
            match tagged_response(tag, props, detail).replay_gain {
                Some(b) => {
                    &&& shows(items, TagKey::ReplayGainTrackGain, b.track_gain)
                    &&& shows(items, TagKey::ReplayGainTrackPeak, b.track_peak)
                    &&& shows(items, TagKey::ReplayGainAlbumGain, b.album_gain)
                    &&& shows(items, TagKey::ReplayGainAlbumPeak, b.album_peak)
                },
                None => {
                    &&& shows(items, TagKey::ReplayGainTrackGain, None)
                    &&& shows(items, TagKey::ReplayGainTrackPeak, None)
                    &&& shows(items, TagKey::ReplayGainAlbumGain, None)
                    &&& shows(items, TagKey::ReplayGainAlbumPeak, None)
                },
            }
        }),
{
    let items = tag.items@;
    lemma_shows(items);
    assert(shows(items, TagKey::ReplayGainTrackGain, shown_text(items, TagKey::ReplayGainTrackGain)));
    assert(shows(items, TagKey::ReplayGainTrackPeak, shown_text(items, TagKey::ReplayGainTrackPeak)));
    assert(shows(items, TagKey::ReplayGainAlbumGain, shown_text(items, TagKey::ReplayGainAlbumGain)));
    assert(shows(items, TagKey::ReplayGainAlbumPeak, shown_text(items, TagKey::ReplayGainAlbumPeak)));
}

/// Those who had a part in a track are shown each in its field, as soon as there is one of them.
pub proof fn answers_show_credits(tag: TagReading, props: AudioProperties, detail: Option<Seq<char>>)
    ensures
        ({
            let items = tag.items@;
            match tagged_response(tag, props, detail).credits {
                Some(b) => {
                    &&& shows(items, TagKey::Composer, b.composer)
                    &&& shows(items, TagKey::Conductor, b.conductor)
                    &&& shows(items, TagKey::Lyricist, b.lyricist)
                    &&& shows(items, TagKey::Arranger, b.arranger)
                    &&& shows(items, TagKey::Writer, b.writer)
                    &&& shows(items, TagKey::Producer, b.producer)
                    &&& shows(items, TagKey::MixEngineer, b.mix_engineer)
                    &&& shows(items, TagKey::Engineer, b.engineer)
                    &&& shows(items, TagKey::Label, b.label)
                    &&& shows(items, TagKey::Publisher, b.publisher)
                    &&& shows(items, TagKey::Remixer, b.remixer)
                    &&& shows(items, TagKey::Director, b.director)
                    &&& b.performers == tag_list(items, TagKey::Performer)
                    &&& b.performers matches Some(all) ==> b.performer == Some(all[0])
                },
                None => {
                    &&& shows(items, TagKey::Composer, None)
                    &&& shows(items, TagKey::Conductor, None)
                    &&& shows(items, TagKey::Lyricist, None)
                    &&& shows(items, TagKey::Arranger, None)
                    &&& shows(items, TagKey::Writer, None)
                    &&& shows(items, TagKey::Producer, None)
                    &&& shows(items, TagKey::MixEngineer, None)
                    &&& shows(items, TagKey::Engineer, None)
                    &&& shows(items, TagKey::Label, None)
                    &&& shows(items, TagKey::Publisher, None)
                    &&& shows(items, TagKey::Remixer, None)
                    &&& shows(items, TagKey::Director, None)
                    &&& tag_list(items, TagKey::Performer) is None
                },
            }
        }),
{
    let items = tag.items@;
    lemma_shows(items);
    assert(shows(items, TagKey::Composer, shown_text(items, TagKey::Composer)));
    assert(shows(items, TagKey::Conductor, shown_text(items, TagKey::Conductor)));
    assert(shows(items, TagKey::Lyricist, shown_text(items, TagKey::Lyricist)));
    assert(shows(items, TagKey::Arranger, shown_text(items, TagKey::Arranger)));
    assert(shows(items, TagKey::Writer, shown_text(items, TagKey::Writer)));
    assert(shows(items, TagKey::Producer, shown_text(items, TagKey::Producer)));
    assert(shows(items, TagKey::MixEngineer, shown_text(items, TagKey::MixEngineer)));
    assert(shows(items, TagKey::Engineer, shown_text(items, TagKey::Engineer)));
    assert(shows(items, TagKey::Label, shown_text(items, TagKey::Label)));
    assert(shows(items, TagKey::Publisher, shown_text(items, TagKey::Publisher)));
    assert(shows(items, TagKey::Remixer, shown_text(items, TagKey::Remixer)));
    assert(shows(items, TagKey::Director, shown_text(items, TagKey::Director)));
}

/// The work that a track is part of are shown each in its field, as soon as there is one of them.
pub proof fn answers_show_classical(tag: TagReading, props: AudioProperties, detail: Option<Seq<char>>)
    ensures
        ({
            let items = tag.items@;
            match tagged_response(tag, props, detail).classical {
                Some(b) => {
                    &&& shows(items, TagKey::Work, b.work)
                    &&& shows(items, TagKey::Movement, b.movement)
                    &&& shows(items, TagKey::ShowName, b.show_name)
                    &&& shows(items, TagKey::ContentGroup, b.content_group)
                    &&& b.movement_number == tag_number(items, TagKey::MovementNumber)
                    &&& b.movement_total == tag_number(items, TagKey::MovementTotal)
                },
                None => {
                    &&& shows(items, TagKey::Work, None)
                    &&& shows(items, TagKey::Movement, None)
                    &&& shows(items, TagKey::ShowName, None)
                    &&& shows(items, TagKey::ContentGroup, None)
                    &&& tag_number(items, TagKey::MovementNumber) is None
                    &&& tag_number(items, TagKey::MovementTotal) is None
                },
            }
        }),
{
    let items = tag.items@;
    lemma_shows(items);
    assert(shows(items, TagKey::Work, shown_text(items, TagKey::Work)));
    assert(shows(items, TagKey::Movement, shown_text(items, TagKey::Movement)));
    assert(shows(items, TagKey::ShowName, shown_text(items, TagKey::ShowName)));
    assert(shows(items, TagKey::ContentGroup, shown_text(items, TagKey::ContentGroup)));
}

/// Whether an item is a text about something that is not blank.
pub open spec fn says(item: TagItem, key: TagKey) -> bool {
    item.key == ItemKey::Known(key) && (item.value matches ItemValue::Text(s) && trimmed(s@).len() > 0)
}

proof fn lemma_lists(items: Seq<TagItem>, key: TagKey)
    ensures
        tidied(all_texts(items, key)) == items.filter(|t: TagItem| says(t, key)).map_values(
            |t: TagItem| trimmed(t.value->Text_0@),
        ),
    decreases items.len(),
{
    reveal(Seq::filter);
    let pick = |t: TagItem| says(t, key);
    let read = |t: TagItem| trimmed(t.value->Text_0@);
    if items.len() == 0 {
        assert(tidied(all_texts(items, key)) =~= items.filter(pick).map_values(read));
    } else {
        let init = items.drop_last();
        lemma_lists(init, key);
        let before = all_texts(init, key);
        if is_about(items.last(), key) && item_text(items.last()) is Some {
            let s = item_text(items.last())->0;
            assert(before.push(s).drop_last() =~= before);
        }
        if says(items.last(), key) {
            assert(items.filter(pick).map_values(read) =~= init.filter(pick).map_values(read).push(read(items.last())));
        }
        assert(tidied(all_texts(items, key)) =~= items.filter(pick).map_values(read));
    }
}

/// A field that shows several texts shows all of them, in their order: those that are not
/// blank, without the white space at their ends. It shows nothing only where there are none.
pub proof fn lists_show_every_text(tag: TagReading, props: AudioProperties, detail: Option<Seq<char>>)
    ensures
        ({
            let items = tag.items@;
            let artists = items.filter(|t: TagItem| says(t, TagKey::TrackArtists)).map_values(
                |t: TagItem| trimmed(t.value->Text_0@),
            );
            let performers = items.filter(|t: TagItem| says(t, TagKey::Performer)).map_values(
                |t: TagItem| trimmed(t.value->Text_0@),
            );
            &&& tagged_response(tag, props, detail).artists == (if artists.len() == 0 {
                None
            } else {
                Some(artists)
            })
            &&& tag_list(items, TagKey::Performer) == (if performers.len() == 0 {
                None
            } else {
                Some(performers)
            })
        }),
{
    lemma_lists(tag.items@, TagKey::TrackArtists);
    lemma_lists(tag.items@, TagKey::Performer);
}

/// A number in a tag is shown as that number.
pub proof fn numbers_in_tags_read_back(items: Seq<TagItem>, key: TagKey, n: u32, s: String, i: int)
    requires
        is_first(items, key, i),
        items[i].value == ItemValue::Text(s),
        s@ == decimal(n as nat),
    ensures
        tag_number(items, key) == Some(n),
{
    lemma_first(items, key);
    decimal_reads_back(n as nat);
}

/// A flag says yes or no in five ways each, and nothing else is a flag.
pub proof fn flags_say_yes_or_no(s: Seq<char>)
    ensures
        flag_in(s) == Some(true) <==> (trimmed(s) == "1"@ || trimmed(s) == "true"@ || trimmed(s) == "True"@ || trimmed(s)
            == "yes"@ || trimmed(s) == "Yes"@),
        flag_in(s) == Some(false) <==> (trimmed(s) == "0"@ || trimmed(s) == "false"@ || trimmed(s) == "False"@ || trimmed(s)
            == "no"@ || trimmed(s) == "No"@),
{
    reveal_strlit("1");
    reveal_strlit("true");
    reveal_strlit("True");
    reveal_strlit("yes");
    reveal_strlit("Yes");
    reveal_strlit("0");
    reveal_strlit("false");
    reveal_strlit("False");
    reveal_strlit("no");
    reveal_strlit("No");
    assert("1"@.len() == 1 && "1"@[0] == '1');
    assert("0"@.len() == 1 && "0"@[0] == '0');
    assert("true"@.len() == 4 && "True"@.len() == 4 && "yes"@.len() == 3 && "Yes"@.len() == 3);
    assert("false"@.len() == 5 && "False"@.len() == 5 && "no"@.len() == 2 && "No"@.len() == 2);
}

/// The flags of a tag are shown, each in its field.
pub proof fn answers_show_the_flags(tag: TagReading, props: AudioProperties, detail: Option<Seq<char>>, i: int, s: String)
    requires
        tag.items@[i].value == ItemValue::Text(s),
    ensures
        is_first(tag.items@, TagKey::FlagCompilation, i) ==> tagged_response(tag, props, detail).compilation == flag_in(s@),
        is_first(tag.items@, TagKey::FlagPodcast, i) ==> tagged_response(tag, props, detail).podcast == flag_in(s@),
{
    lemma_first(tag.items@, TagKey::FlagCompilation);
    lemma_first(tag.items@, TagKey::FlagPodcast);
}

/// Every comment is shown, each on a line of its own: one alone as it is, and one more
/// behind a line end.
pub proof fn comments_are_lines(tag: TagReading, props: AudioProperties, detail: Option<Seq<char>>, more: TagItem, s: String)
    requires
        more.key == ItemKey::Known(TagKey::Comment),
        more.value == ItemValue::Text(s),
    ensures
        all_texts(tag.items@, TagKey::Comment).len() == 0 ==> tagged_response(tag, props, detail).comment is None,
        tagged_response(tag, props, detail).comment == comment_lines(tag.items@),
        comment_lines(tag.items@.push(more)) == Some(
            match comment_lines(tag.items@) {
                Some(before) => before + seq!['\n'] + s@,
                None => s@,
            },
        ),
{
    let items = tag.items@;
    let all = all_texts(items, TagKey::Comment);
    reveal_strlit("\n");
    assert("\n"@ =~= seq!['\n']);
    assert(items.push(more).drop_last() =~= items);
    assert(all_texts(items.push(more), TagKey::Comment) == all.push(s@));
    assert(all.push(s@).drop_last() =~= all);
}

/// The tempo is the one that is written, or else the one in whole numbers.
pub proof fn tempo_is_read(tag: TagReading, props: AudioProperties, detail: Option<Seq<char>>)
    ensures
        tagged_response(tag, props, detail).bpm == (match tag_text(tag.items@, TagKey::Bpm, 64) {
            Some(s) => Some(s),
            None => tag_text(tag.items@, TagKey::IntegerBpm, 64),
        }),
{
}

/// What no field takes is kept under its name: the last item, where no other of its name
/// says anything, is found under that name, and one that follows another under the name
/// with the number of those before it.
pub proof fn extras_keep_their_names(items: Seq<TagItem>, item: TagItem, name: String)
    requires
        item.key == ItemKey::Unknown(name),
        name@.len() > 0,
    ensures
        ({
            let n = times_said(items, name@);
            let key = if n == 0 {
                name@
            } else {
                name@ + "@"@ + decimal(n)
            };
            let after = extras_in(items.push(item));
            &&& item.value matches ItemValue::Text(s) ==> trimmed(s@).len() > 0 && byte_length(trimmed(s@)) <= 512_000
                ==> after is Some && (after->0).contains_key(key) && (after->0)[key] == trimmed(s@)
            &&& item.value matches ItemValue::Binary(k) ==> k > 0 ==> after is Some && (after->0).contains_key(key) && (
            after->0)[key] == "<binary: "@ + decimal(k as nat) + " bytes>"@
        }),
{
    let all = items.push(item);
    assert(all.drop_last() =~= items);
    assert(all[all.len() - 1] == item);
    if let ItemValue::Text(s) = item.value {
        texts_are_cut_at_their_end(trimmed(s@), MAX_TEXT_FIELD_BYTES as nat);
    }
}

/// The standard profile leaves out the groups, the measurements, the extras and the lyrics,
/// and nothing else; the extended one leaves out nothing. An answer that found nothing is
/// not touched.
pub proof fn profiles_leave_out_what_they_say(r: ResponseView, profile: MetadataProfile)
    ensures
        ({
            let c = cut_to(r, profile);
            &&& r.status != ResponseStatus::Found ==> c == r
            &&& r.status == ResponseStatus::Found ==> {
                &&& c.active_profile == Some(
                    if profile == MetadataProfile::Standard {
                        "standard"@
                    } else {
                        "extended"@
                    },
                )
                &&& c.v == r.v && c.status == r.status && c.detail == r.detail
                &&& c.title == r.title && c.artist == r.artist && c.album == r.album && c.album_artist == r.album_artist
                &&& c.artists == r.artists && c.genre == r.genre && c.year == r.year
                &&& c.track == r.track && c.track_total == r.track_total
                &&& c.disc == r.disc && c.disc_total == r.disc_total
                &&& c.duration_ms == r.duration_ms && c.subtitle == r.subtitle && c.language == r.language
                &&& c.script == r.script && c.comment == r.comment && c.mood == r.mood
                &&& c.initial_key == r.initial_key && c.bpm == r.bpm
                &&& c.compilation == r.compilation && c.podcast == r.podcast
                &&& profile == MetadataProfile::Extended ==> c.sort == r.sort && c.credits == r.credits && c.classical
                    == r.classical && c.original == r.original && c.dates == r.dates && c.identifiers == r.identifiers
                    && c.replay_gain == r.replay_gain && c.file == r.file && c.extras == r.extras && c.lyrics == r.lyrics
                &&& profile == MetadataProfile::Standard ==> c.sort is None && c.credits is None && c.classical is None
                    && c.original is None && c.dates is None && c.identifiers is None && c.replay_gain is None && c.file
                    is None && c.extras is None && c.lyrics is None
            }
        }),
{
}

} // verus!
