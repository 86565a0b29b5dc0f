//! The answer to a metadata query.

use crate::text::{opt_text, texts};
use crate::text_map::TextMap;
use vstd::prelude::*;

verus! {

/// The view of an optional value.
pub open spec fn opt_view<T: View>(v: Option<T>) -> Option<T::V> {
    match v {
        Some(x) => Some(x@),
        None => None,
    }
}

/// The view of an optional list of texts.
pub open spec fn opt_texts(v: Option<Vec<String>>) -> Option<Seq<Seq<char>>> {
    match v {
        Some(x) => Some(texts(x@)),
        None => None,
    }
}

/// The keys by which tracks are sorted.
#[derive(Debug, Clone)]
pub struct SortMetadata {
    pub track_title: Option<String>,
    pub album: Option<String>,
    pub track_artist: Option<String>,
    pub album_artist: Option<String>,
    pub composer: Option<String>,
}

/// [`SortMetadata`] over mathematical values.
#[verifier::ext_equal]
pub struct SortView {
    pub track_title: Option<Seq<char>>,
    pub album: Option<Seq<char>>,
    pub track_artist: Option<Seq<char>>,
    pub album_artist: Option<Seq<char>>,
    pub composer: Option<Seq<char>>,
}

impl View for SortMetadata {
    type V = SortView;

    open spec fn view(&self) -> SortView {
        SortView {
            track_title: opt_text(self.track_title),
            album: opt_text(self.album),
            track_artist: opt_text(self.track_artist),
            album_artist: opt_text(self.album_artist),
            composer: opt_text(self.composer),
        }
    }
}

impl SortView {
    /// Whether nothing is said.
    pub open spec fn is_empty(self) -> bool {
        &&& self.track_title is None
        &&& self.album is None
        &&& self.track_artist is None
        &&& self.album_artist is None
        &&& self.composer is None
    }
}

impl SortMetadata {
    /// Nothing where nothing is said.
    pub fn unless_empty(self) -> (r: Option<SortMetadata>)
        ensures
            opt_view(r) == if self@.is_empty() {
                None
            } else {
                Some(self@)
            },
    {
        if self.track_title.is_none() && self.album.is_none() && self.track_artist.is_none() && self.album_artist.is_none() && self.composer.is_none() {
            None
        } else {
            Some(self)
        }
    }
}

/// What the track was first released as.
#[derive(Debug, Clone)]
pub struct OriginalMetadata {
    pub album: Option<String>,
    pub artist: Option<String>,
    pub lyricist: Option<String>,
    pub release_date: Option<String>,
}

/// [`OriginalMetadata`] over mathematical values.
#[verifier::ext_equal]
pub struct OriginalView {
    pub album: Option<Seq<char>>,
    pub artist: Option<Seq<char>>,
    pub lyricist: Option<Seq<char>>,
    pub release_date: Option<Seq<char>>,
}

impl View for OriginalMetadata {
    type V = OriginalView;

    open spec fn view(&self) -> OriginalView {
        OriginalView {
            album: opt_text(self.album),
            artist: opt_text(self.artist),
            lyricist: opt_text(self.lyricist),
            release_date: opt_text(self.release_date),
        }
    }
}

impl OriginalView {
    /// Whether nothing is said.
    pub open spec fn is_empty(self) -> bool {
        &&& self.album is None
        &&& self.artist is None
        &&& self.lyricist is None
        &&& self.release_date is None
    }
}

impl OriginalMetadata {
    /// Nothing where nothing is said.
    pub fn unless_empty(self) -> (r: Option<OriginalMetadata>)
        ensures
            opt_view(r) == if self@.is_empty() {
                None
            } else {
                Some(self@)
            },
    {
        if self.album.is_none() && self.artist.is_none() && self.lyricist.is_none() && self.release_date.is_none() {
            None
        } else {
            Some(self)
        }
    }
}

/// The dates of a track, as they are written.
#[derive(Debug, Clone)]
pub struct DatesMetadata {
    pub recording: Option<String>,
    pub release: Option<String>,
    pub original_release: Option<String>,
}

/// [`DatesMetadata`] over mathematical values.
#[verifier::ext_equal]
pub struct DatesView {
    pub recording: Option<Seq<char>>,
    pub release: Option<Seq<char>>,
    pub original_release: Option<Seq<char>>,
}

impl View for DatesMetadata {
    type V = DatesView;

    open spec fn view(&self) -> DatesView {
        DatesView {
            recording: opt_text(self.recording),
            release: opt_text(self.release),
            original_release: opt_text(self.original_release),
        }
    }
}

impl DatesView {
    /// Whether nothing is said.
    pub open spec fn is_empty(self) -> bool {
        &&& self.recording is None
        &&& self.release is None
        &&& self.original_release is None
    }
}

impl DatesMetadata {
    /// Nothing where nothing is said.
    pub fn unless_empty(self) -> (r: Option<DatesMetadata>)
        ensures
            opt_view(r) == if self@.is_empty() {
                None
            } else {
                Some(self@)
            },
    {
        if self.recording.is_none() && self.release.is_none() && self.original_release.is_none() {
            None
        } else {
            Some(self)
        }
    }
}

/// Under which numbers a track is known.
#[derive(Debug, Clone)]
pub struct IdentifiersMetadata {
    pub isrc: Option<String>,
    pub catalog_number: Option<String>,
    pub barcode: Option<String>,
    pub musicbrainz_recording_id: Option<String>,
    pub musicbrainz_track_id: Option<String>,
    pub musicbrainz_release_id: Option<String>,
    pub musicbrainz_release_group_id: Option<String>,
    pub musicbrainz_artist_id: Option<String>,
    pub musicbrainz_release_artist_id: Option<String>,
    pub musicbrainz_work_id: Option<String>,
}

/// [`IdentifiersMetadata`] over mathematical values.
#[verifier::ext_equal]
pub struct IdentifiersView {
    pub isrc: Option<Seq<char>>,
    pub catalog_number: Option<Seq<char>>,
    pub barcode: Option<Seq<char>>,
    pub musicbrainz_recording_id: Option<Seq<char>>,
    pub musicbrainz_track_id: Option<Seq<char>>,
    pub musicbrainz_release_id: Option<Seq<char>>,
    pub musicbrainz_release_group_id: Option<Seq<char>>,
    pub musicbrainz_artist_id: Option<Seq<char>>,
    pub musicbrainz_release_artist_id: Option<Seq<char>>,
    pub musicbrainz_work_id: Option<Seq<char>>,
}

impl View for IdentifiersMetadata {
    type V = IdentifiersView;

    open spec fn view(&self) -> IdentifiersView {
        IdentifiersView {
            isrc: opt_text(self.isrc),
            catalog_number: opt_text(self.catalog_number),
            barcode: opt_text(self.barcode),
            musicbrainz_recording_id: opt_text(self.musicbrainz_recording_id),
            musicbrainz_track_id: opt_text(self.musicbrainz_track_id),
            musicbrainz_release_id: opt_text(self.musicbrainz_release_id),
            musicbrainz_release_group_id: opt_text(self.musicbrainz_release_group_id),
            musicbrainz_artist_id: opt_text(self.musicbrainz_artist_id),
            musicbrainz_release_artist_id: opt_text(self.musicbrainz_release_artist_id),
            musicbrainz_work_id: opt_text(self.musicbrainz_work_id),
        }
    }
}

impl IdentifiersView {
    /// Whether nothing is said.
    pub open spec fn is_empty(self) -> bool {
        &&& self.isrc is None
        &&& self.catalog_number is None
        &&& self.barcode is None
        &&& self.musicbrainz_recording_id is None
        &&& self.musicbrainz_track_id is None
        &&& self.musicbrainz_release_id is None
        &&& self.musicbrainz_release_group_id is None
        &&& self.musicbrainz_artist_id is None
        &&& self.musicbrainz_release_artist_id is None
        &&& self.musicbrainz_work_id is None
    }
}

impl IdentifiersMetadata {
    /// Nothing where nothing is said.
    pub fn unless_empty(self) -> (r: Option<IdentifiersMetadata>)
        ensures
            opt_view(r) == if self@.is_empty() {
                None
            } else {
                Some(self@)
            },
    {
        if self.isrc.is_none() && self.catalog_number.is_none() && self.barcode.is_none() && self.musicbrainz_recording_id.is_none() && self.musicbrainz_track_id.is_none() && self.musicbrainz_release_id.is_none() && self.musicbrainz_release_group_id.is_none() && self.musicbrainz_artist_id.is_none() && self.musicbrainz_release_artist_id.is_none() && self.musicbrainz_work_id.is_none() {
            None
        } else {
            Some(self)
        }
    }
}

/// The loudness of a track, as it is written.
#[derive(Debug, Clone)]
pub struct ReplayGainMetadata {
    pub track_gain: Option<String>,
    pub track_peak: Option<String>,
    pub album_gain: Option<String>,
    pub album_peak: Option<String>,
}

/// [`ReplayGainMetadata`] over mathematical values.
#[verifier::ext_equal]
pub struct ReplayGainView {
    pub track_gain: Option<Seq<char>>,
    pub track_peak: Option<Seq<char>>,
    pub album_gain: Option<Seq<char>>,
    pub album_peak: Option<Seq<char>>,
}

impl View for ReplayGainMetadata {
    type V = ReplayGainView;

    open spec fn view(&self) -> ReplayGainView {
        ReplayGainView {
            track_gain: opt_text(self.track_gain),
            track_peak: opt_text(self.track_peak),
            album_gain: opt_text(self.album_gain),
            album_peak: opt_text(self.album_peak),
        }
    }
}

impl ReplayGainView {
    /// Whether nothing is said.
    pub open spec fn is_empty(self) -> bool {
        &&& self.track_gain is None
        &&& self.track_peak is None
        &&& self.album_gain is None
        &&& self.album_peak is None
    }
}

impl ReplayGainMetadata {
    /// Nothing where nothing is said.
    pub fn unless_empty(self) -> (r: Option<ReplayGainMetadata>)
        ensures
            opt_view(r) == if self@.is_empty() {
                None
            } else {
                Some(self@)
            },
    {
        if self.track_gain.is_none() && self.track_peak.is_none() && self.album_gain.is_none() && self.album_peak.is_none() {
            None
        } else {
            Some(self)
        }
    }
}

/// Who had a part in a track.
#[derive(Debug, Clone)]
pub struct CreditsMetadata {
    pub composer: Option<String>,
    pub conductor: Option<String>,
    pub lyricist: Option<String>,
    pub arranger: Option<String>,
    pub writer: Option<String>,
    pub performer: Option<String>,
    pub performers: Option<Vec<String>>,
    pub producer: Option<String>,
    pub mix_engineer: Option<String>,
    pub engineer: Option<String>,
    pub label: Option<String>,
    pub publisher: Option<String>,
    pub remixer: Option<String>,
    pub director: Option<String>,
}

/// [`CreditsMetadata`] over mathematical values.
#[verifier::ext_equal]
pub struct CreditsView {
    pub composer: Option<Seq<char>>,
    pub conductor: Option<Seq<char>>,
    pub lyricist: Option<Seq<char>>,
    pub arranger: Option<Seq<char>>,
    pub writer: Option<Seq<char>>,
    pub performer: Option<Seq<char>>,
    pub performers: Option<Seq<Seq<char>>>,
    pub producer: Option<Seq<char>>,
    pub mix_engineer: Option<Seq<char>>,
    pub engineer: Option<Seq<char>>,
    pub label: Option<Seq<char>>,
    pub publisher: Option<Seq<char>>,
    pub remixer: Option<Seq<char>>,
    pub director: Option<Seq<char>>,
}

impl View for CreditsMetadata {
    type V = CreditsView;

    open spec fn view(&self) -> CreditsView {
        CreditsView {
            composer: opt_text(self.composer),
            conductor: opt_text(self.conductor),
            lyricist: opt_text(self.lyricist),
            arranger: opt_text(self.arranger),
            writer: opt_text(self.writer),
            performer: opt_text(self.performer),
            performers: opt_texts(self.performers),
            producer: opt_text(self.producer),
            mix_engineer: opt_text(self.mix_engineer),
            engineer: opt_text(self.engineer),
            label: opt_text(self.label),
            publisher: opt_text(self.publisher),
            remixer: opt_text(self.remixer),
            director: opt_text(self.director),
        }
    }
}

impl CreditsView {
    /// Whether nothing is said.
    pub open spec fn is_empty(self) -> bool {
        &&& self.composer is None
        &&& self.conductor is None
        &&& self.lyricist is None
        &&& self.arranger is None
        &&& self.writer is None
        &&& self.performer is None
        &&& self.performers is None
        &&& self.producer is None
        &&& self.mix_engineer is None
        &&& self.engineer is None
        &&& self.label is None
        &&& self.publisher is None
        &&& self.remixer is None
        &&& self.director is None
    }
}

impl CreditsMetadata {
    /// Nothing where nothing is said.
    pub fn unless_empty(self) -> (r: Option<CreditsMetadata>)
        ensures
            opt_view(r) == if self@.is_empty() {
                None
            } else {
                Some(self@)
            },
    {
        if self.composer.is_none() && self.conductor.is_none() && self.lyricist.is_none() && self.arranger.is_none() && self.writer.is_none() && self.performer.is_none() && self.performers.is_none() && self.producer.is_none() && self.mix_engineer.is_none() && self.engineer.is_none() && self.label.is_none() && self.publisher.is_none() && self.remixer.is_none() && self.director.is_none() {
            None
        } else {
            Some(self)
        }
    }
}

/// The work that a track is part of.
#[derive(Debug, Clone)]
pub struct ClassicalMetadata {
    pub work: Option<String>,
    pub movement: Option<String>,
    pub movement_number: Option<u32>,
    pub movement_total: Option<u32>,
    pub show_name: Option<String>,
    pub content_group: Option<String>,
}

/// [`ClassicalMetadata`] over mathematical values.
#[verifier::ext_equal]
pub struct ClassicalView {
    pub work: Option<Seq<char>>,
    pub movement: Option<Seq<char>>,
    pub movement_number: Option<u32>,
    pub movement_total: Option<u32>,
    pub show_name: Option<Seq<char>>,
    pub content_group: Option<Seq<char>>,
}

impl View for ClassicalMetadata {
    type V = ClassicalView;

    open spec fn view(&self) -> ClassicalView {
        ClassicalView {
            work: opt_text(self.work),
            movement: opt_text(self.movement),
            movement_number: self.movement_number,
            movement_total: self.movement_total,
            show_name: opt_text(self.show_name),
            content_group: opt_text(self.content_group),
        }
    }
}

impl ClassicalView {
    /// Whether nothing is said.
    pub open spec fn is_empty(self) -> bool {
        &&& self.work is None
        &&& self.movement is None
        &&& self.movement_number is None
        &&& self.movement_total is None
        &&& self.show_name is None
        &&& self.content_group is None
    }
}

impl ClassicalMetadata {
    /// Nothing where nothing is said.
    pub fn unless_empty(self) -> (r: Option<ClassicalMetadata>)
        ensures
            opt_view(r) == if self@.is_empty() {
                None
            } else {
                Some(self@)
            },
    {
        if self.work.is_none() && self.movement.is_none() && self.movement_number.is_none() && self.movement_total.is_none() && self.show_name.is_none() && self.content_group.is_none() {
            None
        } else {
            Some(self)
        }
    }
}

/// What was measured of a file.
#[derive(Debug, Clone, Copy, PartialEq, Eq, Structural)]
pub struct FileMetadata {
    pub duration_ms: Option<u64>,
    pub sample_rate_hz: Option<u32>,
    pub bit_depth: Option<u8>,
    pub channels: Option<u8>,
    pub channel_mask_bits: Option<u32>,
    pub overall_bitrate_kbps: Option<u32>,
    pub audio_bitrate_kbps: Option<u32>,
}

/// What came of a query.
#[derive(Debug, Clone, Copy, PartialEq, Eq, Structural)]
pub enum ResponseStatus {
    Found,
    NotFound,
    Unsupported,
    BadRequest,
}

/// The answer to a query.
#[derive(Debug, Clone)]
pub struct MetadataQueryResponse {
    pub v: u8,
    pub status: ResponseStatus,
    /// More on the status.
    pub detail: Option<String>,
    /// The profile that the answer was cut to.
    pub active_profile: Option<String>,
    pub title: Option<String>,
    /// The first artist.
    pub artist: Option<String>,
    pub album: Option<String>,
    pub album_artist: Option<String>,
    /// All artists.
    pub artists: Option<Vec<String>>,
    pub genre: Option<String>,
    pub track: Option<u32>,
    pub track_total: Option<u32>,
    pub disc: Option<u32>,
    pub disc_total: Option<u32>,
    pub year: Option<u32>,
    /// How long the track is.
    pub duration_ms: Option<u64>,
    pub subtitle: Option<String>,
    pub language: Option<String>,
    pub script: Option<String>,
    pub comment: Option<String>,
    pub mood: Option<String>,
    pub initial_key: Option<String>,
    /// The tempo as it is written.
    pub bpm: Option<String>,
    pub lyrics: Option<String>,
    pub sort: Option<SortMetadata>,
    pub credits: Option<CreditsMetadata>,
    pub classical: Option<ClassicalMetadata>,
    pub original: Option<OriginalMetadata>,
    pub dates: Option<DatesMetadata>,
    pub identifiers: Option<IdentifiersMetadata>,
    pub replay_gain: Option<ReplayGainMetadata>,
    pub file: Option<FileMetadata>,
    pub compilation: Option<bool>,
    pub podcast: Option<bool>,
    /// What no other field takes, under its own name.
    pub extras: Option<TextMap>,
}

/// [`MetadataQueryResponse`] over mathematical values.
#[verifier::ext_equal]
pub struct ResponseView {
    pub v: u8,
    pub status: ResponseStatus,
    pub detail: Option<Seq<char>>,
    pub active_profile: Option<Seq<char>>,
    pub title: Option<Seq<char>>,
    pub artist: Option<Seq<char>>,
    pub album: Option<Seq<char>>,
    pub album_artist: Option<Seq<char>>,
    pub artists: Option<Seq<Seq<char>>>,
    pub genre: Option<Seq<char>>,
    pub track: Option<u32>,
    pub track_total: Option<u32>,
    pub disc: Option<u32>,
    pub disc_total: Option<u32>,
    pub year: Option<u32>,
    pub duration_ms: Option<u64>,
    pub subtitle: Option<Seq<char>>,
    pub language: Option<Seq<char>>,
    pub script: Option<Seq<char>>,
    pub comment: Option<Seq<char>>,
    pub mood: Option<Seq<char>>,
    pub initial_key: Option<Seq<char>>,
    pub bpm: Option<Seq<char>>,
    pub lyrics: Option<Seq<char>>,
    pub sort: Option<SortView>,
    pub credits: Option<CreditsView>,
    pub classical: Option<ClassicalView>,
    pub original: Option<OriginalView>,
    pub dates: Option<DatesView>,
    pub identifiers: Option<IdentifiersView>,
    pub replay_gain: Option<ReplayGainView>,
    pub file: Option<FileMetadata>,
    pub compilation: Option<bool>,
    pub podcast: Option<bool>,
    pub extras: Option<Map<Seq<char>, Seq<char>>>,
}

impl View for MetadataQueryResponse {
    type V = ResponseView;

    open spec fn view(&self) -> ResponseView {
        ResponseView {
            v: self.v,
            status: self.status,
            detail: opt_text(self.detail),
            active_profile: opt_text(self.active_profile),
            title: opt_text(self.title),
            artist: opt_text(self.artist),
            album: opt_text(self.album),
            album_artist: opt_text(self.album_artist),
            artists: opt_texts(self.artists),
            genre: opt_text(self.genre),
            track: self.track,
            track_total: self.track_total,
            disc: self.disc,
            disc_total: self.disc_total,
            year: self.year,
            duration_ms: self.duration_ms,
            subtitle: opt_text(self.subtitle),
            language: opt_text(self.language),
            script: opt_text(self.script),
            comment: opt_text(self.comment),
            mood: opt_text(self.mood),
            initial_key: opt_text(self.initial_key),
            bpm: opt_text(self.bpm),
            lyrics: opt_text(self.lyrics),
            sort: opt_view(self.sort),
            credits: opt_view(self.credits),
            classical: opt_view(self.classical),
            original: opt_view(self.original),
            dates: opt_view(self.dates),
            identifiers: opt_view(self.identifiers),
            replay_gain: opt_view(self.replay_gain),
            file: self.file,
            compilation: self.compilation,
            podcast: self.podcast,
            extras: opt_view(self.extras),
        }
    }
}

/// An answer that says nothing but its status.
pub open spec fn bare_response(status: ResponseStatus, detail: Option<Seq<char>>) -> ResponseView {
    ResponseView {
        v: 1,
        status,
        detail,
        active_profile: None,
        title: None,
        artist: None,
        album: None,
        album_artist: None,
        artists: None,
        genre: None,
        track: None,
        track_total: None,
        disc: None,
        disc_total: None,
        year: None,
        duration_ms: None,
        subtitle: None,
        language: None,
        script: None,
        comment: None,
        mood: None,
        initial_key: None,
        bpm: None,
        lyrics: None,
        sort: None,
        credits: None,
        classical: None,
        original: None,
        dates: None,
        identifiers: None,
        replay_gain: None,
        file: None,
        compilation: None,
        podcast: None,
        extras: None,
    }
}

impl MetadataQueryResponse {
    /// An answer that says nothing but its status.
    pub fn v1_error(status: ResponseStatus, detail: Option<String>) -> (r: MetadataQueryResponse)
        ensures
            r@ == bare_response(status, opt_text(detail)),
    {
        MetadataQueryResponse {
            v: 1,
            status,
            detail,
            active_profile: None,
            title: None,
            artist: None,
            album: None,
            album_artist: None,
            artists: None,
            genre: None,
            track: None,
            track_total: None,
            disc: None,
            disc_total: None,
            year: None,
            duration_ms: None,
            subtitle: None,
            language: None,
            script: None,
            comment: None,
            mood: None,
            initial_key: None,
            bpm: None,
            lyrics: None,
            sort: None,
            credits: None,
            classical: None,
            original: None,
            dates: None,
            identifiers: None,
            replay_gain: None,
            file: None,
            compilation: None,
            podcast: None,
            extras: None,
        }
    }
}

/// Each field is seen under its own name, as it is.
pub proof fn fields_are_seen_under_their_names(
    sort_metadata: SortMetadata,
    original_metadata: OriginalMetadata,
    dates_metadata: DatesMetadata,
    identifiers_metadata: IdentifiersMetadata,
    replay_gain_metadata: ReplayGainMetadata,
    credits_metadata: CreditsMetadata,
    classical_metadata: ClassicalMetadata,
    metadata_query_response: MetadataQueryResponse,
)
    ensures
        sort_metadata@.track_title == opt_text(sort_metadata.track_title),
        sort_metadata@.album == opt_text(sort_metadata.album),
        sort_metadata@.track_artist == opt_text(sort_metadata.track_artist),
        sort_metadata@.album_artist == opt_text(sort_metadata.album_artist),
        sort_metadata@.composer == opt_text(sort_metadata.composer),
        original_metadata@.album == opt_text(original_metadata.album),
        original_metadata@.artist == opt_text(original_metadata.artist),
        original_metadata@.lyricist == opt_text(original_metadata.lyricist),
        original_metadata@.release_date == opt_text(original_metadata.release_date),
        dates_metadata@.recording == opt_text(dates_metadata.recording),
        dates_metadata@.release == opt_text(dates_metadata.release),
        dates_metadata@.original_release == opt_text(dates_metadata.original_release),
        identifiers_metadata@.isrc == opt_text(identifiers_metadata.isrc),
        identifiers_metadata@.catalog_number == opt_text(identifiers_metadata.catalog_number),
        identifiers_metadata@.barcode == opt_text(identifiers_metadata.barcode),
        identifiers_metadata@.musicbrainz_recording_id == opt_text(identifiers_metadata.musicbrainz_recording_id),
        identifiers_metadata@.musicbrainz_track_id == opt_text(identifiers_metadata.musicbrainz_track_id),
        identifiers_metadata@.musicbrainz_release_id == opt_text(identifiers_metadata.musicbrainz_release_id),
        identifiers_metadata@.musicbrainz_release_group_id == opt_text(identifiers_metadata.musicbrainz_release_group_id),
        identifiers_metadata@.musicbrainz_artist_id == opt_text(identifiers_metadata.musicbrainz_artist_id),
        identifiers_metadata@.musicbrainz_release_artist_id == opt_text(identifiers_metadata.musicbrainz_release_artist_id),
        identifiers_metadata@.musicbrainz_work_id == opt_text(identifiers_metadata.musicbrainz_work_id),
        replay_gain_metadata@.track_gain == opt_text(replay_gain_metadata.track_gain),
        replay_gain_metadata@.track_peak == opt_text(replay_gain_metadata.track_peak),
        replay_gain_metadata@.album_gain == opt_text(replay_gain_metadata.album_gain),
        replay_gain_metadata@.album_peak == opt_text(replay_gain_metadata.album_peak),
        credits_metadata@.composer == opt_text(credits_metadata.composer),
        credits_metadata@.conductor == opt_text(credits_metadata.conductor),
        credits_metadata@.lyricist == opt_text(credits_metadata.lyricist),
        credits_metadata@.arranger == opt_text(credits_metadata.arranger),
        credits_metadata@.writer == opt_text(credits_metadata.writer),
        credits_metadata@.performer == opt_text(credits_metadata.performer),
        credits_metadata@.performers == opt_texts(credits_metadata.performers),
        credits_metadata@.producer == opt_text(credits_metadata.producer),
        credits_metadata@.mix_engineer == opt_text(credits_metadata.mix_engineer),
        credits_metadata@.engineer == opt_text(credits_metadata.engineer),
        credits_metadata@.label == opt_text(credits_metadata.label),
        credits_metadata@.publisher == opt_text(credits_metadata.publisher),
        credits_metadata@.remixer == opt_text(credits_metadata.remixer),
        credits_metadata@.director == opt_text(credits_metadata.director),
        classical_metadata@.work == opt_text(classical_metadata.work),
        classical_metadata@.movement == opt_text(classical_metadata.movement),
        classical_metadata@.movement_number == classical_metadata.movement_number,
        classical_metadata@.movement_total == classical_metadata.movement_total,
        classical_metadata@.show_name == opt_text(classical_metadata.show_name),
        classical_metadata@.content_group == opt_text(classical_metadata.content_group),
        metadata_query_response@.v == metadata_query_response.v,
        metadata_query_response@.status == metadata_query_response.status,
        metadata_query_response@.detail == opt_text(metadata_query_response.detail),
        metadata_query_response@.active_profile == opt_text(metadata_query_response.active_profile),
        metadata_query_response@.title == opt_text(metadata_query_response.title),
        metadata_query_response@.artist == opt_text(metadata_query_response.artist),
        metadata_query_response@.album == opt_text(metadata_query_response.album),
        metadata_query_response@.album_artist == opt_text(metadata_query_response.album_artist),
        metadata_query_response@.artists == opt_texts(metadata_query_response.artists),
        metadata_query_response@.genre == opt_text(metadata_query_response.genre),
        metadata_query_response@.track == metadata_query_response.track,
        metadata_query_response@.track_total == metadata_query_response.track_total,
        metadata_query_response@.disc == metadata_query_response.disc,
        metadata_query_response@.disc_total == metadata_query_response.disc_total,
        metadata_query_response@.year == metadata_query_response.year,
        metadata_query_response@.duration_ms == metadata_query_response.duration_ms,
        metadata_query_response@.subtitle == opt_text(metadata_query_response.subtitle),
        metadata_query_response@.language == opt_text(metadata_query_response.language),
        metadata_query_response@.script == opt_text(metadata_query_response.script),
        metadata_query_response@.comment == opt_text(metadata_query_response.comment),
        metadata_query_response@.mood == opt_text(metadata_query_response.mood),
        metadata_query_response@.initial_key == opt_text(metadata_query_response.initial_key),
        metadata_query_response@.bpm == opt_text(metadata_query_response.bpm),
        metadata_query_response@.lyrics == opt_text(metadata_query_response.lyrics),
        metadata_query_response@.sort == opt_view(metadata_query_response.sort),
        metadata_query_response@.credits == opt_view(metadata_query_response.credits),
        metadata_query_response@.classical == opt_view(metadata_query_response.classical),
        metadata_query_response@.original == opt_view(metadata_query_response.original),
        metadata_query_response@.dates == opt_view(metadata_query_response.dates),
        metadata_query_response@.identifiers == opt_view(metadata_query_response.identifiers),
        metadata_query_response@.replay_gain == opt_view(metadata_query_response.replay_gain),
        metadata_query_response@.file == metadata_query_response.file,
        metadata_query_response@.compilation == metadata_query_response.compilation,
        metadata_query_response@.podcast == metadata_query_response.podcast,
        metadata_query_response@.extras == opt_view(metadata_query_response.extras),
{
}

} // verus!
