//! Metadata queries: from tags to answers.

use evo_device_audio::library::scan::MatchError;
use evo_device_audio::metadata::config::{MetadataProfile, PluginConfig};
use evo_device_audio::metadata::extract::{apply_metadata_profile, response_from_tag, tag_s, MAX_TEXT_FIELD_BYTES};
use evo_device_audio::metadata::plugin::{MetadataLocalPlugin, REQUEST_METADATA_QUERY};
use evo_device_audio::metadata::query::{
    query_metadata, MetadataQueryRequest, QueryAction, QueryReply, QueryTarget, SCHEME_MPD_ALBUM, SCHEME_MPD_PATH,
};
use evo_device_audio::metadata::response::{MetadataQueryResponse, ResponseStatus};
use evo_device_audio::metadata::tags::{
    AudioProperties, FileReading, ItemKey, ItemValue, TagItem, TagKey, TagReading,
};
use evo_device_audio::request::PluginRequest;
use lofty::tag::{Accessor, Tag, TagType};

fn key_of(key: &lofty::tag::ItemKey) -> ItemKey {
    match key {
        lofty::tag::ItemKey::Composer => ItemKey::Known(TagKey::Composer),
        lofty::tag::ItemKey::Conductor => ItemKey::Known(TagKey::Conductor),
        lofty::tag::ItemKey::Performer => ItemKey::Known(TagKey::Performer),
        lofty::tag::ItemKey::Work => ItemKey::Known(TagKey::Work),
        lofty::tag::ItemKey::Comment => ItemKey::Known(TagKey::Comment),
        lofty::tag::ItemKey::Unknown(name) => ItemKey::Unknown(name.clone()),
        _ => ItemKey::Known(TagKey::Elsewhere),
    }
}

fn value_of(value: &lofty::tag::ItemValue) -> ItemValue {
    match value {
        lofty::tag::ItemValue::Text(s) => ItemValue::Text(s.clone()),
        lofty::tag::ItemValue::Locator(s) => ItemValue::Locator(s.clone()),
        lofty::tag::ItemValue::Binary(b) => ItemValue::Binary(b.len()),
    }
}

fn reading(tag: &Tag) -> TagReading {
    TagReading {
        items: tag.items().map(|i| TagItem { key: key_of(i.key()), value: value_of(i.value()) }).collect(),
        title: tag.title().map(|s| s.to_string()),
        artist: tag.artist().map(|s| s.to_string()),
        album: tag.album().map(|s| s.to_string()),
        genre: tag.genre().map(|s| s.to_string()),
        track: tag.track(),
        track_total: tag.track_total(),
        disk: tag.disk(),
        disk_total: tag.disk_total(),
        year: tag.year(),
    }
}

#[test]
fn response_from_tag_maps_core_fields() {
    let mut tag = Tag::new(TagType::Id3v2);
    tag.set_title("Song".to_string());
    tag.set_artist("Band".to_string());
    tag.set_album("LP".to_string());
    tag.set_track(3);
    tag.set_genre("Rock".to_string());
    let r = response_from_tag(&reading(&tag), 120_000, None);
    assert_eq!(r.status, ResponseStatus::Found);
    assert_eq!(r.title.as_deref(), Some("Song"));
    assert_eq!(r.artist.as_deref(), Some("Band"));
    assert_eq!(r.album.as_deref(), Some("LP"));
    assert_eq!(r.genre.as_deref(), Some("Rock"));
    assert_eq!(r.track, Some(3));
    assert_eq!(r.duration_ms, Some(120_000));
    assert!(r.file.is_some());
    assert_eq!(r.file.as_ref().and_then(|f| f.duration_ms), Some(120_000));
}

#[test]
fn classical_credits_serialize() {
    let mut tag = Tag::new(TagType::VorbisComments);
    tag.insert_text(lofty::tag::ItemKey::Composer, "Johann Sebastian Bach".to_string());
    tag.insert_text(lofty::tag::ItemKey::Conductor, "J. S. Taktstock".to_string());
    assert!(tag.insert_text(lofty::tag::ItemKey::Performer, "Dresden State Orchestra".to_string(),));
    assert!(tag.insert_text(lofty::tag::ItemKey::Work, "BWV 1001 — Sonatas and Partitas".to_string(),));
    let r = response_from_tag(&reading(&tag), 0, None);
    let c = r.credits.as_ref().unwrap();
    assert_eq!(c.composer.as_deref(), Some("Johann Sebastian Bach"));
    assert_eq!(c.conductor.as_deref(), Some("J. S. Taktstock"));
    assert_eq!(c.performer.as_deref(), Some("Dresden State Orchestra"));
    let k = r.classical.as_ref().unwrap();
    assert_eq!(k.work.as_deref(), Some("BWV 1001 — Sonatas and Partitas"));
}

fn request_for(scheme: &str, value: &str) -> MetadataQueryRequest {
    MetadataQueryRequest { v: 1, target: QueryTarget { scheme: scheme.to_string(), value: value.to_string() } }
}

/// Reads a query out of its JSON text.
fn decoded(text: &str) -> QueryReply {
    QueryReply::Decoded(match serde_json::from_str::<serde_json::Value>(text) {
        Ok(v) => match (v["v"].as_u64(), v["target"]["scheme"].as_str(), v["target"]["value"].as_str()) {
            (Some(n), Some(s), Some(t)) => Ok(MetadataQueryRequest { v: n as u8, ..request_for(s, t) }),
            _ => Err("missing field".to_string()),
        },
        Err(e) => Err(e.to_string()),
    })
}

/// Runs a query to its end in a world that answers every action in one way.
fn run(
    profile: MetadataProfile,
    roots: &[&str],
    payload: &str,
    world: &dyn Fn(&QueryAction) -> QueryReply,
) -> (MetadataQueryResponse, Vec<String>) {
    let roots: Vec<String> = roots.iter().map(|r| r.to_string()).collect();
    let payload = payload.as_bytes().to_vec();
    let mut replies = vec![];
    let mut log = vec![];
    loop {
        match query_metadata(profile, &roots, &payload, &replies) {
            Ok(r) => return (r, log),
            Err(action) => {
                log.push(format!("{action:?}"));
                replies.push(match &action {
                    QueryAction::Decode(text) => decoded(text),
                    other => world(other),
                });
            }
        }
    }
}

fn nothing(action: &QueryAction) -> QueryReply {
    match action {
        QueryAction::CheckFile(_) => QueryReply::IsFile(false),
        QueryAction::FindAlbum { .. } => QueryReply::Found(Ok(None)),
        _ => unreachable!(),
    }
}

#[test]
fn not_found_for_http_url() {
    let (r, _) = run(
        MetadataProfile::default(),
        &[],
        r#"{"v":1,"target":{"scheme":"mpd-path","value":"http://x/a.flac"}}"#,
        &nothing,
    );
    assert_eq!(r.status, ResponseStatus::NotFound);
}

#[test]
fn standard_profile_strips_nested_and_sets_active_profile() {
    let mut tag = Tag::new(TagType::VorbisComments);
    assert!(tag.insert_text(lofty::tag::ItemKey::Composer, "C".to_string(),));
    let mut r = response_from_tag(&reading(&tag), 0, None);
    assert!(r.credits.is_some());
    apply_metadata_profile(&mut r, MetadataProfile::Standard);
    assert_eq!(r.active_profile.as_deref(), Some("standard"));
    assert!(r.credits.is_none());
    assert!(r.classical.is_none());
    assert!(r.extras.is_none());
}

#[test]
fn extras_surfaces_unknown_frames() {
    let mut tag = Tag::new(TagType::VorbisComments);
    tag.insert_unchecked(lofty::tag::TagItem::new(
        lofty::tag::ItemKey::Unknown("TXXX:my_vendor".to_string()),
        lofty::tag::ItemValue::Text("opaque value".to_string()),
    ));
    let r = response_from_tag(&reading(&tag), 0, None);
    let e = r.extras.as_ref().expect("extras");
    assert_eq!(e.get("TXXX:my_vendor").map(String::as_str), Some("opaque value"));
}

fn file_of(tag: &Tag) -> FileReading {
    FileReading {
        tag: Some(reading(tag)),
        properties: AudioProperties {
            duration_ms: 1000,
            sample_rate: Some(44_100),
            bit_depth: None,
            channels: Some(2),
            channel_mask_bits: None,
            overall_bitrate: Some(128),
            audio_bitrate: Some(120),
        },
    }
}

#[test]
fn mpd_album_resolves_first_matching_track() {
    let body = r##"{"v":1,"target":{"scheme":"mpd-album","value":"ScanA|ScanB"}}"##;
    let (r, log) = run(MetadataProfile::Extended, &["/lib"], body, &|action| match action {
        QueryAction::FindAlbum { artist, album } => {
            assert_eq!((artist.as_str(), album.as_str()), ("ScanA", "ScanB"));
            QueryReply::Found(Ok(Some("/lib/ScanA/ScanB/1.mp3".to_string())))
        }
        QueryAction::ReadFile(path) => {
            assert_eq!(path, "/lib/ScanA/ScanB/1.mp3");
            let mut tag = Tag::new(TagType::Id3v2);
            tag.set_artist("ScanA".to_string());
            tag.set_album("ScanB".to_string());
            tag.set_title("T1".to_string());
            QueryReply::Read(Ok(file_of(&tag)))
        }
        other => panic!("unexpected {other:?}"),
    });
    assert_eq!(r.status, ResponseStatus::Found);
    assert_eq!(r.title.as_deref(), Some("T1"));
    assert_eq!(r.active_profile.as_deref(), Some("extended"));
    assert!(r.detail.as_deref().unwrap_or("").contains("mpd-album"));
    assert_eq!(log.len(), 3);
}

#[test]
fn relative_paths_are_looked_for_in_every_root() {
    let body = r#"{"v":1,"target":{"scheme":"mpd-path","value":"A/t.flac"}}"#;
    let (r, log) = run(MetadataProfile::Standard, &["/one", "/two"], body, &|action| match action {
        QueryAction::CheckFile(path) => QueryReply::IsFile(path == "/two/A/t.flac"),
        QueryAction::ReadFile(path) => {
            assert_eq!(path, "/two/A/t.flac");
            QueryReply::Read(Err("unreadable".to_string()))
        }
        other => panic!("unexpected {other:?}"),
    });
    assert_ne!(r.status, ResponseStatus::Found);
    assert!(log.iter().any(|l| l.contains("/one/A/t.flac")));
}

#[test]
fn searches_that_fail_say_so() {
    let body = r#"{"v":1,"target":{"scheme":"mpd-album","value":"A|B"}}"#;
    let (r, _) = run(MetadataProfile::Standard, &["/lib"], body, &|_| {
        QueryReply::Found(Err(MatchError::LimitExceeded))
    });
    assert_ne!(r.status, ResponseStatus::Found);
    assert!(r.detail.is_some());
    let (r, _) = run(MetadataProfile::Standard, &["/lib"], body, &nothing);
    assert_eq!(r.status, ResponseStatus::NotFound);
}

#[test]
fn requests_that_cannot_be_understood_are_bad() {
    for body in [
        r#"{"v":2,"target":{"scheme":"mpd-path","value":"/a"}}"#,
        r#"{"v":1,"target":{"scheme":"mpd-album","value":"no pipe"}}"#,
        r#"{"v":1,"target":{"scheme":"spotify","value":"x"}}"#,
        r#"{"v":1}"#,
    ] {
        let (r, _) = run(MetadataProfile::Standard, &["/lib"], body, &nothing);
        assert_eq!(r.status, ResponseStatus::BadRequest, "{body}");
    }
    // Bytes that are no text are never handed on.
    let r = query_metadata(MetadataProfile::Standard, &vec![], &vec![0xFF, 0xFE], &vec![]).unwrap();
    assert_eq!(r.status, ResponseStatus::BadRequest);
}

fn loaded_plugin() -> MetadataLocalPlugin {
    let mut p = MetadataLocalPlugin::new();
    p.loaded = true;
    p.config = PluginConfig::defaults();
    p
}

fn ask(p: &mut MetadataLocalPlugin, payload: &[u8], world: &dyn Fn(&QueryAction) -> QueryReply) -> ResponseStatus {
    let req =
        PluginRequest { request_type: REQUEST_METADATA_QUERY.to_string(), past_deadline: false, payload: payload.to_vec() };
    let mut replies = vec![];
    loop {
        match p.handle_request(&req, &replies) {
            Ok(r) => return r.unwrap().status,
            Err(QueryAction::Decode(text)) => replies.push(decoded(&text)),
            Err(action) => replies.push(world(&action)),
        }
    }
}

#[test]
fn handle_bad_json() {
    let mut p = loaded_plugin();
    assert_eq!(ask(&mut p, b"not-json", &nothing), ResponseStatus::BadRequest);
    assert_eq!(p.requests_handled(), 1);
}

#[test]
fn handle_not_found_missing_file() {
    let mut p = loaded_plugin();
    let payload = format!(r#"{{"v":1,"target":{{"scheme":"{SCHEME_MPD_PATH}","value":"/nope/no.flac"}}}}"#);
    assert_eq!(ask(&mut p, payload.as_bytes(), &nothing), ResponseStatus::NotFound);
    assert_eq!(SCHEME_MPD_ALBUM, "mpd-album");
}

#[test]
fn long_texts_are_cut_at_a_character() {
    let item = |s: String| vec![TagItem { key: ItemKey::Known(TagKey::Comment), value: ItemValue::Text(s) }];
    // A character is kept where it starts before the end.
    let items = item(format!("abc{}", "é".repeat(10)));
    assert_eq!(tag_s(&items, TagKey::Comment, 6).unwrap(), "abcéé");
    assert_eq!(tag_s(&items, TagKey::Comment, 5).unwrap(), "abcé");
    assert_eq!(tag_s(&items, TagKey::Comment, MAX_TEXT_FIELD_BYTES).unwrap().len(), 23);
    assert!(tag_s(&items, TagKey::Mood, 6).is_none());
}

#[test]
fn comments_come_each_on_its_own_line() {
    let comment = |s: &str| TagItem { key: ItemKey::Known(TagKey::Comment), value: ItemValue::Text(s.to_string()) };
    let mut tag = reading(&Tag::new(TagType::VorbisComments));
    assert!(response_from_tag(&tag, 0, None).comment.is_none());
    tag.items = vec![comment("first")];
    assert_eq!(response_from_tag(&tag, 0, None).comment.as_deref(), Some("first"));
    tag.items = vec![comment("first"), comment("second")];
    assert_eq!(response_from_tag(&tag, 0, None).comment.as_deref(), Some("first\nsecond"));
}
