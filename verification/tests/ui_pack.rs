//! The shelves and widgets of the audio interface.

use evo_device_audio::ui_pack::{
    audio_shelves, audio_widget_kinds, ShelfCardinality, WidgetKindEnvelope, SHELF_BROWSE, SHELF_METERING,
    SHELF_PLAYBACK_TRANSPORT, SHELF_QUEUE,
};

#[test]
fn shelves_and_kinds_are_paired_by_id() {
    let shelves = audio_shelves();
    let kinds = audio_widget_kinds();
    assert_eq!(shelves.len(), 6);
    assert_eq!(kinds.len(), 6);
    // Every shelf's default widget must be present in the widget-kind set the same pack
    // registers.
    let kind_ids: Vec<&str> = kinds.iter().map(|k| k.id.as_str()).collect();
    for shelf in &shelves {
        let default = shelf.default_widget.as_deref().expect("Tier 2 shelf must declare a default widget");
        assert!(
            kind_ids.contains(&default),
            "shelf {:?} declares default widget {:?} not present in the kind set",
            shelf.id,
            default,
        );
    }
}

#[test]
fn every_default_widget_passes_its_shelf_envelope() {
    let shelves = audio_shelves();
    let kinds = audio_widget_kinds();
    let kind_by_id: std::collections::BTreeMap<&str, &WidgetKindEnvelope> =
        kinds.iter().map(|k| (k.id.as_str(), k)).collect();
    for shelf in &shelves {
        let default_id = shelf.default_widget.as_deref().unwrap();
        let envelope = kind_by_id.get(default_id).unwrap();
        // Every accepted size on the shelf must be inside the widget envelope's window so
        // the default never produces a stocking the envelope refuses.
        for size in &shelf.accepts_sizes {
            assert!(
                *size >= envelope.min_size && *size <= envelope.max_size,
                "shelf {:?} accepts size {:?} but kind {:?} envelope is {:?}..={:?}",
                shelf.id,
                size,
                envelope.id,
                envelope.min_size,
                envelope.max_size,
            );
        }
    }
}

#[test]
fn the_queue_shelf_is_where_it_is_expected() {
    assert!(audio_shelves().iter().any(|s| s.id == SHELF_QUEUE));
}

#[test]
fn one_transport_stands_on_its_shelf_and_any_number_of_queues() {
    let shelves = audio_shelves();
    let cardinality = |id: &str| shelves.iter().find(|s| s.id == id).map(|s| s.cardinality);
    assert_eq!(cardinality(SHELF_PLAYBACK_TRANSPORT), Some(ShelfCardinality::ExactlyOne));
    for id in [SHELF_QUEUE, SHELF_BROWSE, SHELF_METERING] {
        assert_eq!(cardinality(id), Some(ShelfCardinality::AnyToMany));
    }
}
