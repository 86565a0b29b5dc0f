//! The shelves of the audio device's screen, and the widgets that stand on them.

use crate::text::{opt_text, texts};
use vstd::prelude::*;

verus! {

/// The shelf of the transport bar.
pub const SHELF_PLAYBACK_TRANSPORT: &'static str = "audio.playback.transport";

/// The shelf of the queue.
pub const SHELF_QUEUE: &'static str = "audio.queue";

/// The shelf of the meters.
pub const SHELF_METERING: &'static str = "audio.metering";

/// The shelf of the library.
pub const SHELF_BROWSE: &'static str = "audio.browse";

/// The shelf of the search bar.
pub const SHELF_SEARCH: &'static str = "audio.search";

/// The shelf of the signal path.
pub const SHELF_SIGNAL_PATH: &'static str = "audio.signal_path";

/// The widget of the transport bar.
pub const KIND_PLAYER_TRANSPORT: &'static str = "audio.player.transport";

/// The widget of the queue.
pub const KIND_QUEUE_LIST: &'static str = "audio.queue.list";

/// The widget of a meter.
pub const KIND_METERING_PEAK: &'static str = "audio.metering.peak";

/// The widget of an entry of the library.
pub const KIND_BROWSE_TREE_ENTRY: &'static str = "audio.browse.tree.entry";

/// The widget of the search bar.
pub const KIND_SEARCH_UNIFIED: &'static str = "audio.search.unified";

/// The widget of the signal path.
pub const KIND_SIGNAL_PATH: &'static str = "audio.signal_path";

/// How many widgets stand on a shelf.
#[derive(Debug, Clone, Copy, PartialEq, Eq, Structural)]
pub enum ShelfCardinality {
    ExactlyOne,
    AtMostOne,
    AnyToMany,
}

/// How much of the screen a widget takes, the smaller first.
#[derive(Debug, Clone, Copy, PartialEq, Eq, PartialOrd, Ord, Structural)]
pub enum UiSize {
    Quarter,
    Third,
    Half,
    Full,
}

/// How widgets stand on a shelf.
#[derive(Debug, Clone, Copy, PartialEq, Eq, Structural)]
pub enum ShelfLayout {
    Single,
    List,
    GridResponsive,
}

/// In which order widgets stand on a shelf.
#[derive(Debug, Clone, Copy, PartialEq, Eq, Structural)]
pub enum ShelfOrder {
    ManifestDeclaration,
    Alphabetical,
}

/// The shape of a widget.
#[derive(Debug, Clone, Copy, PartialEq, Eq, Structural)]
pub enum UiAspect {
    Wide,
    Tall,
    Any,
}

/// Where a widget is drawn.
#[derive(Debug, Clone, Copy, PartialEq, Eq, Structural)]
pub enum UiMode {
    Inline,
}

impl UiSize {
    /// The place of a size among the sizes.
    pub open spec fn rank(self) -> int {
        match self {
            UiSize::Quarter => 0,
            UiSize::Third => 1,
            UiSize::Half => 2,
            UiSize::Full => 3,
        }
    }
}

/// A shelf.
#[derive(Debug, Clone)]
pub struct ShelfContract {
    pub id: String,
    pub label: Option<String>,
    pub cardinality: ShelfCardinality,
    /// The widgets that may stand on it.
    pub accepts_widgets: Vec<String>,
    pub accepts_sizes: Vec<UiSize>,
    pub layout: ShelfLayout,
    pub order_by: ShelfOrder,
    /// The widget that stands on it where nothing else does.
    pub default_widget: Option<String>,
    pub schema_version: u32,
    pub min_compatible_version: Option<u32>,
}

/// [`ShelfContract`] over mathematical values.
#[verifier::ext_equal]
pub struct ShelfView {
    pub id: Seq<char>,
    pub label: Option<Seq<char>>,
    pub cardinality: ShelfCardinality,
    pub accepts_widgets: Seq<Seq<char>>,
    pub accepts_sizes: Seq<UiSize>,
    pub layout: ShelfLayout,
    pub order_by: ShelfOrder,
    pub default_widget: Option<Seq<char>>,
    pub schema_version: u32,
    pub min_compatible_version: Option<u32>,
}

impl View for ShelfContract {
    type V = ShelfView;

    open spec fn view(&self) -> ShelfView {
        ShelfView {
            id: self.id@,
            label: opt_text(self.label),
            cardinality: self.cardinality,
            accepts_widgets: texts(self.accepts_widgets@),
            accepts_sizes: self.accepts_sizes@,
            layout: self.layout,
            order_by: self.order_by,
            default_widget: opt_text(self.default_widget),
            schema_version: self.schema_version,
            min_compatible_version: self.min_compatible_version,
        }
    }
}

/// The views of shelves.
pub open spec fn shelf_views(v: Seq<ShelfContract>) -> Seq<ShelfView> {
    v.map_values(|s: ShelfContract| s@)
}

/// A widget.
#[derive(Debug, Clone)]
pub struct WidgetKindEnvelope {
    pub id: String,
    pub min_size: UiSize,
    pub ideal_size: UiSize,
    pub max_size: UiSize,
    pub aspect_ratio: UiAspect,
    pub mode: UiMode,
    pub schema_version: u32,
}

/// [`WidgetKindEnvelope`] over mathematical values.
#[verifier::ext_equal]
pub struct WidgetView {
    pub id: Seq<char>,
    pub min_size: UiSize,
    pub ideal_size: UiSize,
    pub max_size: UiSize,
    pub aspect_ratio: UiAspect,
    pub mode: UiMode,
    pub schema_version: u32,
}

impl View for WidgetKindEnvelope {
    type V = WidgetView;

    open spec fn view(&self) -> WidgetView {
        WidgetView {
            id: self.id@,
            min_size: self.min_size,
            ideal_size: self.ideal_size,
            max_size: self.max_size,
            aspect_ratio: self.aspect_ratio,
            mode: self.mode,
            schema_version: self.schema_version,
        }
    }
}

/// The views of widgets.
pub open spec fn widget_views(v: Seq<WidgetKindEnvelope>) -> Seq<WidgetView> {
    v.map_values(|w: WidgetKindEnvelope| w@)
}

/// A shelf on which one widget may stand, which stands there by default.
pub open spec fn shelf_for(
    id: Seq<char>,
    label: Seq<char>,
    cardinality: ShelfCardinality,
    widget: Seq<char>,
    sizes: Seq<UiSize>,
    layout: ShelfLayout,
    order_by: ShelfOrder,
) -> ShelfView {
    ShelfView {
        id,
        label: Some(label),
        cardinality,
        accepts_widgets: seq![widget],
        accepts_sizes: sizes,
        layout,
        order_by,
        default_widget: Some(widget),
        schema_version: 1,
        min_compatible_version: None,
    }
}

/// A widget that is drawn in place.
pub open spec fn widget_for(
    id: Seq<char>,
    min_size: UiSize,
    ideal_size: UiSize,
    max_size: UiSize,
    aspect_ratio: UiAspect,
) -> WidgetView {
    WidgetView { id, min_size, ideal_size, max_size, aspect_ratio, mode: UiMode::Inline, schema_version: 1 }
}

/// The shelves of the device.
pub open spec fn device_shelves() -> Seq<ShelfView> {
    seq![
        shelf_for(
            SHELF_PLAYBACK_TRANSPORT@,
            "Playback"@,
            ShelfCardinality::ExactlyOne,
            KIND_PLAYER_TRANSPORT@,
            seq![UiSize::Full],
            ShelfLayout::Single,
            ShelfOrder::ManifestDeclaration,
        ),
        shelf_for(
            SHELF_QUEUE@,
            "Queue"@,
            ShelfCardinality::AnyToMany,
            KIND_QUEUE_LIST@,
            seq![UiSize::Half, UiSize::Full],
            ShelfLayout::List,
            ShelfOrder::ManifestDeclaration,
        ),
        shelf_for(
            SHELF_METERING@,
            "Metering"@,
            ShelfCardinality::AnyToMany,
            KIND_METERING_PEAK@,
            seq![UiSize::Quarter, UiSize::Third, UiSize::Half],
            ShelfLayout::GridResponsive,
            ShelfOrder::ManifestDeclaration,
        ),
        shelf_for(
            SHELF_BROWSE@,
            "Browse"@,
            ShelfCardinality::AnyToMany,
            KIND_BROWSE_TREE_ENTRY@,
            seq![UiSize::Third, UiSize::Half, UiSize::Full],
            ShelfLayout::List,
            ShelfOrder::Alphabetical,
        ),
        shelf_for(
            SHELF_SEARCH@,
            "Search"@,
            ShelfCardinality::AtMostOne,
            KIND_SEARCH_UNIFIED@,
            seq![UiSize::Half, UiSize::Full],
            ShelfLayout::Single,
            ShelfOrder::ManifestDeclaration,
        ),
        shelf_for(
            SHELF_SIGNAL_PATH@,
            "Signal path"@,
            ShelfCardinality::AtMostOne,
            KIND_SIGNAL_PATH@,
            seq![UiSize::Half, UiSize::Full],
            ShelfLayout::Single,
            ShelfOrder::ManifestDeclaration,
        ),
    ]
}

/// The widgets of the device.
pub open spec fn device_widgets() -> Seq<WidgetView> {
    seq![
        widget_for(KIND_PLAYER_TRANSPORT@, UiSize::Half, UiSize::Full, UiSize::Full, UiAspect::Wide),
        widget_for(KIND_QUEUE_LIST@, UiSize::Third, UiSize::Half, UiSize::Full, UiAspect::Tall),
        widget_for(KIND_METERING_PEAK@, UiSize::Quarter, UiSize::Third, UiSize::Half, UiAspect::Tall),
        widget_for(KIND_BROWSE_TREE_ENTRY@, UiSize::Third, UiSize::Half, UiSize::Full, UiAspect::Any),
        widget_for(KIND_SEARCH_UNIFIED@, UiSize::Half, UiSize::Half, UiSize::Full, UiAspect::Wide),
        widget_for(KIND_SIGNAL_PATH@, UiSize::Half, UiSize::Full, UiSize::Full, UiAspect::Wide),
    ]
}

fn shelf(
    id: &str,
    label: &str,
    cardinality: ShelfCardinality,
    widget: &str,
    accepts_sizes: Vec<UiSize>,
    layout: ShelfLayout,
    order_by: ShelfOrder,
) -> (r: ShelfContract)
    ensures
        r@ == shelf_for(id@, label@, cardinality, widget@, accepts_sizes@, layout, order_by),
{
    let accepts_widgets = vec![widget.to_owned()];
    proof {
        assert(texts(accepts_widgets@) =~= seq![widget@]);
    }
    ShelfContract {
        id: id.to_owned(),
        label: Some(label.to_owned()),
        cardinality,
        accepts_widgets,
        accepts_sizes,
        layout,
        order_by,
        default_widget: Some(widget.to_owned()),
        schema_version: 1,
        min_compatible_version: None,
    }
}

fn widget(
    id: &str,
    min_size: UiSize,
    ideal_size: UiSize,
    max_size: UiSize,
    aspect_ratio: UiAspect,
) -> (r: WidgetKindEnvelope)
    ensures
        r@ == widget_for(id@, min_size, ideal_size, max_size, aspect_ratio),
{
    WidgetKindEnvelope {
        id: id.to_owned(),
        min_size,
        ideal_size,
        max_size,
        aspect_ratio,
        mode: UiMode::Inline,
        schema_version: 1,
    }
}

/// The shelves of the device.
pub fn audio_shelves() -> (r: Vec<ShelfContract>)
    ensures
        shelf_views(r@) == device_shelves(),
{
    let transport = vec![UiSize::Full];
    let queue = vec![UiSize::Half, UiSize::Full];
    let metering = vec![UiSize::Quarter, UiSize::Third, UiSize::Half];
    let browse = vec![UiSize::Third, UiSize::Half, UiSize::Full];
    let search = vec![UiSize::Half, UiSize::Full];
    let signal = vec![UiSize::Half, UiSize::Full];
    proof {
        assert(transport@ =~= seq![UiSize::Full]);
        assert(queue@ =~= seq![UiSize::Half, UiSize::Full]);
        assert(metering@ =~= seq![UiSize::Quarter, UiSize::Third, UiSize::Half]);
        assert(browse@ =~= seq![UiSize::Third, UiSize::Half, UiSize::Full]);
        assert(search@ =~= seq![UiSize::Half, UiSize::Full]);
        assert(signal@ =~= seq![UiSize::Half, UiSize::Full]);
    }
    let r = vec![
        shelf(
            SHELF_PLAYBACK_TRANSPORT,
            "Playback",
            ShelfCardinality::ExactlyOne,
            KIND_PLAYER_TRANSPORT,
            transport,
            ShelfLayout::Single,
            ShelfOrder::ManifestDeclaration,
        ),
        shelf(
            SHELF_QUEUE,
            "Queue",
            ShelfCardinality::AnyToMany,
            KIND_QUEUE_LIST,
            queue,
            ShelfLayout::List,
            ShelfOrder::ManifestDeclaration,
        ),
        shelf(
            SHELF_METERING,
            "Metering",
            ShelfCardinality::AnyToMany,
            KIND_METERING_PEAK,
            metering,
            ShelfLayout::GridResponsive,
            ShelfOrder::ManifestDeclaration,
        ),
        shelf(
            SHELF_BROWSE,
            "Browse",
            ShelfCardinality::AnyToMany,
            KIND_BROWSE_TREE_ENTRY,
            browse,
            ShelfLayout::List,
            ShelfOrder::Alphabetical,
        ),
        shelf(
            SHELF_SEARCH,
            "Search",
            ShelfCardinality::AtMostOne,
            KIND_SEARCH_UNIFIED,
            search,
            ShelfLayout::Single,
            ShelfOrder::ManifestDeclaration,
        ),
        shelf(
            SHELF_SIGNAL_PATH,
            "Signal path",
            ShelfCardinality::AtMostOne,
            KIND_SIGNAL_PATH,
            signal,
            ShelfLayout::Single,
            ShelfOrder::ManifestDeclaration,
        ),
    ];
    proof {
        assert(shelf_views(r@) =~= device_shelves());
    }
    r
}

/// The widgets of the device.
pub fn audio_widget_kinds() -> (r: Vec<WidgetKindEnvelope>)
    ensures
        widget_views(r@) == device_widgets(),
{
    let r = vec![
        widget(KIND_PLAYER_TRANSPORT, UiSize::Half, UiSize::Full, UiSize::Full, UiAspect::Wide),
        widget(KIND_QUEUE_LIST, UiSize::Third, UiSize::Half, UiSize::Full, UiAspect::Tall),
        widget(KIND_METERING_PEAK, UiSize::Quarter, UiSize::Third, UiSize::Half, UiAspect::Tall),
        widget(KIND_BROWSE_TREE_ENTRY, UiSize::Third, UiSize::Half, UiSize::Full, UiAspect::Any),
        widget(KIND_SEARCH_UNIFIED, UiSize::Half, UiSize::Half, UiSize::Full, UiAspect::Wide),
        widget(KIND_SIGNAL_PATH, UiSize::Half, UiSize::Full, UiSize::Full, UiAspect::Wide),
    ];
    proof {
        assert(widget_views(r@) =~= device_widgets());
    }
    r
}

/// Every shelf has a default widget, which may stand on it and is one of the widgets.
pub proof fn shelves_have_their_widgets(i: int)
    requires
        0 <= i < device_shelves().len(),
    ensures
        device_shelves()[i].default_widget is Some,
        device_shelves()[i].accepts_widgets.contains(device_shelves()[i].default_widget->0),
        exists|k: int|
            0 <= k < device_widgets().len() && (#[trigger] device_widgets()[k]).id == device_shelves()[i].default_widget->0,
{
    let s = device_shelves()[i];
    assert(s.accepts_widgets[0] == s.default_widget->0);
    assert(device_widgets()[i].id == s.default_widget->0);
}

/// Every size that a shelf accepts is one at which its default widget can be drawn.
pub proof fn widgets_fit_their_shelves(i: int, k: int)
    requires
        0 <= i < device_shelves().len(),
        0 <= k < device_shelves()[i].accepts_sizes.len(),
    ensures
        device_widgets()[i].id == device_shelves()[i].default_widget->0,
        device_widgets()[i].min_size.rank() <= device_shelves()[i].accepts_sizes[k].rank()
            <= device_widgets()[i].max_size.rank(),
{
}

/// The screen has six shelves, each under its own name.
pub proof fn shelves_have_their_names()
    ensures
        device_shelves().len() == 6,
        device_widgets().len() == 6,
        device_shelves()[0].id == "audio.playback.transport"@ && device_shelves()[0].label == Some("Playback"@),
        device_shelves()[1].id == "audio.queue"@ && device_shelves()[1].label == Some("Queue"@),
        device_shelves()[2].id == "audio.metering"@ && device_shelves()[2].label == Some("Metering"@),
        device_shelves()[3].id == "audio.browse"@ && device_shelves()[3].label == Some("Browse"@),
        device_shelves()[4].id == "audio.search"@ && device_shelves()[4].label == Some("Search"@),
        device_shelves()[5].id == "audio.signal_path"@ && device_shelves()[5].label == Some("Signal path"@),
        device_widgets()[0].id == "audio.player.transport"@,
        device_widgets()[1].id == "audio.queue.list"@,
        device_widgets()[2].id == "audio.metering.peak"@,
        device_widgets()[3].id == "audio.browse.tree.entry"@,
        device_widgets()[4].id == "audio.search.unified"@,
        device_widgets()[5].id == "audio.signal_path"@,
{
}

/// The player is always there and alone; search and signal path are there at most once;
/// queue, meters and browser hold as many as there are, and the browser alone sorts them.
pub proof fn shelves_hold_what_they_should(i: int)
    requires
        0 <= i < device_shelves().len(),
    ensures
        device_shelves()[i].cardinality == ShelfCardinality::ExactlyOne <==> i == 0,
        device_shelves()[i].cardinality == ShelfCardinality::AtMostOne <==> i == 4 || i == 5,
        device_shelves()[i].cardinality == ShelfCardinality::AnyToMany <==> 1 <= i <= 3,
        device_shelves()[i].layout == ShelfLayout::Single <==> device_shelves()[i].cardinality
            != ShelfCardinality::AnyToMany,
        device_shelves()[i].layout == ShelfLayout::GridResponsive <==> i == 2,
        device_shelves()[i].order_by == ShelfOrder::Alphabetical <==> i == 3,
        device_shelves()[i].schema_version == 1,
        device_widgets()[i].schema_version == 1,
        device_widgets()[i].min_size.rank() <= device_widgets()[i].ideal_size.rank() <= device_widgets()[i].max_size.rank(),
        device_widgets()[i].aspect_ratio == UiAspect::Tall <==> i == 1 || i == 2,
        device_widgets()[i].aspect_ratio == UiAspect::Any <==> i == 3,
{
}

/// Each field is seen under its own name, as it is.
pub proof fn fields_are_seen_under_their_names(
    shelf_contract: ShelfContract,
    widget_kind_envelope: WidgetKindEnvelope,
)
    ensures
        shelf_contract@.id == shelf_contract.id@,
        shelf_contract@.label == opt_text(shelf_contract.label),
        shelf_contract@.cardinality == shelf_contract.cardinality,
        shelf_contract@.accepts_widgets == texts(shelf_contract.accepts_widgets@),
        shelf_contract@.accepts_sizes == shelf_contract.accepts_sizes@,
        shelf_contract@.layout == shelf_contract.layout,
        shelf_contract@.order_by == shelf_contract.order_by,
        shelf_contract@.default_widget == opt_text(shelf_contract.default_widget),
        shelf_contract@.schema_version == shelf_contract.schema_version,
        shelf_contract@.min_compatible_version == shelf_contract.min_compatible_version,
        widget_kind_envelope@.id == widget_kind_envelope.id@,
        widget_kind_envelope@.min_size == widget_kind_envelope.min_size,
        widget_kind_envelope@.ideal_size == widget_kind_envelope.ideal_size,
        widget_kind_envelope@.max_size == widget_kind_envelope.max_size,
        widget_kind_envelope@.aspect_ratio == widget_kind_envelope.aspect_ratio,
        widget_kind_envelope@.mode == widget_kind_envelope.mode,
        widget_kind_envelope@.schema_version == widget_kind_envelope.schema_version,
{
}

} // verus!
