//! The widget trees of the music card.
//!
//! Each display mode of the card is described here as a [`WidgetSpec`]
//! tree: plain data naming the kind of each widget, its size requests,
//! alignment, CSS classes and children. Every child size is a hand-chosen
//! integer fraction of the card's width and height, computed with
//! [`scaled`] and capped with [`min_size`]. The surrounding application
//! walks a tree and creates the real GTK widgets from it.

use vstd::prelude::*;

verus! {

/// Orientation of a box container.
#[derive(Clone, Copy, Debug, PartialEq, Eq, Structural)]
pub enum Orientation {
    Horizontal,
    Vertical,
}

/// Alignment of a widget inside the space its parent gives it.
#[derive(Clone, Copy, Debug, PartialEq, Eq, Structural)]
pub enum Align {
    Fill,
    Start,
    End,
    Center,
}

/// The kind of widget a tree node stands for.
#[derive(Clone, Copy, Debug, PartialEq, Eq, Structural)]
pub enum WidgetKind {
    /// A box that lays its children out along its orientation.
    Container,
    /// A text label; the node's `text` is what it shows.
    Label,
    /// An image; the node's `text` is the file it is loaded from.
    Image,
    /// A clickable button; the node's `text` is its label.
    Button,
    /// A slider; its range and increments are settled at render time.
    Scale,
}

/// Properties common to every widget node. A size request of `-1` leaves
/// the widget at its natural size.
pub struct WidgetProps {
    pub width_request: i32,
    pub height_request: i32,
    pub halign: Align,
    pub valign: Align,
    pub hexpand: bool,
    pub vexpand: bool,
    pub margin_start: i32,
    pub margin_end: i32,
    pub css_classes: Vec<String>,
}

/// One node of a widget tree. Only a `Container` node has children.
pub struct WidgetSpec {
    pub kind: WidgetKind,
    pub orientation: Orientation,
    pub homogeneous: bool,
    /// Label text, button label or image file, by the node's kind.
    pub text: String,
    /// Whether a label may wrap its text over several lines.
    pub wrap: bool,
    pub props: WidgetProps,
    pub children: Vec<WidgetSpec>,
}

/// `v * num / den` over the integers: the fraction `num / den` of a size,
/// rounded down.
pub open spec fn spec_frac(v: int, num: int, den: int) -> int {
    v * num / den
}

/// The smaller of two sizes.
pub open spec fn spec_min(a: int, b: int) -> int {
    if a <= b {
        a
    } else {
        b
    }
}

/// A widget tree is well formed when only container nodes have children,
/// at every depth. A renderer walking a well-formed tree recurses only
/// into containers.
pub open spec fn wf_widget(w: WidgetSpec) -> bool
    decreases w,
{
    &&& (w.kind is Container || w.children@.len() == 0)
    &&& (forall|i: int| 0 <= i < w.children@.len() ==> wf_widget(#[trigger] w.children@[i]))
}

/// The fraction `num / den` of the size `v`, rounded down.
pub fn scaled(v: i32, num: i32, den: i32) -> (r: i32)
    requires
        0 <= v,
        0 <= num,
        1 <= den,
        v * num <= i32::MAX,
    ensures
        r == spec_frac(v as int, num as int, den as int),
{
    v * num / den
}

/// The smaller of two sizes.
pub fn min_size(a: i32, b: i32) -> (r: i32)
    ensures
        r == spec_min(a as int, b as int),
{
    if a <= b {
        a
    } else {
        b
    }
}

/// Properties with the given size requests, alignment and expansion, no
/// margins and no CSS classes.
fn props(w: i32, h: i32, halign: Align, valign: Align, hexpand: bool, vexpand: bool) -> (r:
    WidgetProps)
    ensures
        r.width_request == w,
        r.height_request == h,
        r.halign == halign,
        r.valign == valign,
        r.hexpand == hexpand,
        r.vexpand == vexpand,
        r.margin_start == 0,
        r.margin_end == 0,
        r.css_classes@.len() == 0,
{
    WidgetProps {
        width_request: w,
        height_request: h,
        halign,
        valign,
        hexpand,
        vexpand,
        margin_start: 0,
        margin_end: 0,
        css_classes: Vec::new(),
    }
}

/// A single CSS class.
fn css(class: &str) -> (r: Vec<String>)
    ensures
        r@.len() == 1,
        r@[0]@ == class@,
{
    let mut v: Vec<String> = Vec::new();
    v.push(class.to_string());
    v
}

/// A container node.
fn container(orientation: Orientation, homogeneous: bool, p: WidgetProps, children: Vec<
    WidgetSpec>) -> (r: WidgetSpec)
    requires
        forall|i: int| 0 <= i < children@.len() ==> wf_widget(#[trigger] children@[i]),
    ensures
        wf_widget(r),
        r.kind is Container,
        r.orientation == orientation,
        r.homogeneous == homogeneous,
        r.text@.len() == 0,
        !r.wrap,
        r.props == p,
        r.children == children,
{
    WidgetSpec {
        kind: WidgetKind::Container,
        orientation,
        homogeneous,
        text: String::new(),
        wrap: false,
        props: p,
        children,
    }
}

/// A leaf node of the given kind, with `text` as its label, button label
/// or image file.
fn leaf(kind: WidgetKind, text: &str, wrap: bool, p: WidgetProps) -> (r: WidgetSpec)
    ensures
        wf_widget(r),
        r.kind == kind,
        r.orientation is Horizontal,
        !r.homogeneous,
        r.text@ == text@,
        r.wrap == wrap,
        r.props == p,
        r.children@.len() == 0,
{
    WidgetSpec {
        kind,
        orientation: Orientation::Horizontal,
        homogeneous: false,
        text: text.to_string(),
        wrap,
        props: p,
        children: Vec::new(),
    }
}

/// The node's size requests, alignment, expansion and margins are exactly
/// the given ones, with no margins.
pub open spec fn props_are(
    p: WidgetProps,
    w: int,
    h: int,
    halign: Align,
    valign: Align,
    hexpand: bool,
    vexpand: bool,
) -> bool {
    &&& p.width_request == w
    &&& p.height_request == h
    &&& p.halign == halign
    &&& p.valign == valign
    &&& p.hexpand == hexpand
    &&& p.vexpand == vexpand
    &&& p.margin_start == 0
    &&& p.margin_end == 0
}

/// The node carries exactly one CSS class.
pub open spec fn has_css(p: WidgetProps, class: Seq<char>) -> bool {
    &&& p.css_classes@.len() == 1
    &&& p.css_classes@[0]@ == class
}

/// The node carries no CSS class.
pub open spec fn no_css(p: WidgetProps) -> bool {
    p.css_classes@.len() == 0
}

/// A placeholder image, `size` on a side, centered and growing sideways.
pub open spec fn is_pane_image(r: WidgetSpec, file: Seq<char>, size: int) -> bool {
    &&& r.kind is Image
    &&& r.text@ == file
    &&& !r.wrap
    &&& props_are(r.props, size, size, Align::Center, Align::Fill, true, false)
    &&& no_css(r.props)
    &&& r.children@.len() == 0
}

/// The album-art pane: a box `size` wide holding the placeholder artwork
/// at 7/10 of that size.
pub open spec fn is_album_art(r: WidgetSpec, size: int) -> bool {
    &&& r.kind is Container
    &&& r.orientation is Horizontal
    &&& !r.homogeneous
    &&& props_are(r.props, size, -1, Align::Fill, Align::Fill, false, false)
    &&& has_css(r.props, "album-art"@)
    &&& r.children@.len() == 1
    &&& is_pane_image(
        r.children@[0],
        "/home/david/Pictures/Music_not_playing.svg"@,
        spec_frac(size, 7, 10),
    )
}

/// A song- or artist-name line: a start-aligned label that grows sideways.
pub open spec fn is_name_label(r: WidgetSpec, text: Seq<char>, class: Seq<char>) -> bool {
    &&& r.kind is Label
    &&& r.text@ == text
    &&& !r.wrap
    &&& props_are(r.props, -1, -1, Align::Start, Align::Center, true, false)
    &&& has_css(r.props, class)
    &&& r.children@.len() == 0
}

/// The inner column with the song and artist names.
pub open spec fn is_name_column(r: WidgetSpec) -> bool {
    &&& r.kind is Container
    &&& r.orientation is Vertical
    &&& !r.homogeneous
    &&& props_are(r.props, -1, -1, Align::Start, Align::Center, false, false)
    &&& has_css(r.props, "info-names2"@)
    &&& r.children@.len() == 2
    &&& is_name_label(r.children@[0], "Song name"@, "song-name"@)
    &&& is_name_label(r.children@[1], "Artist name"@, "artist-name"@)
}

/// The track-info pane: half the card wide, as tall as its row, holding
/// the name column.
pub open spec fn is_music_info(r: WidgetSpec, width: int, height: int) -> bool {
    &&& r.kind is Container
    &&& r.orientation is Vertical
    &&& r.homogeneous
    &&& props_are(
        r.props,
        spec_frac(width, 5, 10),
        height,
        Align::Start,
        Align::Center,
        false,
        false,
    )
    &&& has_css(r.props, "info-names1"@)
    &&& r.children@.len() == 1
    &&& is_name_column(r.children@[0])
}

/// The visualizer pane: a box `size` wide holding the placeholder
/// visualizer image at 8/10 of that size.
pub open spec fn is_visualizer(r: WidgetSpec, size: int) -> bool {
    &&& r.kind is Container
    &&& r.orientation is Horizontal
    &&& !r.homogeneous
    &&& props_are(r.props, size, -1, Align::Fill, Align::Fill, false, false)
    &&& has_css(r.props, "visualizer"@)
    &&& r.children@.len() == 1
    &&& is_pane_image(
        r.children@[0],
        "/home/david/Pictures/visualizer_tmp.jpeg"@,
        spec_frac(size, 8, 10),
    )
}

/// The info row of the expanded card: album art, track info, visualizer.
/// The art is square within 3/10 of the width, the info takes half the
/// width, the visualizer is square within 2/10 of the width.
pub open spec fn is_info_pane(r: WidgetSpec, width: int, height: int) -> bool {
    &&& r.kind is Container
    &&& r.orientation is Horizontal
    &&& !r.homogeneous
    &&& props_are(r.props, width, height, Align::Center, Align::Center, false, false)
    &&& has_css(r.props, "info"@)
    &&& r.children@.len() == 3
    &&& is_album_art(r.children@[0], spec_min(height, spec_frac(width, 3, 10)))
    &&& is_music_info(r.children@[1], width, height)
    &&& is_visualizer(r.children@[2], spec_min(height, spec_frac(width, 2, 10)))
}

/// An elapsed- or remaining-time label, 15/100 of the row wide.
pub open spec fn is_time_label(r: WidgetSpec, text: Seq<char>, class: Seq<char>, w: int) -> bool {
    &&& r.kind is Label
    &&& r.text@ == text
    &&& !r.wrap
    &&& props_are(r.props, w, -1, Align::Center, Align::Center, false, false)
    &&& has_css(r.props, class)
    &&& r.children@.len() == 0
}

/// The seek slider, `w` wide.
pub open spec fn is_progress_bar(r: WidgetSpec, w: int) -> bool {
    &&& r.kind is Scale
    &&& r.text@.len() == 0
    &&& props_are(r.props, w, -1, Align::Center, Align::Center, false, false)
    &&& has_css(r.props, "progress-bar"@)
    &&& r.children@.len() == 0
}

/// The progress row of the expanded card: elapsed time, seek slider,
/// remaining time, at 15/100, 7/10 and 15/100 of the row's width.
pub open spec fn is_progress_pane(r: WidgetSpec, width: int, height: int) -> bool {
    &&& r.kind is Container
    &&& r.orientation is Horizontal
    &&& !r.homogeneous
    &&& props_are(r.props, width, height, Align::Center, Align::Center, false, false)
    &&& has_css(r.props, "progress"@)
    &&& r.children@.len() == 3
    &&& is_time_label(r.children@[0], "0:00"@, "elapsed-time"@, spec_frac(width, 15, 100))
    &&& is_progress_bar(r.children@[1], spec_frac(width, 7, 10))
    &&& is_time_label(r.children@[2], "-3:42"@, "remaining-time"@, spec_frac(width, 15, 100))
}

/// A playback-control button, `w` wide and `h` tall, centered.
pub open spec fn is_control_button(r: WidgetSpec, label: Seq<char>, h: int, w: int) -> bool {
    &&& r.kind is Button
    &&& r.text@ == label
    &&& props_are(r.props, w, h, Align::Center, Align::Center, false, false)
    &&& r.children@.len() == 0
}

/// The controls row of the expanded card: shuffle, previous, play/pause,
/// next and repeat buttons. Shuffle and repeat take 15/100 of the row's
/// width, the middle three 2/10; every button's height is capped at the
/// row's height.
pub open spec fn is_controls_pane(r: WidgetSpec, width: int, height: int) -> bool {
    let small = spec_frac(width, 15, 100);
    let big = spec_frac(width, 2, 10);
    &&& r.kind is Container
    &&& r.orientation is Horizontal
    &&& r.homogeneous
    &&& props_are(r.props, width, height, Align::Center, Align::Center, false, false)
    &&& has_css(r.props, "controls"@)
    &&& r.children@.len() == 5
    &&& is_control_button(r.children@[0], "Sh"@, spec_min(height, small), small)
    &&& has_css(r.children@[0].props, "shuffle"@)
    &&& is_control_button(r.children@[1], "Pr"@, spec_min(height, big), big)
    &&& has_css(r.children@[1].props, "previous"@)
    &&& is_control_button(r.children@[2], "Pl"@, spec_min(height, big), big)
    &&& has_css(r.children@[2].props, "play-pause"@)
    &&& is_control_button(r.children@[3], "Nx"@, spec_min(height, big), big)
    &&& has_css(r.children@[3].props, "next"@)
    &&& is_control_button(r.children@[4], "Rp"@, spec_min(height, small), small)
    &&& no_css(r.children@[4].props)
}

/// The minimal mode: an empty, homogeneous box 140 wide with 20 of margin
/// on each side, centered and not expanding.
pub fn get_minimal() -> (r: WidgetSpec)
    ensures
        wf_widget(r),
        r.kind is Container,
        r.orientation is Horizontal,
        r.homogeneous,
        r.text@.len() == 0,
        r.props.width_request == 140,
        r.props.height_request == -1,
        r.props.halign is Center,
        r.props.valign is Center,
        !r.props.hexpand,
        !r.props.vexpand,
        r.props.margin_start == 20,
        r.props.margin_end == 20,
        r.props.css_classes@.len() == 0,
        r.children@.len() == 0,
{
    let mut p = props(140, -1, Align::Center, Align::Center, false, false);
    p.margin_start = 20;
    p.margin_end = 20;
    container(Orientation::Horizontal, true, p, Vec::new())
}

/// The compact mode: an empty horizontal box, 280 by 40, centered and not
/// expanding.
pub fn get_compact() -> (r: WidgetSpec)
    ensures
        wf_widget(r),
        r.kind is Container,
        r.orientation is Horizontal,
        !r.homogeneous,
        r.text@.len() == 0,
        r.props.width_request == 280,
        r.props.height_request == 40,
        r.props.halign is Center,
        r.props.valign is Center,
        !r.props.hexpand,
        !r.props.vexpand,
        r.props.margin_start == 0,
        r.props.margin_end == 0,
        r.props.css_classes@.len() == 0,
        r.children@.len() == 0,
{
    let p = props(280, 40, Align::Center, Align::Center, false, false);
    container(Orientation::Horizontal, false, p, Vec::new())
}

/// The info row of the expanded card.
pub fn info_container(width: i32, height: i32) -> (r: WidgetSpec)
    requires
        0 <= width,
        0 <= height,
        width * 15 <= i32::MAX,
    ensures
        wf_widget(r),
        is_info_pane(r, width as int, height as int),
{
    let album_art_size = min_size(height, scaled(width, 3, 10));
    let image_size = scaled(album_art_size, 7, 10);
    let artwork = leaf(
        WidgetKind::Image,
        "/home/david/Pictures/Music_not_playing.svg",
        false,
        props(image_size, image_size, Align::Center, Align::Fill, true, false),
    );
    let mut album_p = props(album_art_size, -1, Align::Fill, Align::Fill, false, false);
    album_p.css_classes = css("album-art");
    let mut album_children: Vec<WidgetSpec> = Vec::new();
    album_children.push(artwork);
    let album_art = container(Orientation::Horizontal, false, album_p, album_children);

    let mut song_p = props(-1, -1, Align::Start, Align::Center, true, false);
    song_p.css_classes = css("song-name");
    let song_name = leaf(WidgetKind::Label, "Song name", false, song_p);
    let mut artist_p = props(-1, -1, Align::Start, Align::Center, true, false);
    artist_p.css_classes = css("artist-name");
    let artist_name = leaf(WidgetKind::Label, "Artist name", false, artist_p);
    let mut column_p = props(-1, -1, Align::Start, Align::Center, false, false);
    column_p.css_classes = css("info-names2");
    let mut column_children: Vec<WidgetSpec> = Vec::new();
    column_children.push(song_name);
    column_children.push(artist_name);
    let name_column = container(Orientation::Vertical, false, column_p, column_children);

    let mut info_p = props(
        scaled(width, 5, 10),
        height,
        Align::Start,
        Align::Center,
        false,
        false,
    );
    info_p.css_classes = css("info-names1");
    let mut info_children: Vec<WidgetSpec> = Vec::new();
    info_children.push(name_column);
    let music_info = container(Orientation::Vertical, true, info_p, info_children);

    let visualizer_size = min_size(height, scaled(width, 2, 10));
    let vis_image_size = scaled(visualizer_size, 8, 10);
    let vis_image = leaf(
        WidgetKind::Image,
        "/home/david/Pictures/visualizer_tmp.jpeg",
        false,
        props(vis_image_size, vis_image_size, Align::Center, Align::Fill, true, false),
    );
    let mut vis_p = props(visualizer_size, -1, Align::Fill, Align::Fill, false, false);
    vis_p.css_classes = css("visualizer");
    let mut vis_children: Vec<WidgetSpec> = Vec::new();
    vis_children.push(vis_image);
    let visualizer = container(Orientation::Horizontal, false, vis_p, vis_children);

    let mut row_p = props(width, height, Align::Center, Align::Center, false, false);
    row_p.css_classes = css("info");
    let mut row_children: Vec<WidgetSpec> = Vec::new();
    row_children.push(album_art);
    row_children.push(music_info);
    row_children.push(visualizer);
    container(Orientation::Horizontal, false, row_p, row_children)
}

/// The progress row of the expanded card.
pub fn progress_container(width: i32, height: i32) -> (r: WidgetSpec)
    requires
        0 <= width,
        0 <= height,
        width * 15 <= i32::MAX,
    ensures
        wf_widget(r),
        is_progress_pane(r, width as int, height as int),
{
    let time_width = scaled(width, 15, 100);
    let mut elapsed_p = props(time_width, -1, Align::Center, Align::Center, false, false);
    elapsed_p.css_classes = css("elapsed-time");
    let elapsed = leaf(WidgetKind::Label, "0:00", false, elapsed_p);

    let mut bar_p = props(scaled(width, 7, 10), -1, Align::Center, Align::Center, false, false);
    bar_p.css_classes = css("progress-bar");
    proof {
        reveal_strlit("");
    }
    let progress_bar = leaf(WidgetKind::Scale, "", false, bar_p);

    let mut remaining_p = props(time_width, -1, Align::Center, Align::Center, false, false);
    remaining_p.css_classes = css("remaining-time");
    let remaining = leaf(WidgetKind::Label, "-3:42", false, remaining_p);

    let mut row_p = props(width, height, Align::Center, Align::Center, false, false);
    row_p.css_classes = css("progress");
    let mut row_children: Vec<WidgetSpec> = Vec::new();
    row_children.push(elapsed);
    row_children.push(progress_bar);
    row_children.push(remaining);
    container(Orientation::Horizontal, false, row_p, row_children)
}

/// The controls row of the expanded card.
pub fn controls_container(width: i32, height: i32) -> (r: WidgetSpec)
    requires
        0 <= width,
        0 <= height,
        width * 15 <= i32::MAX,
    ensures
        wf_widget(r),
        is_controls_pane(r, width as int, height as int),
{
    let small = scaled(width, 15, 100);
    let big = scaled(width, 2, 10);

    let mut shuffle_p = props(
        small,
        min_size(height, small),
        Align::Center,
        Align::Center,
        false,
        false,
    );
    shuffle_p.css_classes = css("shuffle");
    let shuffle = leaf(WidgetKind::Button, "Sh", false, shuffle_p);

    let mut previous_p = props(
        big,
        min_size(height, big),
        Align::Center,
        Align::Center,
        false,
        false,
    );
    previous_p.css_classes = css("previous");
    let previous = leaf(WidgetKind::Button, "Pr", false, previous_p);

    let mut play_p = props(big, min_size(height, big), Align::Center, Align::Center, false, false);
    play_p.css_classes = css("play-pause");
    let play_pause = leaf(WidgetKind::Button, "Pl", false, play_p);

    let mut next_p = props(big, min_size(height, big), Align::Center, Align::Center, false, false);
    next_p.css_classes = css("next");
    let next = leaf(WidgetKind::Button, "Nx", false, next_p);

    let repeat = leaf(
        WidgetKind::Button,
        "Rp",
        false,
        props(small, min_size(height, small), Align::Center, Align::Center, false, false),
    );

    let mut row_p = props(width, height, Align::Center, Align::Center, false, false);
    row_p.css_classes = css("controls");
    let mut row_children: Vec<WidgetSpec> = Vec::new();
    row_children.push(shuffle);
    row_children.push(previous);
    row_children.push(play_pause);
    row_children.push(next);
    row_children.push(repeat);
    container(Orientation::Horizontal, true, row_p, row_children)
}

/// The expanded mode: a 450 by 300 card of three rows stacked
/// vertically, taking 45/100, 15/100 and 40/100 of the height. With the
/// fixed height of 300 the rows are 135, 45 and 120 tall and tile the
/// card exactly.
pub fn get_expanded() -> (r: WidgetSpec)
    ensures
        wf_widget(r),
        r.kind is Container,
        r.orientation is Vertical,
        !r.homogeneous,
        props_are(r.props, 450, 300, Align::Center, Align::Center, false, false),
        no_css(r.props),
        r.children@.len() == 3,
        is_info_pane(r.children@[0], 450, spec_frac(300, 45, 100)),
        is_progress_pane(r.children@[1], 450, spec_frac(300, 15, 100)),
        is_controls_pane(r.children@[2], 450, spec_frac(300, 40, 100)),
        r.children@[0].props.height_request + r.children@[1].props.height_request + r.children@[2].props.height_request == r.props.height_request,
{
    let width: i32 = 450;
    let height: i32 = 300;
    let info = info_container(width, scaled(height, 45, 100));
    let progress = progress_container(width, scaled(height, 15, 100));
    let controls = controls_container(width, scaled(height, 40, 100));
    let mut children: Vec<WidgetSpec> = Vec::new();
    children.push(info);
    children.push(progress);
    children.push(controls);
    let p = props(width, height, Align::Center, Align::Center, false, false);
    container(Orientation::Vertical, false, p, children)
}

} // verus!
