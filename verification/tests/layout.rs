use music_module::layout::{
    controls_container, get_compact, get_expanded, get_minimal, info_container, min_size,
    progress_container, scaled, Align, Orientation, WidgetKind,
};

#[test]
fn minimal_box_shape() {
    let m = get_minimal();
    assert_eq!(m.kind, WidgetKind::Container);
    assert_eq!(m.orientation, Orientation::Horizontal);
    assert!(m.homogeneous);
    assert_eq!(m.props.width_request, 140);
    assert_eq!(m.props.height_request, -1);
    assert_eq!(m.props.halign, Align::Center);
    assert_eq!(m.props.valign, Align::Center);
    assert!(!m.props.hexpand);
    assert!(!m.props.vexpand);
    assert_eq!(m.props.margin_start, 20);
    assert_eq!(m.props.margin_end, 20);
    assert!(m.props.css_classes.is_empty());
    assert!(m.children.is_empty());
}

#[test]
fn compact_box_shape() {
    let c = get_compact();
    assert_eq!(c.kind, WidgetKind::Container);
    assert_eq!(c.orientation, Orientation::Horizontal);
    assert!(!c.homogeneous);
    assert_eq!(c.props.width_request, 280);
    assert_eq!(c.props.height_request, 40);
    assert_eq!(c.props.halign, Align::Center);
    assert_eq!(c.props.valign, Align::Center);
    assert!(c.children.is_empty());
}

#[test]
fn expanded_rows_tile_the_card() {
    let e = get_expanded();
    assert_eq!(e.kind, WidgetKind::Container);
    assert_eq!(e.orientation, Orientation::Vertical);
    assert_eq!(e.props.width_request, 450);
    assert_eq!(e.props.height_request, 300);
    assert_eq!(e.children.len(), 3);
    let heights: Vec<i32> = e.children.iter().map(|c| c.props.height_request).collect();
    assert_eq!(heights, vec![135, 45, 120]);
    assert_eq!(heights.iter().sum::<i32>(), 300);
    for row in &e.children {
        assert_eq!(row.props.width_request, 450);
        assert_eq!(row.kind, WidgetKind::Container);
    }
    assert_eq!(e.children[0].props.css_classes, vec!["info".to_string()]);
    assert_eq!(e.children[1].props.css_classes, vec!["progress".to_string()]);
    assert_eq!(e.children[2].props.css_classes, vec!["controls".to_string()]);
}

#[test]
fn info_row_sizes() {
    let i = info_container(450, 135);
    assert_eq!(i.kind, WidgetKind::Container);
    assert_eq!(i.orientation, Orientation::Horizontal);
    assert_eq!(i.props.css_classes, vec!["info".to_string()]);
    assert_eq!(i.children.len(), 3);

    let album = &i.children[0];
    assert_eq!(album.kind, WidgetKind::Container);
    assert_eq!(album.props.width_request, 135);
    assert_eq!(album.props.css_classes, vec!["album-art".to_string()]);
    assert_eq!(album.children.len(), 1);
    let artwork = &album.children[0];
    assert_eq!(artwork.kind, WidgetKind::Image);
    assert_eq!(artwork.text, "/home/david/Pictures/Music_not_playing.svg");
    assert_eq!(artwork.props.width_request, 94);
    assert_eq!(artwork.props.height_request, 94);

    let info = &i.children[1];
    assert_eq!(info.kind, WidgetKind::Container);
    assert_eq!(info.orientation, Orientation::Vertical);
    assert!(info.homogeneous);
    assert_eq!(info.props.width_request, 225);
    assert_eq!(info.props.height_request, 135);
    assert_eq!(info.props.css_classes, vec!["info-names1".to_string()]);
    assert_eq!(info.children.len(), 1);
    let column = &info.children[0];
    assert_eq!(column.props.css_classes, vec!["info-names2".to_string()]);
    assert_eq!(column.children.len(), 2);
    assert_eq!(column.children[0].kind, WidgetKind::Label);
    assert_eq!(column.children[0].text, "Song name");
    assert_eq!(column.children[0].props.css_classes, vec!["song-name".to_string()]);
    assert_eq!(column.children[1].text, "Artist name");
    assert_eq!(column.children[1].props.css_classes, vec!["artist-name".to_string()]);

    let vis = &i.children[2];
    assert_eq!(vis.kind, WidgetKind::Container);
    assert_eq!(vis.props.width_request, 90);
    assert_eq!(vis.props.css_classes, vec!["visualizer".to_string()]);
    assert_eq!(vis.children.len(), 1);
    let vis_image = &vis.children[0];
    assert_eq!(vis_image.kind, WidgetKind::Image);
    assert_eq!(vis_image.text, "/home/david/Pictures/visualizer_tmp.jpeg");
    assert_eq!(vis_image.props.width_request, 72);
    assert_eq!(vis_image.props.height_request, 72);
}

#[test]
fn progress_row_sizes() {
    let p = progress_container(450, 45);
    assert_eq!(p.kind, WidgetKind::Container);
    assert_eq!(p.props.css_classes, vec!["progress".to_string()]);
    assert_eq!(p.children.len(), 3);

    let elapsed = &p.children[0];
    assert_eq!(elapsed.kind, WidgetKind::Label);
    assert_eq!(elapsed.text, "0:00");
    assert_eq!(elapsed.props.width_request, 67);
    assert_eq!(elapsed.props.css_classes, vec!["elapsed-time".to_string()]);

    let bar = &p.children[1];
    assert_eq!(bar.kind, WidgetKind::Scale);
    assert_eq!(bar.props.width_request, 315);
    assert_eq!(bar.props.css_classes, vec!["progress-bar".to_string()]);

    let remaining = &p.children[2];
    assert_eq!(remaining.kind, WidgetKind::Label);
    assert_eq!(remaining.text, "-3:42");
    assert_eq!(remaining.props.width_request, 67);
    assert_eq!(remaining.props.css_classes, vec!["remaining-time".to_string()]);
}

#[test]
fn controls_row_sizes() {
    let c = controls_container(450, 120);
    assert_eq!(c.kind, WidgetKind::Container);
    assert!(c.homogeneous);
    assert_eq!(c.props.css_classes, vec!["controls".to_string()]);
    assert_eq!(c.children.len(), 5);

    let labels: Vec<&str> = c.children.iter().map(|b| b.text.as_str()).collect();
    assert_eq!(labels, vec!["Sh", "Pr", "Pl", "Nx", "Rp"]);
    let widths: Vec<i32> = c.children.iter().map(|b| b.props.width_request).collect();
    assert_eq!(widths, vec![67, 90, 90, 90, 67]);
    let heights: Vec<i32> = c.children.iter().map(|b| b.props.height_request).collect();
    assert_eq!(heights, vec![67, 90, 90, 90, 67]);
    for b in &c.children {
        assert_eq!(b.kind, WidgetKind::Button);
    }
    assert_eq!(c.children[0].props.css_classes, vec!["shuffle".to_string()]);
    assert_eq!(c.children[1].props.css_classes, vec!["previous".to_string()]);
    assert_eq!(c.children[2].props.css_classes, vec!["play-pause".to_string()]);
    assert_eq!(c.children[3].props.css_classes, vec!["next".to_string()]);
    assert!(c.children[4].props.css_classes.is_empty());
}

#[test]
fn controls_buttons_capped_by_a_low_row() {
    // With a row lower than the button widths, every height is the row's.
    let c = controls_container(450, 50);
    let heights: Vec<i32> = c.children.iter().map(|b| b.props.height_request).collect();
    assert_eq!(heights, vec![50, 50, 50, 50, 50]);
}

#[test]
fn scaled_rounds_down() {
    assert_eq!(scaled(300, 45, 100), 135);
    assert_eq!(scaled(300, 15, 100), 45);
    assert_eq!(scaled(300, 40, 100), 120);
    assert_eq!(scaled(450, 15, 100), 67);
    assert_eq!(scaled(135, 7, 10), 94);
    assert_eq!(scaled(90, 8, 10), 72);
    assert_eq!(scaled(0, 7, 10), 0);
}

#[test]
fn min_size_picks_the_smaller() {
    assert_eq!(min_size(135, 135), 135);
    assert_eq!(min_size(120, 90), 90);
    assert_eq!(min_size(45, 315), 45);
}

#[test]
fn info_row_of_an_empty_card_is_empty_sized() {
    let i = info_container(0, 0);
    assert_eq!(i.props.width_request, 0);
    assert_eq!(i.children[0].props.width_request, 0);
    assert_eq!(i.children[0].children[0].props.width_request, 0);
    assert_eq!(i.children[2].props.width_request, 0);
}
