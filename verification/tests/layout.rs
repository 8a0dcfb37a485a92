use parallex::layout::{Divider, Layout, OVERVIEW_W_MAX, ZOOM_W_MAX, ZOOM_W_MIN, DIVIDER_W, SCROLLBAR_W};

#[test]
fn layout_gives_hex_the_remainder() {
    let l = Layout::new(1200, 200, 320);
    assert_eq!(l.overview_x, 0);
    assert_eq!(l.overview_w, 200);
    assert_eq!(l.zoom_x, 206);
    assert_eq!(l.zoom_w, 320);
    assert_eq!(l.hex_x, 532);
    assert_eq!(l.hex_w, 1200 - 532);
}

#[test]
fn layout_clamps_extreme_widths() {
    let l = Layout::new(1200, 10_000, 1);
    assert_eq!(l.overview_w, OVERVIEW_W_MAX);
    assert_eq!(l.zoom_w, ZOOM_W_MIN);
}

#[test]
fn hex_column_never_collapses() {
    // Two maxed columns on a tiny canvas: the hex column floors at 200 px
    // and overflows the canvas rather than showing nothing.
    let l = Layout::new(300, OVERVIEW_W_MAX, ZOOM_W_MAX);
    assert_eq!(l.hex_w, 200);
    assert!(l.hex_x + l.hex_w > 300);
}

#[test]
fn dividers_hit_test_and_drag() {
    let l = Layout::new(1200, 200, 320);
    assert_eq!(l.divider_at(203), Some(Divider::OverviewZoom));
    assert_eq!(l.divider_at(528), Some(Divider::ZoomHex));
    assert_eq!(l.divider_at(400), None);
    // Dragging the first divider to x=400 grew the overview by the same
    // delta, relative to where the grab started.
    let w = Layout::dragged_width(Divider::OverviewZoom, 200, 400, 203);
    assert_eq!(w, 397);
}

#[test]
fn columns_sit_between_dividers() {
    let l = Layout::new(1200, 250, 400);
    assert_eq!(l.divider_pos(Divider::OverviewZoom), 250);
    assert_eq!(l.divider_pos(Divider::OverviewZoom) + DIVIDER_W, l.zoom_x);
    assert_eq!(l.divider_pos(Divider::ZoomHex), 656);
    assert_eq!(l.divider_pos(Divider::ZoomHex) + DIVIDER_W, l.hex_x);
    assert_eq!(l.scrollbar_x() + SCROLLBAR_W, 1200);
    assert_eq!(l.scrollbar_x(), 1190);
}

#[test]
fn divider_strips_are_exact() {
    let l = Layout::new(1200, 200, 320);
    assert_eq!(l.divider_at(199), None);
    assert_eq!(l.divider_at(200), Some(Divider::OverviewZoom));
    assert_eq!(l.divider_at(205), Some(Divider::OverviewZoom));
    assert_eq!(l.divider_at(206), None);
    assert_eq!(l.divider_at(525), None);
    assert_eq!(l.divider_at(526), Some(Divider::ZoomHex));
    assert_eq!(l.divider_at(531), Some(Divider::ZoomHex));
    assert_eq!(l.divider_at(532), None);
}

#[test]
fn drag_clamps_and_round_trips() {
    assert_eq!(Layout::dragged_width(Divider::ZoomHex, 320, 528, 528), 320);
    assert_eq!(Layout::dragged_width(Divider::ZoomHex, 320, 0, 528), ZOOM_W_MIN);
    assert_eq!(Layout::dragged_width(Divider::ZoomHex, 320, 5000, 528), ZOOM_W_MAX);
    assert_eq!(Layout::dragged_width(Divider::OverviewZoom, 200, -100, 203), 120);
    assert_eq!(Layout::dragged_width(Divider::OverviewZoom, 200, i32::MAX, i32::MIN), OVERVIEW_W_MAX);
}

#[test]
fn hex_takes_rest_of_wide_canvas() {
    let l = Layout::new(5000, 800, 1600);
    assert_eq!(l.hex_x, 2412);
    assert_eq!(l.hex_x + l.hex_w, 5000);
    let l = Layout::new(i32::MIN, 0, 0);
    assert_eq!(l.hex_w, 200);
}
