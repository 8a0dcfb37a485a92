use parallex::app::{App, CellMark, Drag, Motion, Pointer, Press, Rows};
use parallex::colormap::{next_colormap, Colormap};
use parallex::entropy::{block_count, block_ranges, byte_counts};
use parallex::keys::{key_action, KeyAction, Nav};
use parallex::layout::Divider;
use parallex::names::file_name_from_url;

fn rows(hex_bpr: usize, zoom_bpr: usize, last_anchor: usize) -> Rows {
    Rows { hex_bpr, zoom_bpr, last_anchor }
}

fn at(x: i32, y: i32) -> Pointer {
    Pointer { x, y, hex_byte: None, scrollbar_anchor: 0, overview_anchor: 0, pan_delta: 0 }
}

fn viewer() -> App {
    let mut a = App::new();
    a.set_viewport(1200, 800, rows(16, 32, 0));
    a
}

fn viewer_with(len: usize) -> App {
    let mut a = viewer();
    a.set_data("f.bin".to_string(), vec![0; len], rows(16, 32, len.saturating_sub(16)));
    a
}

#[test]
fn colormaps_cycle_in_display_order() {
    assert_eq!(next_colormap(Colormap::Entropy), Colormap::Value);
    assert_eq!(next_colormap(Colormap::Value), Colormap::Class);
    assert_eq!(next_colormap(Colormap::Class), Colormap::Entropy);
    let c = Colormap::Value;
    assert_eq!(next_colormap(next_colormap(next_colormap(c))), c);
}

#[test]
fn keys_map_to_actions() {
    assert_eq!(key_action("ArrowLeft"), Some(KeyAction::Navigate(Nav::Left)));
    assert_eq!(key_action("ArrowRight"), Some(KeyAction::Navigate(Nav::Right)));
    assert_eq!(key_action("ArrowUp"), Some(KeyAction::Navigate(Nav::Up)));
    assert_eq!(key_action("ArrowDown"), Some(KeyAction::Navigate(Nav::Down)));
    assert_eq!(key_action("PageUp"), Some(KeyAction::Navigate(Nav::PageUp)));
    assert_eq!(key_action("PageDown"), Some(KeyAction::Navigate(Nav::PageDown)));
    assert_eq!(key_action("Home"), Some(KeyAction::Navigate(Nav::Home)));
    assert_eq!(key_action("End"), Some(KeyAction::Navigate(Nav::End)));
    assert_eq!(key_action("="), Some(KeyAction::ZoomIn));
    assert_eq!(key_action("+"), Some(KeyAction::ZoomIn));
    assert_eq!(key_action("-"), Some(KeyAction::ZoomOut));
    assert_eq!(key_action("a"), None);
    assert_eq!(key_action("Arrow"), None);
    assert_eq!(key_action(""), None);
    assert_eq!(key_action("ArrowLeftX"), None);
}

#[test]
fn byte_counts_count_each_value() {
    let data: Vec<u8> = (0..256).map(|i| (i % 2) as u8 * 0x41).collect();
    let c = byte_counts(&data).unwrap();
    assert_eq!(c.len(), 256);
    assert_eq!(c[0], 128);
    assert_eq!(c[0x41], 128);
    assert_eq!(c.iter().map(|&x| x as usize).sum::<usize>(), 256);
    let c = byte_counts(&[0x41; 256]).unwrap();
    assert_eq!(c[0x41], 256);
    assert_eq!(c.iter().filter(|&&x| x > 0).count(), 1);
    let c = byte_counts(&[]).unwrap();
    assert!(c.iter().all(|&x| x == 0));
}

#[test]
fn block_ranges_cover_the_file() {
    // 1000 bytes -> ceil(1000/256) = 4 blocks
    assert_eq!(block_count(1000, 256), 4);
    let r = block_ranges(1000, 256);
    assert_eq!(r, vec![(0, 256), (256, 512), (512, 768), (768, 1000)]);
    assert_eq!(block_count(1024, 256), 4);
    assert_eq!(block_ranges(1024, 256).last(), Some(&(768, 1024)));
    assert_eq!(block_count(0, 256), 0);
    assert!(block_ranges(0, 256).is_empty());
    // A window of 0 is treated as 1.
    assert_eq!(block_ranges(3, 0), vec![(0, 1), (1, 2), (2, 3)]);
}

#[test]
fn new_viewer_defaults() {
    let a = App::new();
    assert!(a.data.is_empty());
    assert_eq!(a.colormaps, [Colormap::Entropy, Colormap::Value, Colormap::Class]);
    assert_eq!(a.hex_bpr, 16);
    assert_eq!(a.zoom_bpr, 32);
    assert_eq!(a.overview_width, 200);
    assert_eq!(a.zoom_width, 320);
    assert_eq!(a.drag, None);
    let l = viewer().layout();
    assert_eq!(l.hex_x, 532);
}

#[test]
fn header_click_cycles_that_column() {
    let mut a = viewer();
    assert_eq!(a.on_mouse_down(&at(10, 5), 0), Press::Recolored(0));
    assert_eq!(a.colormaps, [Colormap::Value, Colormap::Value, Colormap::Class]);
    assert_eq!(a.on_mouse_down(&at(300, 5), 0), Press::Recolored(1));
    assert_eq!(a.on_mouse_down(&at(900, 5), 0), Press::Recolored(2));
    assert_eq!(a.colormaps, [Colormap::Value, Colormap::Class, Colormap::Entropy]);
    a.on_mouse_down(&at(10, 5), 0);
    a.on_mouse_down(&at(10, 5), 0);
    assert_eq!(a.colormaps[0], Colormap::Entropy);
    assert_eq!(a.drag, None);
}

#[test]
fn status_bar_press_is_ignored() {
    let mut a = viewer_with(100);
    a.scroll_offset = 7;
    assert_eq!(a.on_mouse_down(&at(900, 790), 84), Press::Ignored);
    assert_eq!(a.on_mouse_down(&at(900, 776), 84), Press::Ignored);
    assert_eq!(a.drag, None);
    assert_eq!(a.scroll_offset, 7);
}

#[test]
fn scrollbar_press_and_scrub_move_the_anchor() {
    let mut a = viewer_with(1000);
    let mut p = at(1195, 100);
    p.scrollbar_anchor = 300;
    assert_eq!(a.on_mouse_down(&p, 984), Press::Scrollbar);
    assert_eq!(a.drag, Some(Drag::Scrollbar));
    assert_eq!(a.scroll_offset, 300);
    p.scrollbar_anchor = 5000;
    assert_eq!(a.on_mouse_move(&p, rows(16, 32, 984)), Motion::Scrub);
    assert_eq!(a.scroll_offset, 984);
    // Left of the scrollbar strip the scrub leaves the anchor alone.
    let mut q = at(1000, 100);
    q.scrollbar_anchor = 10;
    assert_eq!(a.on_mouse_move(&q, rows(16, 32, 984)), Motion::Scrub);
    assert_eq!(a.scroll_offset, 984);
    a.end_drag();
    assert_eq!(a.drag, None);
}

#[test]
fn hex_press_selects_the_byte() {
    let mut a = viewer_with(100);
    assert_eq!(a.on_mouse_down(&at(800, 100), 84), Press::HexColumn);
    assert_eq!(a.drag, None);
    assert_eq!(a.selection, None);
    let mut p = at(800, 100);
    p.hex_byte = Some(40);
    assert_eq!(a.on_mouse_down(&p, 84), Press::HexColumn);
    assert_eq!(a.drag, Some(Drag::HexSelect { anchor: 40 }));
    assert_eq!(a.selected, Some(40));
    assert_eq!(a.selection, Some(40..41));
}

#[test]
fn zoom_pan_scrolls_by_whole_rows() {
    let mut a = viewer_with(1000);
    a.scroll_offset = 500;
    assert_eq!(a.on_mouse_down(&at(300, 100), 984), Press::ZoomPan);
    assert_eq!(a.drag, Some(Drag::ZoomPan { last_y: 100 }));
    // Less than a row: nothing moves, the pan keeps its start.
    let mut p = at(300, 103);
    assert_eq!(a.on_mouse_move(&p, rows(16, 32, 984)), Motion::Pan);
    assert_eq!(a.scroll_offset, 500);
    assert_eq!(a.drag, Some(Drag::ZoomPan { last_y: 100 }));
    p.y = 60;
    p.pan_delta = -160;
    a.on_mouse_move(&p, rows(16, 32, 984));
    assert_eq!(a.scroll_offset, 340);
    assert_eq!(a.drag, Some(Drag::ZoomPan { last_y: 60 }));
    p.y = 100;
    p.pan_delta = 160;
    a.on_mouse_move(&p, rows(16, 32, 984));
    assert_eq!(a.scroll_offset, 500);
    p.pan_delta = 10_000;
    a.on_mouse_move(&p, rows(16, 32, 984));
    assert_eq!(a.scroll_offset, 984);
}

#[test]
fn overview_press_jumps_the_anchor() {
    let mut a = viewer();
    let mut p = at(50, 100);
    p.overview_anchor = 30;
    // An empty file's overview ignores presses.
    assert_eq!(a.on_mouse_down(&p, 0), Press::Ignored);
    assert_eq!(a.drag, None);
    let mut a = viewer_with(1000);
    assert_eq!(a.on_mouse_down(&p, 984), Press::Overview);
    assert_eq!(a.drag, Some(Drag::Overview));
    assert_eq!(a.scroll_offset, 30);
    p.overview_anchor = 999;
    assert_eq!(a.on_mouse_move(&p, rows(16, 32, 984)), Motion::Jump);
    assert_eq!(a.scroll_offset, 984);
}

#[test]
fn divider_drag_resizes_column() {
    let mut a = viewer_with(1000);
    a.scroll_offset = 900;
    assert_eq!(a.on_mouse_down(&at(203, 100), 984), Press::DividerGrabbed(Divider::OverviewZoom));
    assert_eq!(a.drag, Some(Drag::Divider(Divider::OverviewZoom, 200, 203)));
    assert_eq!(a.on_mouse_move(&at(400, 100), rows(12, 30, 888)), Motion::Resized);
    assert_eq!(a.overview_width, 397);
    assert_eq!(a.hex_bpr, 12);
    assert_eq!(a.zoom_bpr, 30);
    assert_eq!(a.scroll_offset, 888);
    assert_eq!(a.on_mouse_move(&at(203, 100), rows(16, 32, 984)), Motion::Resized);
    assert_eq!(a.overview_width, 200);
    a.end_drag();
    assert_eq!(a.on_mouse_down(&at(528, 100), 984), Press::DividerGrabbed(Divider::ZoomHex));
    assert_eq!(a.on_mouse_move(&at(10_000, 100), rows(8, 64, 992)), Motion::Resized);
    assert_eq!(a.zoom_width, 1600);
    assert_eq!(a.overview_width, 200);
}

#[test]
fn selection_spans_anchor_and_pointer() {
    let mut a = viewer_with(100);
    let mut p = at(800, 100);
    p.hex_byte = Some(40);
    a.on_mouse_down(&p, 84);
    assert_eq!(a.selection, Some(40..41));
    p.hex_byte = Some(10);
    assert_eq!(a.on_mouse_move(&p, rows(16, 32, 84)), Motion::Selecting);
    assert_eq!(a.selection, Some(10..41));
    assert_eq!(a.selected, Some(10));
    assert_eq!(a.hovered, Some(10));
    p.hex_byte = Some(99);
    a.on_mouse_move(&p, rows(16, 32, 84));
    assert_eq!(a.selection, Some(40..100));
    p.hex_byte = None;
    a.on_mouse_move(&p, rows(16, 32, 84));
    assert_eq!(a.selection, Some(40..100));
    assert_eq!(a.hovered, None);
    // Past the end of the file the selection stops at the last byte.
    p.hex_byte = Some(150);
    a.on_mouse_move(&p, rows(16, 32, 84));
    assert_eq!(a.selection, Some(40..100));
}

#[test]
fn hover_without_gesture() {
    let mut a = viewer_with(100);
    let mut p = at(800, 100);
    p.hex_byte = Some(3);
    assert_eq!(a.on_mouse_move(&p, rows(16, 32, 84)), Motion::Hover);
    assert_eq!(a.hovered, Some(3));
    assert_eq!(a.selection, None);
}

#[test]
fn set_data_resets_view() {
    let mut a = viewer();
    a.scroll_offset = 7;
    a.selected = Some(3);
    a.selection = Some(3..4);
    a.hovered = Some(2);
    a.set_data("x".to_string(), vec![1; 10], rows(24, 40, 0));
    assert_eq!(a.scroll_offset, 0);
    assert_eq!(a.selected, None);
    assert_eq!(a.selection, None);
    assert_eq!(a.hovered, None);
    assert_eq!(a.file_name, "x");
    assert_eq!(a.data.len(), 10);
    assert_eq!(a.hex_bpr, 24);
    assert_eq!(a.zoom_bpr, 40);
}

#[test]
fn viewport_change_remeasures_rows() {
    let mut a = viewer_with(1000);
    a.scroll_offset = 990;
    a.set_viewport(1600, 900, rows(32, 48, 960));
    assert_eq!(a.css_w, 1600);
    assert_eq!(a.css_h, 900);
    assert_eq!(a.hex_bpr, 32);
    assert_eq!(a.zoom_bpr, 48);
    assert_eq!(a.scroll_offset, 960);
    a.recompute_bprs(rows(8, 8, 992));
    assert_eq!(a.hex_bpr, 8);
    assert_eq!(a.scroll_offset, 960);
}

#[test]
fn scrolling_saturates_and_clamps() {
    let mut a = viewer_with(1000);
    a.scroll_anchor_by(100, 992);
    assert_eq!(a.scroll_offset, 100);
    a.scroll_anchor_by(-40, 992);
    assert_eq!(a.scroll_offset, 60);
    a.scroll_anchor_by(-1000, 992);
    assert_eq!(a.scroll_offset, 0);
    a.scroll_anchor_by(5000, 992);
    assert_eq!(a.scroll_offset, 992);
    a.scroll_anchor_by(isize::MIN, 992);
    assert_eq!(a.scroll_offset, 0);
    a.scroll_anchor_by(isize::MAX, usize::MAX);
    assert_eq!(a.scroll_offset, isize::MAX as usize);
    a.scroll_anchor_by(isize::MAX, usize::MAX);
    a.scroll_anchor_by(isize::MAX, usize::MAX);
    assert_eq!(a.scroll_offset, usize::MAX);
    a.clamp_anchor(10);
    assert_eq!(a.scroll_offset, 10);
}

#[test]
fn status_percent_and_body_height() {
    let mut a = viewer();
    assert_eq!(a.scroll_percent(), 0);
    let mut a = viewer_with(200);
    a.scroll_offset = 50;
    assert_eq!(a.scroll_percent(), 25);
    assert_eq!(a.body_h(), 800 - 28 - 24);
    a.set_viewport(1200, 40, rows(16, 32, 184));
    assert_eq!(a.body_h(), 1);
}

#[test]
fn hex_point_and_navigation() {
    let mut a = viewer();
    assert_eq!(a.hex_point(532, 28), Some((0, 0)));
    assert_eq!(a.hex_point(600, 100), Some((68, 72)));
    assert_eq!(a.hex_point(531, 100), None);
    assert_eq!(a.hex_point(1190, 100), None);
    assert_eq!(a.hex_point(600, 27), None);
    assert_eq!(a.nav_cursor(), None);
    let mut a = viewer_with(4096);
    a.scroll_offset = 100;
    assert_eq!(a.nav_cursor(), Some(100));
    // Rows show bytes 96..96 + 10 * 16 = 256: byte 101 is visible.
    a.navigate_to(101, 96, 10, 4080);
    assert_eq!(a.selected, Some(101));
    assert_eq!(a.selection, Some(101..102));
    assert_eq!(a.scroll_offset, 100);
    assert_eq!(a.nav_cursor(), Some(101));
    a.navigate_to(4095, 96, 10, 4080);
    assert_eq!(a.selected, Some(4095));
    assert_eq!(a.scroll_offset, 4080);
}

#[test]
fn reveal_byte_scrolls_only_when_hidden() {
    let mut a = viewer_with(4096);
    a.scroll_offset = 100;
    a.reveal_byte(200, 96, 10, 4080);
    assert_eq!(a.scroll_offset, 100);
    a.reveal_byte(256, 96, 10, 4080);
    assert_eq!(a.scroll_offset, 256);
    a.reveal_byte(10, 96, 10, 4080);
    assert_eq!(a.scroll_offset, 10);
    a.reveal_byte(4095, 96, 10, 4080);
    assert_eq!(a.scroll_offset, 4080);
}

#[test]
fn hex_rows_plan_the_visible_rows() {
    let mut a = viewer_with(40);
    a.selection = Some(5..8);
    a.hovered = Some(17);
    let plan = a.hex_rows(0, 10);
    assert_eq!(plan.len(), 3);
    assert_eq!((plan[0].start, plan[0].count), (0, 16));
    assert_eq!((plan[1].start, plan[1].count), (16, 16));
    assert_eq!((plan[2].start, plan[2].count), (32, 8));
    assert_eq!(plan[0].marks[4], CellMark::Plain);
    assert_eq!(plan[0].marks[5], CellMark::Selected);
    assert_eq!(plan[0].marks[7], CellMark::Selected);
    assert_eq!(plan[0].marks[8], CellMark::Plain);
    assert_eq!(plan[1].marks[1], CellMark::Hovered);
    assert_eq!(plan[2].marks.len(), 8);
    // A hovered byte inside the selection shows as selected.
    a.hovered = Some(6);
    assert_eq!(a.hex_rows(0, 1)[0].marks[6], CellMark::Selected);
    assert_eq!(a.hex_rows(16, 2).len(), 2);
    assert_eq!(a.hex_rows(40, 2).len(), 0);
    a.hex_bpr = 0;
    assert_eq!(a.hex_rows(0, 2).len(), 0);
}

#[test]
fn url_file_names() {
    assert_eq!(file_name_from_url("https://example.org/demo/firmware.bin"), "firmware.bin");
    assert_eq!(file_name_from_url("demo.bin"), "demo.bin");
    assert_eq!(file_name_from_url("dir/"), "");
    assert_eq!(file_name_from_url(""), "");
    assert_eq!(file_name_from_url("/a"), "a");
}
