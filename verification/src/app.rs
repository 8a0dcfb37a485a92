//! Viewer state shared by the three columns, and the pointer gestures that
//! change it: header clicks, divider drags, scrollbar scrubs, zoom pans,
//! overview jumps and selections in the hex column.
//!
//! The state here is the integer part of the viewer: the file, the shared byte
//! anchor, the bytes per row of the hex and zoom columns, the column widths,
//! the colormaps and the current gesture. What the row geometry of a column
//! reads off a pointer position (which byte lies under it, which anchor the
//! scrollbar track or the overview selects there, how many bytes a zoom pan
//! moved) and the row metrics of the columns are measured by the caller and
//! handed in as [`Pointer`] and [`Rows`]; every handler then completes its
//! gesture here.

use std::ops::Range;
use vstd::prelude::*;
use crate::colormap::{Colormap, next_colormap, spec_next_colormap};
use crate::layout::{
    Divider, Layout, DIVIDER_W, HEADER_H, STATUS_H, clamp, spec_dragged_width,
    lemma_spec_new_laid_out,
};

verus! {

/// One drag gesture. A press can start at most one; it ends on window-wide
/// mouse-up, wherever the pointer went meanwhile.
#[derive(Clone, Copy, Debug, PartialEq, Eq, Structural)]
pub enum Drag {
    /// Moving a column divider: the divider, the column's width when grabbed,
    /// and the canvas x where it was grabbed.
    Divider(Divider, i32, i32),
    /// Scrubbing the hex column's scrollbar.
    Scrollbar,
    /// Panning the shared anchor from the zoom column; `last_y` is the canvas
    /// y the pan last moved the anchor at.
    ZoomPan { last_y: i32 },
    /// Dragging a selection through the hex column from byte `anchor`.
    HexSelect { anchor: usize },
    /// Pressing the overview navigates to the pressed region.
    Overview,
}

/// Where a mouse press landed. The press has been handled in full; the
/// result tells the caller which cached pictures it made stale.
#[derive(Clone, Copy, Debug, PartialEq, Eq, Structural)]
pub enum Press {
    /// Nothing happened: the status bar, or the overview of an empty file.
    Ignored,
    /// A column header: that column (0 overview, 1 zoom, 2 hex) moved on to
    /// its next colormap.
    Recolored(usize),
    /// A divider was grabbed.
    DividerGrabbed(Divider),
    /// The hex scrollbar was grabbed and the anchor moved to the pressed
    /// position on its track.
    Scrollbar,
    /// The hex column: the byte under the pointer, if any, was selected and
    /// a selection drag started from it.
    HexColumn,
    /// The zoom column was grabbed for panning.
    ZoomPan,
    /// The overview of a non-empty file: the anchor jumped to the pressed
    /// fraction of the file.
    Overview,
}

/// Which gesture a pointer move continued. The move has been handled in full.
#[derive(Clone, Copy, Debug, PartialEq, Eq, Structural)]
pub enum Motion {
    /// No gesture in progress: only the hovered byte changed.
    Hover,
    /// A divider moved: the column widths and rows changed.
    Resized,
    /// The scrollbar is being scrubbed.
    Scrub,
    /// The zoom column is being panned.
    Pan,
    /// The selection follows the pointer through the hex column.
    Selecting,
    /// The overview is being pressed: the anchor follows the pointer.
    Jump,
}

/// A pointer position and what the columns' row geometry reads off it.
#[derive(Clone, Copy, Debug, PartialEq, Eq, Structural)]
pub struct Pointer {
    /// Canvas x, in CSS pixels.
    pub x: i32,
    /// Canvas y, in CSS pixels.
    pub y: i32,
    /// The byte of the hex column under the pointer, if any.
    pub hex_byte: Option<usize>,
    /// The anchor the hex scrollbar's track selects at this y.
    pub scrollbar_anchor: usize,
    /// The anchor at this y's fraction of the overview's height.
    pub overview_anchor: usize,
    /// Bytes a zoom pan moves the anchor by from the pan's last y to this y:
    /// whole zoom rows moved, times the zoom column's bytes per row.
    pub pan_delta: isize,
}

/// Row metrics of the hex and zoom columns at the current column widths,
/// glyph width and pixel zoom.
#[derive(Clone, Copy, Debug, PartialEq, Eq, Structural)]
pub struct Rows {
    /// Bytes per hex row.
    pub hex_bpr: usize,
    /// Bytes per zoom row.
    pub zoom_bpr: usize,
    /// The last anchor the file allows at these rows.
    pub last_anchor: usize,
}

/// How a byte of a visible hex row is highlighted.
#[derive(Clone, Copy, Debug, PartialEq, Eq, Structural)]
pub enum CellMark {
    Plain,
    /// Inside the selection.
    Selected,
    /// Under the pointer, and not selected.
    Hovered,
}

/// One visible row of the hex column.
#[derive(Debug)]
pub struct HexRow {
    /// Offset of the row's first byte.
    pub start: usize,
    /// Bytes shown on the row.
    pub count: usize,
    /// Highlight of each byte shown, in order.
    pub marks: Vec<CellMark>,
}

/// All viewer state that is not floating point.
pub struct App {
    pub data: Vec<u8>,
    pub file_name: String,
    /// Colormap of the overview, zoom and hex columns.
    pub colormaps: [Colormap; 3],
    /// The shared byte anchor: the byte at each column's vertical centre.
    pub scroll_offset: usize,
    pub hex_bpr: usize,
    pub zoom_bpr: usize,
    pub overview_width: i32,
    pub zoom_width: i32,
    /// Canvas size in CSS pixels.
    pub css_w: i32,
    pub css_h: i32,
    pub hovered: Option<usize>,
    pub selected: Option<usize>,
    pub selection: Option<Range<usize>>,
    pub drag: Option<Drag>,
}

/// The column whose header lies under canvas x.
pub open spec fn header_panel(l: Layout, x: int) -> int {
    if x < l.overview_w + DIVIDER_W {
        0
    } else if x < l.hex_x {
        1
    } else {
        2
    }
}

/// Where a press at `(x, y)` lands on a canvas `css_h` tall laid out as `l`,
/// showing a file that is empty or not.
pub open spec fn press_target(l: Layout, css_h: int, has_data: bool, x: int, y: int) -> Press {
    if y < HEADER_H {
        Press::Recolored(header_panel(l, x) as usize)
    } else if y >= css_h - STATUS_H {
        Press::Ignored
    } else {
        match l.spec_divider_at(x) {
            Some(kind) => Press::DividerGrabbed(kind),
            None => if x >= l.spec_scrollbar_x() && x < l.hex_x + l.hex_w {
                Press::Scrollbar
            } else if x >= l.hex_x {
                Press::HexColumn
            } else if x >= l.zoom_x {
                Press::ZoomPan
            } else if has_data {
                Press::Overview
            } else {
                Press::Ignored
            },
        }
    }
}

/// `target` kept at or before `last`.
pub open spec fn capped(target: int, last: int) -> int {
    if target <= last {
        target
    } else {
        last
    }
}

/// The anchor after moving `offset` by `delta` bytes, saturating at the ends
/// of the address range, and keeping it at or before `last`.
pub open spec fn spec_scrolled(offset: int, delta: int, last: int) -> int {
    capped(clamp(offset + delta, 0, usize::MAX as int), last)
}

/// The half-open byte range a selection covers when it was started at byte
/// `anchor` and the pointer is now on byte `off`: from the lower of the two
/// through the higher, cut off at the end of a `len`-byte file.
pub open spec fn select_span(anchor: int, off: int, len: int) -> (int, int) {
    let lo = if anchor <= off {
        anchor
    } else {
        off
    };
    let hi = if anchor <= off {
        off + 1
    } else {
        anchor + 1
    };
    (lo, if hi <= len {
        hi
    } else {
        len
    })
}

impl App {
    /// The column layout of this state's canvas.
    pub open spec fn spec_layout(self) -> Layout {
        Layout::spec_new(self.css_w as int, self.overview_width as int, self.zoom_width as int)
    }

    /// The width of the column left of divider `kind`.
    pub open spec fn column_width(self, kind: Divider) -> i32 {
        match kind {
            Divider::OverviewZoom => self.overview_width,
            Divider::ZoomHex => self.zoom_width,
        }
    }

    /// `self` and `other` show the same file on the same canvas.
    pub open spec fn same_file(self, other: App) -> bool {
        &&& self.data == other.data
        &&& self.file_name == other.file_name
        &&& self.css_w == other.css_w
        &&& self.css_h == other.css_h
    }

    /// `self` and `other` show the same file on the same canvas, with the same
    /// colormaps, column widths and rows.
    pub open spec fn same_view(self, other: App) -> bool {
        &&& self.same_file(other)
        &&& self.colormaps == other.colormaps
        &&& self.overview_width == other.overview_width
        &&& self.zoom_width == other.zoom_width
        &&& self.hex_bpr == other.hex_bpr
        &&& self.zoom_bpr == other.zoom_bpr
    }

    /// `self` and `other` agree on everything but the anchor.
    pub open spec fn same_but_anchor(self, other: App) -> bool {
        &&& self.same_view(other)
        &&& self.hovered == other.hovered
        &&& self.selected == other.selected
        &&& self.selection == other.selection
        &&& self.drag == other.drag
    }

    /// `self` and `other` agree on everything but the gesture.
    pub open spec fn same_but_drag(self, other: App) -> bool {
        &&& self.same_view(other)
        &&& self.scroll_offset == other.scroll_offset
        &&& self.hovered == other.hovered
        &&& self.selected == other.selected
        &&& self.selection == other.selection
    }

    /// The selection and selected byte of `self` and `other` agree.
    pub open spec fn same_pick(self, other: App) -> bool {
        &&& self.selected == other.selected
        &&& self.selection == other.selection
    }

    /// What a press at pointer `p` does to `pre`, giving `post` and `r`, when
    /// `last` is the last anchor the file allows.
    pub open spec fn pressed(pre: App, post: App, p: Pointer, last: int, r: Press) -> bool {
        &&& r == press_target(pre.spec_layout(), pre.css_h as int, pre.data@.len() > 0, p.x as int, p.y as int)
        &&& post.same_file(pre)
        &&& post.overview_width == pre.overview_width
        &&& post.zoom_width == pre.zoom_width
        &&& post.hex_bpr == pre.hex_bpr
        &&& post.zoom_bpr == pre.zoom_bpr
        &&& post.hovered == pre.hovered
        &&& match r {
            Press::Recolored(c) => {
                &&& post.colormaps@ == pre.colormaps@.update(
                    c as int,
                    spec_next_colormap(pre.colormaps@[c as int]),
                )
                &&& post.scroll_offset == pre.scroll_offset
                &&& post.same_pick(pre)
                &&& post.drag == pre.drag
            },
            _ => post.colormaps == pre.colormaps,
        }
        &&& match r {
            Press::Recolored(_) => true,
            Press::Ignored => post == pre,
            Press::DividerGrabbed(kind) => {
                &&& post.drag == Some(Drag::Divider(kind, pre.column_width(kind), p.x))
                &&& post.scroll_offset == pre.scroll_offset
                &&& post.same_pick(pre)
            },
            Press::Scrollbar => {
                &&& post.drag == Some(Drag::Scrollbar)
                &&& post.scroll_offset == capped(p.scrollbar_anchor as int, last)
                &&& post.same_pick(pre)
            },
            Press::HexColumn => match p.hex_byte {
                Some(off) => {
                    &&& post.drag == Some(Drag::HexSelect { anchor: off })
                    &&& post.selected == Some(off)
                    &&& post.selection == Some(off..(off + 1) as usize)
                    &&& post.scroll_offset == pre.scroll_offset
                },
                None => post == pre,
            },
            Press::ZoomPan => {
                &&& post.drag == Some(Drag::ZoomPan { last_y: p.y })
                &&& post.scroll_offset == pre.scroll_offset
                &&& post.same_pick(pre)
            },
            Press::Overview => {
                &&& post.drag == Some(Drag::Overview)
                &&& post.scroll_offset == capped(p.overview_anchor as int, last)
                &&& post.same_pick(pre)
            },
        }
    }

    /// What moving the pointer to `p` does to `pre`, giving `post` and `r`,
    /// when `rows` are the row metrics at the column widths the move leaves.
    pub open spec fn moved(pre: App, post: App, p: Pointer, rows: Rows, r: Motion) -> bool {
        &&& post.hovered == p.hex_byte
        &&& post.same_file(pre)
        &&& post.colormaps == pre.colormaps
        &&& match pre.drag {
            Some(Drag::Divider(kind, start_w, grab_x)) => {
                &&& r == Motion::Resized
                &&& post.column_width(kind) == spec_dragged_width(
                    kind,
                    start_w as int,
                    p.x as int,
                    grab_x as int,
                )
                &&& kind == Divider::OverviewZoom ==> post.zoom_width == pre.zoom_width
                &&& kind == Divider::ZoomHex ==> post.overview_width == pre.overview_width
                &&& post.hex_bpr == rows.hex_bpr
                &&& post.zoom_bpr == rows.zoom_bpr
                &&& post.scroll_offset == capped(pre.scroll_offset as int, rows.last_anchor as int)
                &&& post.same_pick(pre)
                &&& post.drag == pre.drag
            },
            _ => {
                &&& post.overview_width == pre.overview_width
                &&& post.zoom_width == pre.zoom_width
                &&& post.hex_bpr == pre.hex_bpr
                &&& post.zoom_bpr == pre.zoom_bpr
                &&& match pre.drag {
                    Some(Drag::Scrollbar) => {
                        &&& r == Motion::Scrub
                        &&& post.scroll_offset == (if p.x < pre.spec_layout().spec_scrollbar_x() {
                            pre.scroll_offset as int
                        } else {
                            capped(p.scrollbar_anchor as int, rows.last_anchor as int)
                        })
                        &&& post.same_pick(pre)
                        &&& post.drag == pre.drag
                    },
                    Some(Drag::ZoomPan { .. }) => {
                        &&& r == Motion::Pan
                        &&& post.same_pick(pre)
                        &&& p.pan_delta == 0 ==> post.scroll_offset == pre.scroll_offset
                            && post.drag == pre.drag
                        &&& p.pan_delta != 0 ==> post.scroll_offset == spec_scrolled(
                            pre.scroll_offset as int,
                            p.pan_delta as int,
                            rows.last_anchor as int,
                        ) && post.drag == Some(Drag::ZoomPan { last_y: p.y })
                    },
                    Some(Drag::HexSelect { anchor }) => {
                        &&& r == Motion::Selecting
                        &&& post.scroll_offset == pre.scroll_offset
                        &&& post.drag == pre.drag
                        &&& match p.hex_byte {
                            Some(off) => {
                                &&& post.selected == Some(off)
                                &&& post.selection matches Some(s)
                                &&& s.start == select_span(
                                    anchor as int,
                                    off as int,
                                    pre.data@.len() as int,
                                ).0
                                &&& s.end == select_span(
                                    anchor as int,
                                    off as int,
                                    pre.data@.len() as int,
                                ).1
                            },
                            None => post.same_pick(pre),
                        }
                    },
                    Some(Drag::Overview) => {
                        &&& r == Motion::Jump
                        &&& post.scroll_offset == capped(
                            p.overview_anchor as int,
                            rows.last_anchor as int,
                        )
                        &&& post.same_pick(pre)
                        &&& post.drag == pre.drag
                    },
                    _ => {
                        &&& r == Motion::Hover
                        &&& post.scroll_offset == pre.scroll_offset
                        &&& post.same_pick(pre)
                        &&& post.drag == pre.drag
                    },
                }
            },
        }
    }

    /// How byte `off` is highlighted in the hex column.
    pub open spec fn spec_mark(self, off: int) -> CellMark {
        if self.selection matches Some(s) && s.start <= off < s.end {
            CellMark::Selected
        } else if self.hovered matches Some(h) && h == off {
            CellMark::Hovered
        } else {
            CellMark::Plain
        }
    }

    /// `row` is the hex row that starts at byte `start` of this state's file.
    pub open spec fn row_planned(self, row: HexRow, start: int) -> bool {
        &&& row.start == start
        &&& start < self.data@.len()
        &&& row.count == (if self.data@.len() - start < self.hex_bpr {
            self.data@.len() - start
        } else {
            self.hex_bpr as int
        })
        &&& row.marks@.len() == row.count
        &&& forall|i: int| 0 <= i < row.count ==> #[trigger] row.marks@[i] == self.spec_mark(start + i)
    }

    /// A fresh viewer: no file, the overview coloured by entropy, the zoom
    /// column by value and the hex column by byte class; 16 bytes per hex row,
    /// 32 per zoom row; a 200 px overview and a 320 px zoom column.
    pub fn new() -> (a: Self)
        ensures
            a.data@.len() == 0,
            a.file_name@.len() == 0,
            a.colormaps@ == seq![Colormap::Entropy, Colormap::Value, Colormap::Class],
            a.scroll_offset == 0,
            a.hex_bpr == 16,
            a.zoom_bpr == 32,
            a.overview_width == 200,
            a.zoom_width == 320,
            a.css_w == 0,
            a.css_h == 0,
            a.hovered is None,
            a.selected is None,
            a.selection is None,
            a.drag is None,
    {
        let a = App {
            data: Vec::new(),
            file_name: String::new(),
            colormaps: [Colormap::Entropy, Colormap::Value, Colormap::Class],
            scroll_offset: 0,
            hex_bpr: 16,
            zoom_bpr: 32,
            overview_width: 200,
            zoom_width: 320,
            css_w: 0,
            css_h: 0,
            hovered: None,
            selected: None,
            selection: None,
            drag: None,
        };
        assert(a.colormaps@ =~= seq![Colormap::Entropy, Colormap::Value, Colormap::Class]);
        a
    }

    /// The column layout of the current canvas.
    pub fn layout(&self) -> (l: Layout)
        ensures
            l == self.spec_layout(),
            l.laid_out(self.css_w as int, self.overview_width as int, self.zoom_width as int),
            l.positions_fit(),
    {
        Layout::new(self.css_w, self.overview_width, self.zoom_width)
    }

    /// Keep the anchor at or before `last`, the last anchor the file allows.
    pub fn clamp_anchor(&mut self, last: usize)
        ensures
            final(self).scroll_offset == capped(old(self).scroll_offset as int, last as int),
            final(self).same_but_anchor(*old(self)),
    {
        if self.scroll_offset > last {
            self.scroll_offset = last;
        }
    }

    /// Take on re-measured rows: the new bytes per row of the hex and zoom
    /// columns, then keep the anchor within what the file allows at them.
    pub fn recompute_bprs(&mut self, rows: Rows)
        ensures
            final(self).hex_bpr == rows.hex_bpr,
            final(self).zoom_bpr == rows.zoom_bpr,
            final(self).scroll_offset == capped(old(self).scroll_offset as int, rows.last_anchor as int),
            final(self).same_file(*old(self)),
            final(self).colormaps == old(self).colormaps,
            final(self).overview_width == old(self).overview_width,
            final(self).zoom_width == old(self).zoom_width,
            final(self).hovered == old(self).hovered,
            final(self).same_pick(*old(self)),
            final(self).drag == old(self).drag,
    {
        self.hex_bpr = rows.hex_bpr;
        self.zoom_bpr = rows.zoom_bpr;
        self.clamp_anchor(rows.last_anchor);
    }

    /// Replace the file: the anchor returns to the start, any selection,
    /// selected byte or hovered byte is dropped, and the rows are re-measured
    /// (`rows` are the row metrics for the new file).
    pub fn set_data(&mut self, name: String, data: Vec<u8>, rows: Rows)
        ensures
            final(self).data == data,
            final(self).file_name == name,
            final(self).scroll_offset == 0,
            final(self).selected is None,
            final(self).selection is None,
            final(self).hovered is None,
            final(self).hex_bpr == rows.hex_bpr,
            final(self).zoom_bpr == rows.zoom_bpr,
            final(self).colormaps == old(self).colormaps,
            final(self).overview_width == old(self).overview_width,
            final(self).zoom_width == old(self).zoom_width,
            final(self).css_w == old(self).css_w,
            final(self).css_h == old(self).css_h,
            final(self).drag == old(self).drag,
    {
        self.data = data;
        self.file_name = name;
        self.scroll_offset = 0;
        self.selected = None;
        self.selection = None;
        self.hovered = None;
        self.recompute_bprs(rows);
    }

    /// Set the canvas size in CSS pixels and take on the rows re-measured
    /// for it.
    pub fn set_viewport(&mut self, css_w: i32, css_h: i32, rows: Rows)
        ensures
            final(self).css_w == css_w,
            final(self).css_h == css_h,
            final(self).hex_bpr == rows.hex_bpr,
            final(self).zoom_bpr == rows.zoom_bpr,
            final(self).scroll_offset == capped(old(self).scroll_offset as int, rows.last_anchor as int),
            final(self).data == old(self).data,
            final(self).file_name == old(self).file_name,
            final(self).colormaps == old(self).colormaps,
            final(self).overview_width == old(self).overview_width,
            final(self).zoom_width == old(self).zoom_width,
            final(self).hovered == old(self).hovered,
            final(self).same_pick(*old(self)),
            final(self).drag == old(self).drag,
    {
        self.css_w = css_w;
        self.css_h = css_h;
        self.recompute_bprs(rows);
    }

    /// Height of the column bodies: below the headers, above the status bar,
    /// and at least one pixel.
    pub fn body_h(&self) -> (h: i32)
        ensures
            h == (if self.css_h - HEADER_H - STATUS_H < 1 {
                1
            } else {
                self.css_h - HEADER_H - STATUS_H
            }),
    {
        if (self.css_h as i64) - (HEADER_H as i64) - (STATUS_H as i64) < 1 {
            1
        } else {
            self.css_h - HEADER_H - STATUS_H
        }
    }

    /// Move the anchor `delta` bytes (towards the start when negative),
    /// saturating at the ends of the address range, then keep it at or before
    /// `last`, the last anchor the file allows.
    pub fn scroll_anchor_by(&mut self, delta: isize, last: usize)
        ensures
            final(self).scroll_offset == spec_scrolled(old(self).scroll_offset as int, delta as int, last as int),
            final(self).same_but_anchor(*old(self)),
    {
        let off = self.scroll_offset;
        self.scroll_offset = if delta >= 0 {
            let d = delta as usize;
            if off > usize::MAX - d {
                usize::MAX
            } else {
                off + d
            }
        } else {
            // |delta|, computed without overflowing at isize::MIN.
            let d = ((-(delta + 1)) as usize) + 1;
            if off < d {
                0
            } else {
                off - d
            }
        };
        self.clamp_anchor(last);
    }

    /// Scroll so byte `off` is on a visible hex row: when it lies outside the
    /// `rows` rows of `hex_bpr` bytes shown from byte `first`, it becomes the
    /// anchor (kept at or before `last`, the last anchor the file allows);
    /// otherwise nothing moves.
    pub fn reveal_byte(&mut self, off: usize, first: usize, rows: usize, last: usize)
        requires
            first + rows * old(self).hex_bpr <= usize::MAX,
        ensures
            final(self).scroll_offset == (if first <= off < first + rows * old(self).hex_bpr {
                old(self).scroll_offset as int
            } else {
                capped(off as int, last as int)
            }),
            final(self).same_but_anchor(*old(self)),
    {
        assert(rows * self.hex_bpr <= usize::MAX) by (nonlinear_arith)
            requires
                first + rows * self.hex_bpr <= usize::MAX,
                first >= 0,
        ;
        let end = first + rows * self.hex_bpr;
        if off < first || off >= end {
            self.scroll_offset = off;
            self.clamp_anchor(last);
        }
    }

    /// Pane-local `(x, y)` of canvas point `(x, y)` inside the hex column's
    /// body, or `None` when the point lies left of the column, on or right of
    /// its scrollbar, or in the header.
    pub fn hex_point(&self, x: i32, y: i32) -> (p: Option<(i32, i32)>)
        ensures
            p == (if x < self.spec_layout().hex_x || x >= self.spec_layout().spec_scrollbar_x()
                || y < HEADER_H {
                None
            } else {
                Some(((x - self.spec_layout().hex_x) as i32, (y - HEADER_H) as i32))
            }),
    {
        let l = self.layout();
        if x < l.hex_x || x >= l.scrollbar_x() || y < HEADER_H {
            None
        } else {
            Some((x - l.hex_x, y - HEADER_H))
        }
    }

    /// The byte keyboard navigation starts from: the selected byte, else the
    /// anchor; `None` when there is no file to navigate.
    pub fn nav_cursor(&self) -> (c: Option<usize>)
        ensures
            c == (if self.data@.len() == 0 {
                None
            } else {
                Some(
                    match self.selected {
                        Some(s) => s,
                        None => self.scroll_offset,
                    },
                )
            }),
    {
        if self.data.len() == 0 {
            return None;
        }
        match self.selected {
            Some(s) => Some(s),
            None => Some(self.scroll_offset),
        }
    }

    /// Keyboard navigation arrived at byte `next`: it becomes the selected
    /// byte and the one-byte selection, and the view scrolls to it when it is
    /// not on the `rows` hex rows shown from byte `first` (see
    /// [`App::reveal_byte`]).
    pub fn navigate_to(&mut self, next: usize, first: usize, rows: usize, last: usize)
        requires
            next < usize::MAX,
            first + rows * old(self).hex_bpr <= usize::MAX,
        ensures
            final(self).selected == Some(next),
            final(self).selection == Some(next..(next + 1) as usize),
            final(self).scroll_offset == (if first <= next < first + rows * old(self).hex_bpr {
                old(self).scroll_offset as int
            } else {
                capped(next as int, last as int)
            }),
            final(self).same_view(*old(self)),
            final(self).hovered == old(self).hovered,
            final(self).drag == old(self).drag,
    {
        self.selected = Some(next);
        self.selection = Some(next..next + 1);
        self.reveal_byte(next, first, rows, last);
    }

    /// Move the anchor to `target`, kept at or before `last`.
    fn jump_anchor(&mut self, target: usize, last: usize)
        ensures
            final(self).scroll_offset == capped(target as int, last as int),
            final(self).same_but_anchor(*old(self)),
    {
        self.scroll_offset = target;
        self.clamp_anchor(last);
    }

    /// Move the anchor to the position the hex scrollbar selects at pointer
    /// `p`, unless the pointer is left of the scrollbar strip.
    fn scrollbar_drag(&mut self, p: &Pointer, last: usize)
        ensures
            final(self).scroll_offset == (if p.x < old(self).spec_layout().spec_scrollbar_x() {
                old(self).scroll_offset as int
            } else {
                capped(p.scrollbar_anchor as int, last as int)
            }),
            final(self).same_but_anchor(*old(self)),
    {
        let l = self.layout();
        if p.x < l.scrollbar_x() {
            return;
        }
        self.jump_anchor(p.scrollbar_anchor, last);
    }

    /// A mouse press at pointer `p`, with `last` the last anchor the file
    /// allows. A header click moves that column to its next colormap; a press
    /// on the status bar does nothing; a press on a divider grabs it; a press
    /// on the hex scrollbar moves the anchor there; a press on a hex byte
    /// selects it and starts a selection drag; a press on the zoom column
    /// starts a pan; a press on the overview of a non-empty file jumps the
    /// anchor to the pressed fraction of the file.
    pub fn on_mouse_down(&mut self, p: &Pointer, last: usize) -> (r: Press)
        requires
            p.hex_byte matches Some(off) ==> off < usize::MAX,
        ensures
            App::pressed(*old(self), *final(self), *p, last as int, r),
    {
        let x = p.x;
        let y = p.y;
        let l = self.layout();
        if y < HEADER_H {
            let panel: usize = if x < l.overview_w + DIVIDER_W {
                0
            } else if x < l.hex_x {
                1
            } else {
                2
            };
            let next = next_colormap(self.colormaps[panel]);
            self.colormaps[panel] = next;
            return Press::Recolored(panel);
        }
        if y as i64 >= self.css_h as i64 - STATUS_H as i64 {
            return Press::Ignored;
        }
        match l.divider_at(x) {
            None => {
                if x >= l.scrollbar_x() && x < l.hex_x + l.hex_w {
                    self.drag = Some(Drag::Scrollbar);
                    self.scrollbar_drag(p, last);
                    Press::Scrollbar
                } else if x >= l.hex_x {
                    if let Some(off) = p.hex_byte {
                        self.drag = Some(Drag::HexSelect { anchor: off });
                        self.selected = Some(off);
                        self.selection = Some(off..off + 1);
                    }
                    Press::HexColumn
                } else if x >= l.zoom_x {
                    self.drag = Some(Drag::ZoomPan { last_y: y });
                    Press::ZoomPan
                } else if self.data.len() > 0 {
                    self.jump_anchor(p.overview_anchor, last);
                    self.drag = Some(Drag::Overview);
                    Press::Overview
                } else {
                    Press::Ignored
                }
            },
            Some(kind) => {
                let start_w = match kind {
                    Divider::OverviewZoom => self.overview_width,
                    Divider::ZoomHex => self.zoom_width,
                };
                self.drag = Some(Drag::Divider(kind, start_w, x));
                Press::DividerGrabbed(kind)
            },
        }
    }

    /// The pointer moved to `p`; `rows` are the row metrics at the column
    /// widths this move leaves. The hovered byte becomes the one under the
    /// pointer, and the gesture in progress continues: a grabbed divider
    /// follows the pointer and the rows are re-measured; a scrubbed scrollbar
    /// moves the anchor; a zoom pan scrolls the anchor by whole rows whenever
    /// the pointer has moved a row; a selection stretches from its anchor to
    /// the byte under the pointer; an overview press jumps the anchor.
    pub fn on_mouse_move(&mut self, p: &Pointer, rows: Rows) -> (r: Motion)
        ensures
            App::moved(*old(self), *final(self), *p, rows, r),
    {
        self.hovered = p.hex_byte;
        match self.drag {
            Some(Drag::Divider(kind, start_w, grab_x)) => {
                let w = Layout::dragged_width(kind, start_w, p.x, grab_x);
                match kind {
                    Divider::OverviewZoom => self.overview_width = w,
                    Divider::ZoomHex => self.zoom_width = w,
                }
                self.recompute_bprs(rows);
                Motion::Resized
            },
            Some(Drag::Scrollbar) => {
                self.scrollbar_drag(p, rows.last_anchor);
                Motion::Scrub
            },
            Some(Drag::ZoomPan { .. }) => {
                if p.pan_delta != 0 {
                    self.drag = Some(Drag::ZoomPan { last_y: p.y });
                    self.scroll_anchor_by(p.pan_delta, rows.last_anchor);
                }
                Motion::Pan
            },
            Some(Drag::HexSelect { anchor }) => {
                if let Some(off) = p.hex_byte {
                    let (lo, hi) = if anchor <= off {
                        (anchor, off)
                    } else {
                        (off, anchor)
                    };
                    let len = self.data.len();
                    // `hi + 1` cut off at the end of the file, without overflow.
                    let end = if hi < len {
                        hi + 1
                    } else {
                        len
                    };
                    self.selection = Some(lo..end);
                    self.selected = Some(off);
                }
                Motion::Selecting
            },
            Some(Drag::Overview) => {
                self.jump_anchor(p.overview_anchor, rows.last_anchor);
                Motion::Jump
            },
            None => Motion::Hover,
        }
    }

    /// The mouse button was released: the gesture ends.
    pub fn end_drag(&mut self)
        ensures
            final(self).drag is None,
            final(self).same_but_drag(*old(self)),
    {
        self.drag = None;
    }

    /// How far through the file the anchor is, in whole percent (0 for an
    /// empty file).
    pub fn scroll_percent(&self) -> (p: usize)
        requires
            self.scroll_offset * 100 <= usize::MAX,
        ensures
            p == (if self.data@.len() == 0 {
                0
            } else {
                self.scroll_offset * 100 / (self.data@.len() as int)
            }),
    {
        if self.data.len() == 0 {
            0
        } else {
            self.scroll_offset * 100 / self.data.len()
        }
    }

    /// How byte `off` is highlighted in the hex column.
    fn mark_of(&self, off: usize) -> (m: CellMark)
        ensures
            m == self.spec_mark(off as int),
    {
        let selected = match &self.selection {
            Some(s) => s.start <= off && off < s.end,
            None => false,
        };
        if selected {
            CellMark::Selected
        } else {
            match self.hovered {
                Some(h) => if h == off {
                    CellMark::Hovered
                } else {
                    CellMark::Plain
                },
                None => CellMark::Plain,
            }
        }
    }

    /// The hex column's visible rows, up to `rows` of them, from byte `first`:
    /// row `r` starts at `first + r * hex_bpr` and shows the bytes up to the
    /// next row or the end of the file, each marked selected, hovered or
    /// plain. The rows stop at the end of the file; with no bytes per row
    /// there are none.
    pub fn hex_rows(&self, first: usize, rows: usize) -> (plan: Vec<HexRow>)
        ensures
            plan@.len() <= rows,
            self.hex_bpr == 0 ==> plan@.len() == 0,
            self.hex_bpr > 0 ==> plan@.len() == rows || first + plan@.len() * self.hex_bpr
                >= self.data@.len(),
            forall|r: int|
                0 <= r < plan@.len() ==> self.row_planned(
                    #[trigger] plan@[r],
                    first + r * self.hex_bpr,
                ),
    {
        let len = self.data.len();
        let bpr = self.hex_bpr;
        let mut plan: Vec<HexRow> = Vec::new();
        if len == 0 || bpr == 0 {
            return plan;
        }
        let mut r: usize = 0;
        let mut start: usize = first;
        while r < rows && start < len
            invariant
                bpr > 0,
                bpr == self.hex_bpr,
                len == self.data@.len(),
                r <= rows,
                plan@.len() == r,
                start < len ==> start == first + r * bpr,
                start >= len ==> first + r * bpr >= len,
                forall|q: int|
                    0 <= q < plan@.len() ==> self.row_planned(#[trigger] plan@[q], first + q * bpr),
            decreases rows - r,
        {
            let n = if len - start < bpr {
                len - start
            } else {
                bpr
            };
            let mut marks: Vec<CellMark> = Vec::new();
            let mut i: usize = 0;
            while i < n
                invariant
                    i <= n,
                    start + n <= len,
                    marks@.len() == i,
                    forall|j: int| 0 <= j < i ==> #[trigger] marks@[j] == self.spec_mark(start + j),
                decreases n - i,
            {
                let m = self.mark_of(start + i);
                marks.push(m);
                i = i + 1;
            }
            let ghost rr = r as int;
            plan.push(HexRow { start, count: n, marks });
            assert((rr + 1) * bpr == rr * bpr + bpr) by (nonlinear_arith);
            assert(self.row_planned(plan@[rr], first + rr * bpr));
            r = r + 1;
            if len - start <= bpr {
                start = len;
            } else {
                start = start + bpr;
            }
        }
        plan
    }
}

/// Scrolling never leaves the anchor past the last anchor the file allows, and
/// a scroll by `delta` followed by a scroll by `-delta` returns the anchor to
/// where it was, as long as neither step hit an end of the file.
pub proof fn lemma_scroll_round_trip(offset: int, delta: int, last: int)
    requires
        0 <= offset <= last <= usize::MAX,
        0 <= offset + delta <= last,
    ensures
        spec_scrolled(offset, delta, last) <= last,
        spec_scrolled(offset, delta, last) == offset + delta,
        spec_scrolled(spec_scrolled(offset, delta, last), -delta, last) == offset,
{
}

/// Whatever the scroll, the anchor ends at or before `last`.
pub proof fn lemma_scroll_bounded(offset: int, delta: int, last: int)
    requires
        0 <= last,
    ensures
        0 <= spec_scrolled(offset, delta, last) <= last,
{
}

/// A press on the status bar, below the column bodies, changes nothing.
pub proof fn lemma_status_bar_press_ignored(pre: App, post: App, p: Pointer, last: int, r: Press)
    requires
        App::pressed(pre, post, p, last, r),
        p.y >= HEADER_H,
        p.y >= pre.css_h - STATUS_H,
    ensures
        r == Press::Ignored,
        post == pre,
{
}

/// A header click moves exactly the clicked column to its next colormap and
/// leaves the other two columns' colormaps, and everything else, alone.
pub proof fn lemma_header_click_recolors_one(pre: App, post: App, p: Pointer, last: int, r: Press)
    requires
        App::pressed(pre, post, p, last, r),
        p.y < HEADER_H,
    ensures
        r == Press::Recolored(header_panel(pre.spec_layout(), p.x as int) as usize),
        post.colormaps@[header_panel(pre.spec_layout(), p.x as int)] == spec_next_colormap(
            pre.colormaps@[header_panel(pre.spec_layout(), p.x as int)],
        ),
        forall|c: int|
            0 <= c < 3 && c != header_panel(pre.spec_layout(), p.x as int) ==> post.colormaps@[c]
                == pre.colormaps@[c],
        post.drag == pre.drag,
        post.scroll_offset == pre.scroll_offset,
        post.same_file(pre),
{
}

/// Three clicks on the same header bring every column back to the colormap
/// it started with.
pub proof fn lemma_three_header_clicks_restore(
    a: App,
    b: App,
    c: App,
    d: App,
    p: Pointer,
    last: int,
    r1: Press,
    r2: Press,
    r3: Press,
)
    requires
        App::pressed(a, b, p, last, r1),
        App::pressed(b, c, p, last, r2),
        App::pressed(c, d, p, last, r3),
        p.y < HEADER_H,
    ensures
        d.colormaps@ == a.colormaps@,
{
    let k = header_panel(a.spec_layout(), p.x as int);
    crate::colormap::lemma_next_colormap_cycles(a.colormaps@[k]);
    assert(d.colormaps@ =~= a.colormaps@);
}

/// Grabbing a divider at `p` and moving the pointer to `q` resizes the column
/// left of it by the distance moved, clamped to the column's range; moving
/// back to the grab point restores the width it started with.
pub proof fn lemma_divider_drag_follows_pointer(
    pre: App,
    mid: App,
    post: App,
    p: Pointer,
    q: Pointer,
    last: int,
    rows: Rows,
    kind: Divider,
    r: Motion,
)
    requires
        App::pressed(pre, mid, p, last, Press::DividerGrabbed(kind)),
        App::moved(mid, post, q, rows, r),
    ensures
        r == Motion::Resized,
        post.column_width(kind) == spec_dragged_width(
            kind,
            pre.column_width(kind) as int,
            q.x as int,
            p.x as int,
        ),
        q.x == p.x && crate::layout::min_width(kind) <= pre.column_width(kind)
            <= crate::layout::max_width(kind) ==> post.column_width(kind) == pre.column_width(kind),
        post.hex_bpr == rows.hex_bpr,
        post.zoom_bpr == rows.zoom_bpr,
        post.drag == Some(Drag::Divider(kind, pre.column_width(kind), p.x)),
{
    lemma_spec_new_laid_out(pre.css_w, pre.overview_width, pre.zoom_width);
}

/// Pressing a byte of the hex column selects exactly that byte and starts a
/// selection drag from it.
pub proof fn lemma_hex_press_selects_byte(pre: App, post: App, p: Pointer, last: int, off: usize)
    requires
        App::pressed(pre, post, p, last, Press::HexColumn),
        p.hex_byte == Some(off),
        off < usize::MAX,
    ensures
        post.selected == Some(off),
        post.selection matches Some(s) && s.start == off && s.end == off + 1,
        post.drag == Some(Drag::HexSelect { anchor: off }),
        post.scroll_offset == pre.scroll_offset,
{
}

/// A scrollbar press, an overview press and every scroll leave the anchor at
/// or before the last anchor the file allows.
pub proof fn lemma_press_keeps_anchor_in_file(pre: App, post: App, p: Pointer, last: int, r: Press)
    requires
        App::pressed(pre, post, p, last, r),
        0 <= last,
        r == Press::Scrollbar || r == Press::Overview,
    ensures
        post.scroll_offset <= last,
        r == Press::Scrollbar && p.scrollbar_anchor <= last ==> post.scroll_offset
            == p.scrollbar_anchor,
        r == Press::Overview && p.overview_anchor <= last ==> post.scroll_offset
            == p.overview_anchor,
{
}

/// Panning the zoom column by `delta` bytes and then back by `-delta` bytes
/// returns the anchor to where it was, as long as neither step hit an end of
/// the file; each pan that moves the anchor remembers the pointer's y.
pub proof fn lemma_pan_round_trip(
    a: App,
    b: App,
    c: App,
    p: Pointer,
    q: Pointer,
    rows: Rows,
    r1: Motion,
    r2: Motion,
)
    requires
        a.drag matches Some(Drag::ZoomPan { .. }),
        App::moved(a, b, p, rows, r1),
        App::moved(b, c, q, rows, r2),
        p.pan_delta != 0,
        q.pan_delta == -p.pan_delta,
        a.scroll_offset <= rows.last_anchor,
        0 <= a.scroll_offset + p.pan_delta <= rows.last_anchor,
    ensures
        b.scroll_offset == a.scroll_offset + p.pan_delta,
        b.drag == Some(Drag::ZoomPan { last_y: p.y }),
        c.scroll_offset == a.scroll_offset,
        c.drag == Some(Drag::ZoomPan { last_y: q.y }),
{
}

/// A selection dragged from byte `anchor` to byte `off` of a file covers both
/// of them and every byte between, and nothing outside the file.
pub proof fn lemma_selection_covers_ends(anchor: int, off: int, len: int)
    requires
        0 <= anchor < len,
        0 <= off < len,
    ensures
        select_span(anchor, off, len).0 <= anchor < select_span(anchor, off, len).1,
        select_span(anchor, off, len).0 <= off < select_span(anchor, off, len).1,
        0 <= select_span(anchor, off, len).0,
        select_span(anchor, off, len).1 <= len,
        select_span(anchor, off, len).1 - select_span(anchor, off, len).0 == (if anchor <= off {
            off - anchor
        } else {
            anchor - off
        }) + 1,
{
}

/// Pressing byte `anchor` and moving over byte `off` of the file selects
/// exactly the bytes from the lower to the higher of the two.
pub proof fn lemma_select_drag(
    pre: App,
    mid: App,
    post: App,
    p: Pointer,
    q: Pointer,
    last: int,
    rows: Rows,
    anchor: usize,
    off: usize,
    r: Motion,
)
    requires
        App::pressed(pre, mid, p, last, Press::HexColumn),
        p.hex_byte == Some(anchor),
        App::moved(mid, post, q, rows, r),
        q.hex_byte == Some(off),
        anchor < pre.data@.len(),
        off < pre.data@.len(),
    ensures
        r == Motion::Selecting,
        post.selected == Some(off),
        post.selection matches Some(s) && s.start <= anchor < s.end && s.start <= off < s.end
            && s.end <= post.data@.len(),
        post.selection matches Some(s) && s.start == (if anchor <= off {
            anchor
        } else {
            off
        }) && s.end == (if anchor <= off {
            off
        } else {
            anchor
        }) + 1,
        post.drag == Some(Drag::HexSelect { anchor }),
{
    lemma_selection_covers_ends(anchor as int, off as int, pre.data@.len() as int);
}

/// The visible hex rows follow each other one row of bytes apart, and every
/// byte they show lies in the file.
pub proof fn lemma_rows_consecutive(a: App, plan: Seq<HexRow>, first: int, r: int, i: int)
    requires
        a.hex_bpr > 0,
        forall|k: int| 0 <= k < plan.len() ==> a.row_planned(#[trigger] plan[k], first + k * a.hex_bpr),
        0 <= r < plan.len(),
        0 <= i < plan[r].count,
    ensures
        r + 1 < plan.len() ==> plan[r + 1].start == plan[r].start + a.hex_bpr && plan[r].count
            == a.hex_bpr,
        plan[r].start + i < a.data@.len(),
{
    assert(a.row_planned(plan[r], first + r * a.hex_bpr));
    if r + 1 < plan.len() {
        assert(a.row_planned(plan[r + 1], first + (r + 1) * a.hex_bpr));
        assert((r + 1) * a.hex_bpr == r * a.hex_bpr + a.hex_bpr) by (nonlinear_arith);
    }
}

/// In the column bodies, a press on a divider strip grabs that divider,
/// remembering the column's width and the grab point, whether or not a file
/// is loaded; the anchor and the selection stay where they were.
pub proof fn lemma_divider_press_grabs(
    pre: App,
    post: App,
    p: Pointer,
    last: int,
    r: Press,
    kind: Divider,
)
    requires
        App::pressed(pre, post, p, last, r),
        HEADER_H <= p.y,
        p.y < pre.css_h - STATUS_H,
        pre.spec_layout().on_divider(kind, p.x as int),
    ensures
        r == Press::DividerGrabbed(kind),
        post.drag == Some(Drag::Divider(kind, pre.column_width(kind), p.x)),
        post.scroll_offset == pre.scroll_offset,
        post.selected == pre.selected,
        post.selection == pre.selection,
        post.colormaps == pre.colormaps,
{
    lemma_spec_new_laid_out(pre.css_w, pre.overview_width, pre.zoom_width);
    crate::layout::lemma_divider_hit_test(
        pre.spec_layout(),
        pre.css_w as int,
        pre.overview_width as int,
        pre.zoom_width as int,
        p.x as int,
    );
}

/// In the column bodies, a press in the overview column jumps the anchor to
/// the overview's reading of the pressed y (kept within the file) and starts
/// an overview drag when a file is loaded, and changes nothing otherwise.
pub proof fn lemma_overview_press(pre: App, post: App, p: Pointer, last: int, r: Press)
    requires
        App::pressed(pre, post, p, last, r),
        HEADER_H <= p.y,
        p.y < pre.css_h - STATUS_H,
        p.x < pre.spec_layout().overview_x + pre.spec_layout().overview_w,
    ensures
        pre.data@.len() > 0 ==> r == Press::Overview && post.drag == Some(Drag::Overview)
            && post.scroll_offset == (if p.overview_anchor <= last {
            p.overview_anchor as int
        } else {
            last
        }),
        pre.data@.len() == 0 ==> r == Press::Ignored && post == pre,
{
    lemma_spec_new_laid_out(pre.css_w, pre.overview_width, pre.zoom_width);
}

/// In the column bodies, a press in the zoom column starts a pan from the
/// pressed y and moves nothing.
pub proof fn lemma_zoom_press(pre: App, post: App, p: Pointer, last: int, r: Press)
    requires
        App::pressed(pre, post, p, last, r),
        HEADER_H <= p.y,
        p.y < pre.css_h - STATUS_H,
        pre.spec_layout().zoom_x <= p.x < pre.spec_layout().zoom_x + pre.spec_layout().zoom_w,
    ensures
        r == Press::ZoomPan,
        post.drag == Some(Drag::ZoomPan { last_y: p.y }),
        post.scroll_offset == pre.scroll_offset,
        post.selected == pre.selected,
        post.selection == pre.selection,
{
    lemma_spec_new_laid_out(pre.css_w, pre.overview_width, pre.zoom_width);
}

/// In the column bodies, a press on the hex column left of its scrollbar
/// selects the byte under the pointer and starts a selection drag from it,
/// and changes nothing when no byte is there; a press on the scrollbar strip
/// grabs the scrollbar and moves the anchor to the track's reading of the
/// pressed y (kept within the file).
pub proof fn lemma_hex_column_press(pre: App, post: App, p: Pointer, last: int, r: Press)
    requires
        App::pressed(pre, post, p, last, r),
        HEADER_H <= p.y,
        p.y < pre.css_h - STATUS_H,
        pre.spec_layout().hex_x <= p.x < pre.spec_layout().hex_x + pre.spec_layout().hex_w,
    ensures
        p.x < pre.spec_layout().spec_scrollbar_x() ==> r == Press::HexColumn && match p.hex_byte {
            Some(off) => post.drag == Some(Drag::HexSelect { anchor: off }) && post.selected == Some(
                off,
            ) && post.selection == Some(off..(off + 1) as usize) && post.scroll_offset
                == pre.scroll_offset,
            None => post == pre,
        },
        p.x >= pre.spec_layout().spec_scrollbar_x() ==> r == Press::Scrollbar && post.drag == Some(
            Drag::Scrollbar,
        ) && post.scroll_offset == (if p.scrollbar_anchor <= last {
            p.scrollbar_anchor as int
        } else {
            last
        }),
{
    lemma_spec_new_laid_out(pre.css_w, pre.overview_width, pre.zoom_width);
}

/// Every pointer move makes the byte under the pointer the hovered one,
/// whatever the gesture, and never changes the file or the colormaps.
pub proof fn lemma_move_tracks_hover(pre: App, post: App, p: Pointer, rows: Rows, r: Motion)
    requires
        App::moved(pre, post, p, rows, r),
    ensures
        post.hovered == p.hex_byte,
        post.data == pre.data,
        post.colormaps == pre.colormaps,
{
}

/// An overview drag follows the pointer's y wherever the pointer goes until
/// the button is released: every move sets the anchor to the overview's
/// reading of that y, kept within the file, whatever the pointer's x.
pub proof fn lemma_overview_drag_follows(pre: App, post: App, p: Pointer, rows: Rows, r: Motion)
    requires
        pre.drag == Some(Drag::Overview),
        App::moved(pre, post, p, rows, r),
    ensures
        r == Motion::Jump,
        post.scroll_offset == (if p.overview_anchor <= rows.last_anchor {
            p.overview_anchor
        } else {
            rows.last_anchor
        }),
        post.drag == Some(Drag::Overview),
        post.selected == pre.selected,
        post.selection == pre.selection,
{
}

/// A scrollbar drag moves the anchor to the track's reading of the pointer's
/// y, kept within the file, while the pointer is on or right of the
/// scrollbar strip, and leaves it alone while the pointer is left of it.
pub proof fn lemma_scrollbar_drag_follows(pre: App, post: App, p: Pointer, rows: Rows, r: Motion)
    requires
        pre.drag == Some(Drag::Scrollbar),
        App::moved(pre, post, p, rows, r),
    ensures
        r == Motion::Scrub,
        p.x >= pre.spec_layout().spec_scrollbar_x() ==> post.scroll_offset == (
        if p.scrollbar_anchor <= rows.last_anchor {
            p.scrollbar_anchor
        } else {
            rows.last_anchor
        }),
        p.x < pre.spec_layout().spec_scrollbar_x() ==> post.scroll_offset == pre.scroll_offset,
        post.drag == Some(Drag::Scrollbar),
{
}

/// A zoom pan moves the anchor by the pan's byte delta, saturating at the
/// first byte (and at the top of the address range) and kept within the
/// file, and then pans on from the pointer's y; a move of less than a row
/// (delta 0) moves nothing and keeps the pan's starting y.
pub proof fn lemma_zoom_pan_moves_anchor(pre: App, post: App, p: Pointer, rows: Rows, r: Motion)
    requires
        pre.drag matches Some(Drag::ZoomPan { .. }),
        App::moved(pre, post, p, rows, r),
    ensures
        r == Motion::Pan,
        p.pan_delta == 0 ==> post.scroll_offset == pre.scroll_offset && post.drag == pre.drag,
        p.pan_delta != 0 ==> post.drag == Some(Drag::ZoomPan { last_y: p.y }),
        p.pan_delta != 0 && pre.scroll_offset + p.pan_delta < 0 ==> post.scroll_offset == 0,
        p.pan_delta != 0 && 0 <= pre.scroll_offset + p.pan_delta <= rows.last_anchor
            ==> post.scroll_offset == pre.scroll_offset + p.pan_delta,
        p.pan_delta != 0 && pre.scroll_offset + p.pan_delta > rows.last_anchor
            ==> post.scroll_offset == rows.last_anchor,
        post.selected == pre.selected,
        post.selection == pre.selection,
{
}

/// Moving a grabbed divider sets the column's width to its width when
/// grabbed plus the distance from the grab point, held within the column's
/// range (120 to 800 px for the overview, 160 to 1600 px for the zoom
/// column), re-measures the rows, and leaves the other column's width alone.
pub proof fn lemma_divider_move_sets_width(
    pre: App,
    post: App,
    p: Pointer,
    rows: Rows,
    r: Motion,
    kind: Divider,
    start_w: i32,
    grab_x: i32,
)
    requires
        pre.drag == Some(Drag::Divider(kind, start_w, grab_x)),
        App::moved(pre, post, p, rows, r),
    ensures
        r == Motion::Resized,
        kind == Divider::OverviewZoom ==> post.overview_width == (if start_w + p.x - grab_x < 120 {
            120
        } else if start_w + p.x - grab_x > 800 {
            800
        } else {
            start_w + p.x - grab_x
        }) && post.zoom_width == pre.zoom_width,
        kind == Divider::ZoomHex ==> post.zoom_width == (if start_w + p.x - grab_x < 160 {
            160
        } else if start_w + p.x - grab_x > 1600 {
            1600
        } else {
            start_w + p.x - grab_x
        }) && post.overview_width == pre.overview_width,
        post.hex_bpr == rows.hex_bpr,
        post.zoom_bpr == rows.zoom_bpr,
        post.scroll_offset == (if pre.scroll_offset <= rows.last_anchor {
            pre.scroll_offset
        } else {
            rows.last_anchor
        }),
{
}

/// Each byte shown on a visible hex row is marked selected when it lies in
/// the selection, hovered when it is under the pointer but not selected
/// (whether or not any selection exists), and plain otherwise.
pub proof fn lemma_row_marks(a: App, row: HexRow, start: int, i: int)
    requires
        a.row_planned(row, start),
        0 <= i < row.count,
    ensures
        (a.selection matches Some(s) && s.start <= start + i < s.end) ==> row.marks@[i]
            == CellMark::Selected,
        !(a.selection matches Some(s) && s.start <= start + i < s.end) && (
        a.hovered matches Some(h) && h == start + i) ==> row.marks@[i] == CellMark::Hovered,
        !(a.selection matches Some(s) && s.start <= start + i < s.end) && !(
        a.hovered matches Some(h) && h == start + i) ==> row.marks@[i] == CellMark::Plain,
{
    assert(row.marks@[i] == a.spec_mark(start + i));
}

/// The visible hex rows show every byte of the file from `first` up to the
/// end of the `rows` rows: byte `off` appears on row `(off - first) / hex_bpr`
/// at position `(off - first) % hex_bpr`.
pub proof fn lemma_rows_show_every_byte(a: App, plan: Seq<HexRow>, first: int, rows: int, off: int)
    requires
        a.hex_bpr > 0,
        0 <= first,
        plan.len() <= rows,
        plan.len() == rows || first + plan.len() * a.hex_bpr >= a.data@.len(),
        forall|k: int| 0 <= k < plan.len() ==> a.row_planned(#[trigger] plan[k], first + k * a.hex_bpr),
        first <= off < a.data@.len(),
        off < first + rows * a.hex_bpr,
    ensures
        (off - first) / (a.hex_bpr as int) < plan.len(),
        plan[(off - first) / (a.hex_bpr as int)].start + (off - first) % (a.hex_bpr as int) == off,
        (off - first) % (a.hex_bpr as int) < plan[(off - first) / (a.hex_bpr as int)].count,
{
    let b = a.hex_bpr as int;
    let d = off - first;
    let q = d / b;
    let m = d % b;
    assert(d == q * b + m && 0 <= m < b && q >= 0) by (nonlinear_arith)
        requires
            b > 0,
            d >= 0,
            q == d / b,
            m == d % b,
    ;
    assert(q < rows) by (nonlinear_arith)
        requires
            d == q * b + m,
            0 <= m,
            d < rows * b,
            b > 0,
    ;
    if plan.len() < rows {
        let n = plan.len() as int;
        assert(q < n) by (nonlinear_arith)
            requires
                first + n * b >= a.data@.len(),
                off < a.data@.len(),
                off == first + q * b + m,
                0 <= m,
                b > 0,
        ;
    }
    assert(a.row_planned(plan[q], first + q * b));
}

/// A header click picks its column by x: the overview's header runs through
/// the overview/zoom divider, the zoom's from there to the hex column, and
/// the hex column's from its left edge on.
pub proof fn lemma_header_click_column(pre: App, post: App, p: Pointer, last: int, r: Press)
    requires
        App::pressed(pre, post, p, last, r),
        p.y < HEADER_H,
    ensures
        p.x < pre.spec_layout().overview_w + DIVIDER_W ==> r == Press::Recolored(0),
        pre.spec_layout().overview_w + DIVIDER_W <= p.x < pre.spec_layout().hex_x ==> r
            == Press::Recolored(1),
        pre.spec_layout().hex_x <= p.x ==> r == Press::Recolored(2),
        post.colormaps@.len() == 3,
{
}

/// Scrolling by `delta` moves the anchor by exactly `delta` while it stays
/// within the file, stops at the first byte when it would pass it, and stops
/// at the last anchor the file allows when it would pass that; keeping an
/// anchor within the file changes it only when it lies past the end.
pub proof fn lemma_scroll_moves_by_delta(offset: int, delta: int, last: int)
    requires
        0 <= offset <= usize::MAX,
        0 <= last <= usize::MAX,
    ensures
        0 <= offset + delta <= last ==> spec_scrolled(offset, delta, last) == offset + delta,
        offset + delta < 0 ==> spec_scrolled(offset, delta, last) == 0,
        offset + delta > last ==> spec_scrolled(offset, delta, last) == last,
        offset <= last ==> capped(offset, last) == offset,
        offset > last ==> capped(offset, last) == last,
{
}

} // verus!
