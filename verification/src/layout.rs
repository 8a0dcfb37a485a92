//! Layout of the three columns (overview, zoom, hex) across the canvas, the
//! draggable dividers between them, and the hex column's scrollbar strip.
//!
//! Positions and widths are whole CSS pixels: the frontend receives integer
//! pointer offsets and window sizes, and divider drags are rounded to whole
//! pixels before they are stored.

use vstd::prelude::*;

verus! {

/// Width of the draggable divider strips between columns, in CSS pixels.
pub const DIVIDER_W: i32 = 6;

/// Clamp range for the overview column's width.
pub const OVERVIEW_W_MIN: i32 = 120;
pub const OVERVIEW_W_MAX: i32 = 800;

/// Clamp range for the zoom column's width.
pub const ZOOM_W_MIN: i32 = 160;
pub const ZOOM_W_MAX: i32 = 1600;

/// The narrowest the hex column ever gets.
pub const HEX_W_FLOOR: i32 = 200;

/// Height of the per-column header and of the bottom status bar.
pub const HEADER_H: i32 = 28;
pub const STATUS_H: i32 = 24;

/// Width of the hex column's scrollbar strip.
pub const SCROLLBAR_W: i32 = 10;

/// Hex row metrics: 18 px row, 3 px gap, 21 px pitch.
pub const ROW_H: i32 = 18;
pub const ROW_GAP: i32 = 3;
pub const BLOCK_H: i32 = 21;

/// `v` limited to `[lo, hi]`.
pub open spec fn clamp(v: int, lo: int, hi: int) -> int {
    if v < lo {
        lo
    } else if v > hi {
        hi
    } else {
        v
    }
}

/// Whether `v` fits an `i32`.
pub open spec fn fits_i32(v: int) -> bool {
    i32::MIN <= v <= i32::MAX
}

/// Which draggable divider a pointer grabbed.
#[derive(Clone, Copy, Debug, PartialEq, Eq, Structural, Hash)]
pub enum Divider {
    /// Between the overview and zoom columns; resizes the overview.
    OverviewZoom,
    /// Between the zoom and hex columns; resizes the zoom.
    ZoomHex,
}

/// The smallest width the column left of `kind` may take.
pub open spec fn min_width(kind: Divider) -> int {
    match kind {
        Divider::OverviewZoom => OVERVIEW_W_MIN as int,
        Divider::ZoomHex => ZOOM_W_MIN as int,
    }
}

/// The largest width the column left of `kind` may take.
pub open spec fn max_width(kind: Divider) -> int {
    match kind {
        Divider::OverviewZoom => OVERVIEW_W_MAX as int,
        Divider::ZoomHex => ZOOM_W_MAX as int,
    }
}

/// The width the column left of `kind` takes when the divider, grabbed at
/// canvas x `grab_dx` while the column was `start_w` wide, is dragged to
/// canvas x: grown by the distance moved, within the column's range.
pub open spec fn spec_dragged_width(kind: Divider, start_w: int, x: int, grab_dx: int) -> int {
    clamp(start_w + x - grab_dx, min_width(kind), max_width(kind))
}

/// Column x-ranges inside the canvas, derived from the two adjustable widths.
/// The hex column takes the remainder.
#[derive(Clone, Copy, Debug)]
pub struct Layout {
    pub overview_x: i32,
    pub overview_w: i32,
    pub zoom_x: i32,
    pub zoom_w: i32,
    pub hex_x: i32,
    pub hex_w: i32,
}

impl Layout {
    /// The layout of a canvas `canvas_w` wide whose overview and zoom columns
    /// were asked to be `overview_w` and `zoom_w` wide.
    pub open spec fn spec_new(canvas_w: int, overview_w: int, zoom_w: int) -> Layout {
        let ow = clamp(overview_w, OVERVIEW_W_MIN as int, OVERVIEW_W_MAX as int);
        let zw = clamp(zoom_w, ZOOM_W_MIN as int, ZOOM_W_MAX as int);
        let zx = ow + DIVIDER_W;
        let hx = zx + zw + DIVIDER_W;
        let hw = if canvas_w - hx < HEX_W_FLOOR {
            HEX_W_FLOOR as int
        } else {
            canvas_w - hx
        };
        Layout {
            overview_x: 0,
            overview_w: ow as i32,
            zoom_x: zx as i32,
            zoom_w: zw as i32,
            hex_x: hx as i32,
            hex_w: hw as i32,
        }
    }

    /// `self` is the layout of a canvas `canvas_w` wide whose overview and zoom
    /// columns were asked to be `overview_w` and `zoom_w` wide.
    pub open spec fn laid_out(self, canvas_w: int, overview_w: int, zoom_w: int) -> bool {
        &&& self.overview_x == 0
        &&& self.overview_w == clamp(overview_w, OVERVIEW_W_MIN as int, OVERVIEW_W_MAX as int)
        &&& self.zoom_x == self.overview_w + DIVIDER_W
        &&& self.zoom_w == clamp(zoom_w, ZOOM_W_MIN as int, ZOOM_W_MAX as int)
        &&& self.hex_x == self.zoom_x + self.zoom_w + DIVIDER_W
        &&& self.hex_w == (if canvas_w - self.hex_x < HEX_W_FLOOR {
            HEX_W_FLOOR as int
        } else {
            canvas_w - self.hex_x
        })
    }

    /// Left edge of the divider strip `kind`.
    pub open spec fn spec_divider_pos(self, kind: Divider) -> int {
        match kind {
            Divider::OverviewZoom => self.overview_w as int,
            Divider::ZoomHex => self.zoom_x + self.zoom_w,
        }
    }

    /// Whether canvas x lies on the divider strip `kind`.
    pub open spec fn on_divider(self, kind: Divider, x: int) -> bool {
        self.spec_divider_pos(kind) <= x < self.spec_divider_pos(kind) + DIVIDER_W
    }

    /// The divider under canvas x, if any.
    pub open spec fn spec_divider_at(self, x: int) -> Option<Divider> {
        if self.on_divider(Divider::OverviewZoom, x) {
            Some(Divider::OverviewZoom)
        } else if self.on_divider(Divider::ZoomHex, x) {
            Some(Divider::ZoomHex)
        } else {
            None
        }
    }

    /// Left edge of the hex column's scrollbar strip: flush with the right edge
    /// of the hex column.
    pub open spec fn spec_scrollbar_x(self) -> int {
        self.hex_x + self.hex_w - SCROLLBAR_W
    }

    /// The positions this layout's methods compute fit an `i32`.
    pub open spec fn positions_fit(self) -> bool {
        &&& fits_i32(self.zoom_x + self.zoom_w)
        &&& fits_i32(self.zoom_x + self.zoom_w + DIVIDER_W)
        &&& fits_i32(self.overview_w + DIVIDER_W)
        &&& fits_i32(self.hex_x + self.hex_w)
        &&& fits_i32(self.spec_scrollbar_x())
    }

    /// Lay out three columns of a canvas `canvas_w` CSS pixels wide. The
    /// dividers are fixed-width strips between the columns; the hex column
    /// absorbs the rest (floored at 200 px, so extreme widths squeeze the
    /// other two instead of collapsing the hex view).
    pub fn new(canvas_w: i32, overview_w: i32, zoom_w: i32) -> (l: Self)
        ensures
            l == Layout::spec_new(canvas_w as int, overview_w as int, zoom_w as int),
            l.laid_out(canvas_w as int, overview_w as int, zoom_w as int),
            l.positions_fit(),
    {
        let overview_w = if overview_w < OVERVIEW_W_MIN {
            OVERVIEW_W_MIN
        } else if overview_w > OVERVIEW_W_MAX {
            OVERVIEW_W_MAX
        } else {
            overview_w
        };
        let zoom_w = if zoom_w < ZOOM_W_MIN {
            ZOOM_W_MIN
        } else if zoom_w > ZOOM_W_MAX {
            ZOOM_W_MAX
        } else {
            zoom_w
        };
        let overview_x: i32 = 0;
        let zoom_x = overview_w + DIVIDER_W;
        let hex_x = zoom_x + zoom_w + DIVIDER_W;
        // `canvas_w - hex_x < 200`, written so that it cannot overflow.
        let hex_w = if canvas_w < hex_x + HEX_W_FLOOR {
            HEX_W_FLOOR
        } else {
            canvas_w - hex_x
        };
        Layout { overview_x, overview_w, zoom_x, zoom_w, hex_x, hex_w }
    }

    /// Left edge of the divider strip `kind`.
    pub fn divider_pos(&self, kind: Divider) -> (d: i32)
        requires
            self.positions_fit(),
        ensures
            d == self.spec_divider_pos(kind),
    {
        match kind {
            Divider::OverviewZoom => self.overview_w,
            Divider::ZoomHex => self.zoom_x + self.zoom_w,
        }
    }

    /// The divider under canvas x, if any (a `DIVIDER_W` strip from its
    /// position). Where the strips overlap, the overview/zoom divider wins.
    pub fn divider_at(&self, x: i32) -> (r: Option<Divider>)
        requires
            self.positions_fit(),
        ensures
            r == self.spec_divider_at(x as int),
    {
        let d = self.divider_pos(Divider::OverviewZoom);
        if x >= d && x < d + DIVIDER_W {
            return Some(Divider::OverviewZoom);
        }
        let d = self.divider_pos(Divider::ZoomHex);
        if x >= d && x < d + DIVIDER_W {
            return Some(Divider::ZoomHex);
        }
        None
    }

    /// The width the column left of `kind` should take when the pointer that
    /// grabbed the divider at canvas x `grab_dx`, while the column was
    /// `start_w` wide, is now at canvas x: the column grows by the distance
    /// moved, within its clamp range.
    pub fn dragged_width(kind: Divider, start_w: i32, x: i32, grab_dx: i32) -> (w: i32)
        ensures
            w == spec_dragged_width(kind, start_w as int, x as int, grab_dx as int),
    {
        let (min, max): (i64, i64) = match kind {
            Divider::OverviewZoom => (OVERVIEW_W_MIN as i64, OVERVIEW_W_MAX as i64),
            Divider::ZoomHex => (ZOOM_W_MIN as i64, ZOOM_W_MAX as i64),
        };
        let raw: i64 = start_w as i64 + x as i64 - grab_dx as i64;
        let w: i64 = if raw < min {
            min
        } else if raw > max {
            max
        } else {
            raw
        };
        w as i32
    }

    /// The hex column's scrollbar strip: `SCROLLBAR_W` wide, flush with the
    /// right edge of the canvas's hex column.
    pub fn scrollbar_x(&self) -> (sx: i32)
        requires
            self.positions_fit(),
        ensures
            sx == self.spec_scrollbar_x(),
    {
        self.hex_x + self.hex_w - SCROLLBAR_W
    }
}

/// The layout `Layout::new` builds from `i32` sizes is the one its inputs ask
/// for, and the positions computed from it fit an `i32`.
pub proof fn lemma_spec_new_laid_out(canvas_w: i32, overview_w: i32, zoom_w: i32)
    ensures
        Layout::spec_new(canvas_w as int, overview_w as int, zoom_w as int).laid_out(
            canvas_w as int,
            overview_w as int,
            zoom_w as int,
        ),
        Layout::spec_new(canvas_w as int, overview_w as int, zoom_w as int).positions_fit(),
{
}

/// The columns of a laid-out canvas sit side by side, each divider strip
/// exactly filling the gap between the two columns it separates, and the
/// scrollbar strip ending at the hex column's right edge.
pub proof fn lemma_columns_adjacent(l: Layout, canvas_w: int, overview_w: int, zoom_w: int)
    requires
        l.laid_out(canvas_w, overview_w, zoom_w),
    ensures
        l.spec_divider_pos(Divider::OverviewZoom) == l.overview_x + l.overview_w,
        l.spec_divider_pos(Divider::OverviewZoom) + DIVIDER_W == l.zoom_x,
        l.spec_divider_pos(Divider::ZoomHex) == l.zoom_x + l.zoom_w,
        l.spec_divider_pos(Divider::ZoomHex) + DIVIDER_W == l.hex_x,
        l.spec_scrollbar_x() + SCROLLBAR_W == l.hex_x + l.hex_w,
        l.hex_x <= l.spec_scrollbar_x(),
{
}

/// Widths are clamped into their ranges, the hex column never collapses below
/// its floor, and whenever the canvas has room the hex column takes exactly
/// the rest of it.
pub proof fn lemma_widths_bounded(l: Layout, canvas_w: int, overview_w: int, zoom_w: int)
    requires
        l.laid_out(canvas_w, overview_w, zoom_w),
    ensures
        OVERVIEW_W_MIN <= l.overview_w <= OVERVIEW_W_MAX,
        ZOOM_W_MIN <= l.zoom_w <= ZOOM_W_MAX,
        l.hex_w >= HEX_W_FLOOR,
        l.hex_x + l.hex_w >= canvas_w,
        canvas_w - l.hex_x >= HEX_W_FLOOR ==> l.hex_x + l.hex_w == canvas_w,
        OVERVIEW_W_MIN <= overview_w <= OVERVIEW_W_MAX ==> l.overview_w == overview_w,
        ZOOM_W_MIN <= zoom_w <= ZOOM_W_MAX ==> l.zoom_w == zoom_w,
{
}

/// In a laid-out canvas the two divider strips do not overlap, and every
/// pixel of each strip hits that divider and no other.
pub proof fn lemma_divider_hit_test(l: Layout, canvas_w: int, overview_w: int, zoom_w: int, x: int)
    requires
        l.laid_out(canvas_w, overview_w, zoom_w),
    ensures
        !(l.on_divider(Divider::OverviewZoom, x) && l.on_divider(Divider::ZoomHex, x)),
        l.on_divider(Divider::OverviewZoom, x) ==> l.spec_divider_at(x) == Some(
            Divider::OverviewZoom,
        ),
        l.on_divider(Divider::ZoomHex, x) ==> l.spec_divider_at(x) == Some(Divider::ZoomHex),
        l.spec_divider_at(x) is None ==> x < l.spec_divider_pos(Divider::OverviewZoom) || (
        l.spec_divider_pos(Divider::OverviewZoom) + DIVIDER_W <= x < l.spec_divider_pos(
            Divider::ZoomHex,
        )) || x >= l.hex_x,
{
}

/// Dragging a divider moves it by exactly the distance the pointer moved, as
/// long as the width stays in range.
pub proof fn lemma_drag_follows_pointer(kind: Divider, start_w: int, x: int, grab_dx: int)
    requires
        min_width(kind) <= start_w + x - grab_dx <= max_width(kind),
    ensures
        spec_dragged_width(kind, start_w, x, grab_dx) - start_w == x - grab_dx,
{
}

/// Dragging a divider back to the point where it was grabbed gives the column
/// the width it had when grabbed, whenever that width was in range.
pub proof fn lemma_drag_back_restores(kind: Divider, start_w: int, grab_dx: int)
    requires
        min_width(kind) <= start_w <= max_width(kind),
    ensures
        spec_dragged_width(kind, start_w, grab_dx, grab_dx) == start_w,
{
}

/// A farther drag never gives a narrower column.
pub proof fn lemma_drag_monotone(kind: Divider, start_w: int, x1: int, x2: int, grab_dx: int)
    requires
        x1 <= x2,
    ensures
        spec_dragged_width(kind, start_w, x1, grab_dx) <= spec_dragged_width(
            kind,
            start_w,
            x2,
            grab_dx,
        ),
{
}

/// Whatever the pointer does, a dragged width stays within its clamp range.
pub proof fn lemma_drag_in_range(kind: Divider, start_w: int, x: int, grab_dx: int)
    ensures
        min_width(kind) <= spec_dragged_width(kind, start_w, x, grab_dx) <= max_width(kind),
{
}

/// In a laid-out canvas the overview/zoom divider is the 6 px strip right of
/// the overview column, the zoom/hex divider the strip between the zoom and
/// hex columns, and no other x grabs a divider.
pub proof fn lemma_divider_strips(l: Layout, canvas_w: int, overview_w: int, zoom_w: int, x: int)
    requires
        l.laid_out(canvas_w, overview_w, zoom_w),
    ensures
        l.spec_divider_at(x) == Some(Divider::OverviewZoom) <==> l.overview_w <= x < l.overview_w
            + 6,
        l.spec_divider_at(x) == Some(Divider::ZoomHex) <==> l.zoom_x + l.zoom_w <= x < l.hex_x,
        l.spec_divider_at(x) is None <==> x < l.overview_w || (l.zoom_x <= x < l.zoom_x + l.zoom_w)
            || x >= l.hex_x,
{
}

/// A dragged width is the grabbed width plus the distance moved, held within
/// 120 to 800 px for the overview and 160 to 1600 px for the zoom column.
pub proof fn lemma_dragged_width_values(kind: Divider, start_w: int, x: int, grab_dx: int)
    ensures
        kind == Divider::OverviewZoom ==> spec_dragged_width(kind, start_w, x, grab_dx) == (if start_w
            + x - grab_dx < 120 {
            120
        } else if start_w + x - grab_dx > 800 {
            800
        } else {
            start_w + x - grab_dx
        }),
        kind == Divider::ZoomHex ==> spec_dragged_width(kind, start_w, x, grab_dx) == (if start_w + x
            - grab_dx < 160 {
            160
        } else if start_w + x - grab_dx > 1600 {
            1600
        } else {
            start_w + x - grab_dx
        }),
{
}

} // verus!
