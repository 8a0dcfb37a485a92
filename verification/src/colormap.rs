//! The colormaps a column can show, in display order.

use vstd::prelude::*;

verus! {

/// How a column colours each byte.
#[derive(Clone, Copy, Debug, PartialEq, Eq, Structural, Hash)]
pub enum Colormap {
    /// By the entropy of the window the byte lies in.
    Entropy,
    /// By the byte's value.
    Value,
    /// By the byte's class (zero, printable, control, high, ...).
    Class,
}

/// The colormaps in display order: the order a header click walks through.
pub open spec fn display_order() -> Seq<Colormap> {
    seq![Colormap::Entropy, Colormap::Value, Colormap::Class]
}

/// Position of `c` in display order.
pub open spec fn display_index(c: Colormap) -> int {
    match c {
        Colormap::Entropy => 0,
        Colormap::Value => 1,
        Colormap::Class => 2,
    }
}

/// The colormap that follows `c` in display order, wrapping after the last.
pub open spec fn spec_next_colormap(c: Colormap) -> Colormap {
    match c {
        Colormap::Entropy => Colormap::Value,
        Colormap::Value => Colormap::Class,
        Colormap::Class => Colormap::Entropy,
    }
}

/// Cycle to the next colormap in display order (header clicks).
pub fn next_colormap(c: Colormap) -> (r: Colormap)
    ensures
        r == spec_next_colormap(c),
{
    let i: usize = match c {
        Colormap::Entropy => 0,
        Colormap::Value => 1,
        Colormap::Class => 2,
    };
    let n: usize = (i + 1) % 3;
    if n == 0 {
        Colormap::Entropy
    } else if n == 1 {
        Colormap::Value
    } else {
        Colormap::Class
    }
}

/// Every colormap has its place in the display order, and that place is unique.
pub proof fn lemma_display_order_complete(c: Colormap)
    ensures
        0 <= display_index(c) < display_order().len(),
        display_order()[display_index(c)] == c,
{
}

/// A header click moves a column one step along the display order, wrapping
/// from the last colormap to the first.
pub proof fn lemma_next_follows_display_order(c: Colormap)
    ensures
        spec_next_colormap(c) == display_order()[(display_index(c) + 1) % (
        display_order().len() as int)],
{
    assert(display_order().len() == 3);
    assert(display_order()[0] == Colormap::Entropy);
    assert(display_order()[1] == Colormap::Value);
    assert(display_order()[2] == Colormap::Class);
}

/// Clicking a header as many times as there are colormaps brings the column
/// back to the colormap it started with, and every click changes it.
pub proof fn lemma_next_colormap_cycles(c: Colormap)
    ensures
        spec_next_colormap(c) != c,
        spec_next_colormap(spec_next_colormap(spec_next_colormap(c))) == c,
{
}

/// Distinct colormaps have distinct successors: the cycle visits each
/// colormap exactly once per round.
pub proof fn lemma_next_colormap_injective(a: Colormap, b: Colormap)
    requires
        spec_next_colormap(a) == spec_next_colormap(b),
    ensures
        a == b,
{
}

} // verus!
