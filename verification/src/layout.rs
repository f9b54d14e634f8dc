//! Placement of the interface on the terminal: the centred panel and the
//! label drawn over the speed gauge.

use ratatui::layout::{Constraint, Direction, Flex, Layout, Rect};
use vstd::prelude::*;

verus! {

/// Width and height of the interface panel, in terminal cells.
pub const TUI_WIDTH: u16 = 60;

pub const TUI_HEIGHT: u16 = 18;

/// A rectangle of terminal cells.
#[derive(Debug, Clone, Copy, PartialEq, Eq, Structural)]
pub struct Area {
    pub x: u16,
    pub y: u16,
    pub width: u16,
    pub height: u16,
}

/// The direction in which a layout splits an area.
#[derive(Debug, Clone, Copy, PartialEq, Eq, Structural)]
pub enum Axis {
    Horizontal,
    Vertical,
}

/// Where a layout puts the room its constraints leave over (ratatui's
/// `Flex::Start`, the default, and `Flex::Center`).
#[derive(Debug, Clone, Copy, PartialEq, Eq, Structural)]
pub enum Spread {
    Start,
    Center,
}

/// The rectangles ratatui's `Layout::split` gives for one
/// `Constraint::Length` per element of `lengths`, laid out along `axis` in
/// `area` with the given spread.
pub uninterp spec fn layout_lengths(axis: Axis, lengths: Seq<u16>, spread: Spread, area: Area) -> Seq<Area>;

/// Calls ratatui's `Layout::split` on `area` with a `Constraint::Length` for
/// each of `lengths`, along `axis`, spreading the rest as `spread` says, and
/// returns the rectangles it yields: one per constraint (its solver makes one
/// segment per constraint and one rectangle per segment). The rectangles
/// themselves are named, not stated. `split` panics only if its constraint
/// solver fails, which length constraints do not make happen but nothing
/// here rules out.
#[verifier::external_body]
fn split_lengths(axis: Axis, lengths: &Vec<u16>, spread: Spread, area: Area) -> (r: Vec<Area>)
    ensures
        r@ == layout_lengths(axis, lengths@, spread, area),
        r@.len() == lengths@.len(),
{
    let direction = match axis {
        Axis::Horizontal => Direction::Horizontal,
        Axis::Vertical => Direction::Vertical,
    };
    let flex = match spread {
        Spread::Start => Flex::Start,
        Spread::Center => Flex::Center,
    };
    let rect = Rect { x: area.x, y: area.y, width: area.width, height: area.height };
    let constraints = lengths.iter().map(|l| Constraint::Length(*l));
    let parts = Layout::default().direction(direction).constraints(constraints).flex(flex).split(rect);
    parts.iter().map(|p| Area { x: p.x, y: p.y, width: p.width, height: p.height }).collect()
}

pub open spec fn min_u16(a: u16, b: u16) -> u16 {
    if a <= b {
        a
    } else {
        b
    }
}

/// The panel: 60 by 18 cells (less on a smaller terminal), centred first
/// across, then down.
pub open spec fn centered_panel(area: Area) -> Area {
    let across = layout_lengths(Axis::Horizontal, seq![min_u16(TUI_WIDTH, area.width)], Spread::Center, area)[0];
    layout_lengths(Axis::Vertical, seq![min_u16(TUI_HEIGHT, area.height)], Spread::Center, across)[0]
}

/// Center a fixed-size rect within the terminal.
pub fn centered_rect(area: Area) -> (r: Area)
    ensures
        r == centered_panel(area),
{
    let w = if TUI_WIDTH <= area.width {
        TUI_WIDTH
    } else {
        area.width
    };
    let h = if TUI_HEIGHT <= area.height {
        TUI_HEIGHT
    } else {
        area.height
    };
    let widths: Vec<u16> = vec![w];
    assert(widths@ =~= seq![w]);
    let across = split_lengths(Axis::Horizontal, &widths, Spread::Center, area);
    let heights: Vec<u16> = vec![h];
    assert(heights@ =~= seq![h]);
    let down = split_lengths(Axis::Vertical, &heights, Spread::Center, across[0]);
    down[0]
}

/// Heights of the panel's rows: status, speed gauge, settings, key hints.
pub open spec fn row_heights() -> Seq<u16> {
    seq![4u16, 3u16, 6u16, 3u16]
}

/// The panel's four rows, stacked from its top.
pub fn panel_rows(panel: Area) -> (r: Vec<Area>)
    ensures
        r@ == layout_lengths(Axis::Vertical, row_heights(), Spread::Start, panel),
        r@.len() == 4,
{
    let heights: Vec<u16> = vec![
        4, // status
        3, // gauge
        6, // settings
        3, // footer
    ];
    assert(heights@ =~= row_heights());
    split_lengths(Axis::Vertical, &heights, Spread::Start, panel)
}

/// Where the speed label goes over the gauge: `x`, `y` and `width` of its
/// one-line area, and how many of its characters lie on the filled part.
#[derive(Debug, Clone, Copy, PartialEq, Eq, Structural)]
pub struct LabelPlacement {
    pub x: u16,
    pub y: u16,
    pub width: u16,
    pub on_fill: u16,
}

/// The label, `label_chars` characters long, is cut to the gauge's inner
/// width (the count taken modulo 2^16, as a `u16`), centred across it on its
/// middle row; the characters left of `fill_end` lie on the fill.
pub open spec fn label_placement(inner: Area, label_chars: usize, fill_end: u16) -> LabelPlacement {
    let width = min_u16((label_chars % 65536) as u16, inner.width);
    let x = (inner.x + (inner.width - width) / 2) as u16;
    let on = if fill_end >= x {
        fill_end - x
    } else {
        0
    };
    LabelPlacement {
        x,
        y: (inner.y + inner.height / 2) as u16,
        width,
        on_fill: if on <= width {
            on as u16
        } else {
            width
        },
    }
}

/// Placement of the speed label over the gauge; see `label_placement`.
pub fn gauge_label_placement(inner: Area, label_chars: usize, fill_end: u16) -> (r: LabelPlacement)
    requires
        inner.x + inner.width <= u16::MAX,
        inner.y + inner.height <= u16::MAX,
    ensures
        r == label_placement(inner, label_chars, fill_end),
        r.width <= inner.width,
        inner.x <= r.x,
        r.x + r.width <= inner.x + inner.width,
        r.on_fill <= r.width,
{
    let count: u16 = (label_chars % 65536) as u16;
    let width = if count <= inner.width {
        count
    } else {
        inner.width
    };
    let x = inner.x + (inner.width - width) / 2;
    let y = inner.y + inner.height / 2;
    let on = fill_end.saturating_sub(x);
    let on_fill = if on <= width {
        on
    } else {
        width
    };
    LabelPlacement { x, y, width, on_fill }
}

/// Colour band of the speed gauge.
#[derive(Debug, Clone, Copy, PartialEq, Eq, Structural)]
pub enum SpeedBand {
    /// Up to 10 clicks per second.
    Slow,
    /// 11 to 50.
    Moderate,
    /// 51 to 200.
    Fast,
    /// Above 200.
    Extreme,
}

pub open spec fn band_of(cps: u32) -> SpeedBand {
    if cps <= 10 {
        SpeedBand::Slow
    } else if cps <= 50 {
        SpeedBand::Moderate
    } else if cps <= 200 {
        SpeedBand::Fast
    } else {
        SpeedBand::Extreme
    }
}

/// The gauge's colour band for a speed.
pub fn speed_band(cps: u32) -> (r: SpeedBand)
    ensures
        r == band_of(cps),
{
    if cps <= 10 {
        SpeedBand::Slow
    } else if cps <= 50 {
        SpeedBand::Moderate
    } else if cps <= 200 {
        SpeedBand::Fast
    } else {
        SpeedBand::Extreme
    }
}

} // verus!
