//! Screen areas of the user interface.
//!
//! The screen is split by the constraint solver of the terminal UI
//! library: a title row, the main area and a status row; the main area
//! into the song list and the song panel; the inside of the song panel's
//! border into the waveform, a separator row and the song information.

use vstd::prelude::*;
use ratatui::layout::{Constraint, Direction, Layout};

verus! {

/// A rectangle of terminal cells.
#[derive(Clone, Copy, Debug, PartialEq, Eq)]
pub struct Rect {
    pub x: u16,
    pub y: u16,
    pub width: u16,
    pub height: u16,
}

/// How a layout divides its area: into columns or into rows.
#[derive(Clone, Copy, Debug, PartialEq, Eq)]
pub enum LayoutDirection {
    Horizontal,
    Vertical,
}

/// What one part of a layout asks for.
#[derive(Clone, Copy, Debug, PartialEq, Eq)]
pub enum LayoutConstraint {
    /// Exactly this many cells.
    Length(u16),
    /// At least this many cells.
    Min(u16),
    /// This fraction of the area.
    Ratio(u32, u32),
}

/// `part` lies within `area` along the direction of a split and keeps
/// `area`'s position and extent across it.
pub open spec fn part_of(direction: LayoutDirection, part: Rect, area: Rect) -> bool {
    match direction {
        LayoutDirection::Vertical => {
            &&& part.x == area.x
            &&& part.width == area.width
            &&& area.y <= part.y
            &&& part.y + part.height <= area.y + area.height
        },
        LayoutDirection::Horizontal => {
            &&& part.y == area.y
            &&& part.height == area.height
            &&& area.x <= part.x
            &&& part.x + part.width <= area.x + area.width
        },
    }
}

/// Calls `ratatui::layout::Layout::new(direction, constraints).split(area)`
/// with no margin and no spacing. Claimed of it: it gives one area per
/// constraint, and every area lies within `area` along the split (the
/// solver's required constraints keep every boundary between the two ends
/// of `area`) and keeps `area`'s position and extent across it. How the
/// solver sizes the parts along the split is left unsaid: where several
/// layouts cost the same, which one the solver stops at depends on the
/// order in which its hash maps are walked, so two calls with the same
/// arguments need not agree.
#[verifier::external_body]
fn split_area(direction: LayoutDirection, constraints: &Vec<LayoutConstraint>, area: Rect) -> (areas:
    Vec<Rect>)
    ensures
        areas@.len() == constraints@.len(),
        forall|i: int| 0 <= i < areas@.len() ==> part_of(direction, #[trigger] areas@[i], area),
{
    let dir = match direction {
        LayoutDirection::Horizontal => Direction::Horizontal,
        LayoutDirection::Vertical => Direction::Vertical,
    };
    let parts = constraints.iter().map(|c| match *c {
        LayoutConstraint::Length(n) => Constraint::Length(n),
        LayoutConstraint::Min(n) => Constraint::Min(n),
        LayoutConstraint::Ratio(a, b) => Constraint::Ratio(a, b),
    });
    let r = ratatui::layout::Rect { x: area.x, y: area.y, width: area.width, height: area.height };
    let rects = Layout::new(dir, parts).split(r);
    rects.iter().map(|a| Rect { x: a.x, y: a.y, width: a.width, height: a.height }).collect()
}

/// A `u16` sum or product that stops at the largest value instead of
/// wrapping.
pub open spec fn saturate(value: int) -> u16 {
    if value > u16::MAX {
        u16::MAX
    } else {
        value as u16
    }
}

/// The area inside a margin of `horizontal` cells on the left and right
/// and `vertical` cells at the top and bottom; the empty area at the
/// origin where the margins do not fit.
pub open spec fn inner_area(area: Rect, horizontal: u16, vertical: u16) -> Rect {
    let dh = saturate(2 * horizontal);
    let dv = saturate(2 * vertical);
    if area.width < dh || area.height < dv {
        Rect { x: 0, y: 0, width: 0, height: 0 }
    } else {
        Rect {
            x: saturate(area.x + horizontal),
            y: saturate(area.y + vertical),
            width: (area.width - dh) as u16,
            height: (area.height - dv) as u16,
        }
    }
}

/// Twice `margin`, stopping at the largest `u16`.
fn doubled(margin: u16) -> (d: u16)
    ensures
        d == saturate(2 * margin),
{
    if margin > u16::MAX / 2 {
        u16::MAX
    } else {
        margin * 2
    }
}

/// The area inside a margin of `horizontal` cells on the left and right and
/// `vertical` cells at the top and bottom, as `ratatui::layout::Rect::inner`
/// computes it: the empty area at the origin where the margins do not fit.
pub fn inner_rect(area: Rect, horizontal: u16, vertical: u16) -> (inner: Rect)
    ensures
        inner == inner_area(area, horizontal, vertical),
{
    let dh = doubled(horizontal);
    let dv = doubled(vertical);
    if area.width < dh || area.height < dv {
        Rect { x: 0, y: 0, width: 0, height: 0 }
    } else {
        Rect {
            x: area.x.saturating_add(horizontal),
            y: area.y.saturating_add(vertical),
            width: area.width - dh,
            height: area.height - dv,
        }
    }
}

/// The areas of one frame of the interface.
#[derive(Clone, Copy, Debug)]
pub struct FrameLayout {
    pub title: Rect,
    pub main: Rect,
    pub status: Rect,
    /// The list of songs.
    pub songs_list: Rect,
    /// The panel of the current song, with its border.
    pub song_panel: Rect,
    /// Inside the panel's border: the waveform.
    pub waveform: Rect,
    /// Inside the panel's border: the song information, below the separator.
    pub song_info: Rect,
}

/// The rows of the whole screen: a title row, the main area of at least
/// three rows, a status row.
pub fn screen_rows() -> (rows: Vec<LayoutConstraint>)
    ensures
        rows@ == seq![LayoutConstraint::Length(1), LayoutConstraint::Min(3), LayoutConstraint::Length(1)],
{
    vec![LayoutConstraint::Length(1), LayoutConstraint::Min(3), LayoutConstraint::Length(1)]
}

/// The columns of the main area: the song list of at least three columns,
/// and the song panel, two thirds of the width.
pub fn main_columns() -> (columns: Vec<LayoutConstraint>)
    ensures
        columns@ == seq![LayoutConstraint::Min(3), LayoutConstraint::Ratio(2, 3)],
{
    vec![LayoutConstraint::Min(3), LayoutConstraint::Ratio(2, 3)]
}

/// The rows inside the song panel's border: the waveform of at least two
/// rows, a separator row, three rows of song information.
pub fn panel_rows() -> (rows: Vec<LayoutConstraint>)
    ensures
        rows@ == seq![LayoutConstraint::Min(2), LayoutConstraint::Length(1), LayoutConstraint::Length(3)],
{
    vec![LayoutConstraint::Min(2), LayoutConstraint::Length(1), LayoutConstraint::Length(3)]
}

/// Names the parts of the three splits: the screen rows are title, main
/// area and status; the main columns are song list and song panel; the
/// panel rows are waveform, separator and song information.
pub fn assemble_layout(top: &Vec<Rect>, sides: &Vec<Rect>, panel: &Vec<Rect>) -> (layout: FrameLayout)
    requires
        top@.len() == 3,
        sides@.len() == 2,
        panel@.len() == 3,
    ensures
        layout.title == top@[0],
        layout.main == top@[1],
        layout.status == top@[2],
        layout.songs_list == sides@[0],
        layout.song_panel == sides@[1],
        layout.waveform == panel@[0],
        layout.song_info == panel@[2],
{
    FrameLayout {
        title: top[0],
        main: top[1],
        status: top[2],
        songs_list: sides[0],
        song_panel: sides[1],
        waveform: panel[0],
        song_info: panel[2],
    }
}

/// Divides the screen `area` into the areas of the interface: the screen
/// is split into `screen_rows`, its main area into `main_columns`, and the
/// inside of the song panel's border into `panel_rows`, and the parts are
/// named by `assemble_layout`.
///
/// The title row, the main area and the status row lie within the screen
/// and span its width; the song list and the song panel lie within the
/// main area and span its height; the waveform and the song information
/// lie within the song panel's border, one cell inside it on every side,
/// and span the width between its side borders.
pub fn frame_layout(area: Rect) -> (layout: FrameLayout)
    ensures
        part_of(LayoutDirection::Vertical, layout.title, area),
        part_of(LayoutDirection::Vertical, layout.main, area),
        part_of(LayoutDirection::Vertical, layout.status, area),
        part_of(LayoutDirection::Horizontal, layout.songs_list, layout.main),
        part_of(LayoutDirection::Horizontal, layout.song_panel, layout.main),
        part_of(LayoutDirection::Vertical, layout.waveform, inner_area(layout.song_panel, 1, 1)),
        part_of(LayoutDirection::Vertical, layout.song_info, inner_area(layout.song_panel, 1, 1)),
        layout.song_panel.width >= 2 && layout.song_panel.height >= 2 && layout.song_panel.x
            < u16::MAX && layout.song_panel.y < u16::MAX ==> {
            &&& layout.waveform.x == layout.song_panel.x + 1
            &&& layout.waveform.width == layout.song_panel.width - 2
            &&& layout.song_info.x == layout.song_panel.x + 1
            &&& layout.song_info.width == layout.song_panel.width - 2
            &&& layout.song_panel.y + 1 <= layout.waveform.y
            &&& layout.song_info.y + layout.song_info.height <= layout.song_panel.y
                + layout.song_panel.height - 1
        },
{
    let top = split_area(LayoutDirection::Vertical, &screen_rows(), area);
    let sides = split_area(LayoutDirection::Horizontal, &main_columns(), top[1]);
    let inside = inner_rect(sides[1], 1, 1);
    let panel = split_area(LayoutDirection::Vertical, &panel_rows(), inside);
    assemble_layout(&top, &sides, &panel)
}

} // verus!
