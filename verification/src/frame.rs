//! Where a frame puts its parts, and how they look.
//!
//! A frame has a heading and, below it, a bordered panel that shows the
//! text revealed so far or the gauge. Both sit inside a margin, one above
//! the other, and take the full width that the margin leaves.

use crate::animation::{LineStyle, Model, ModelView, Tint};
use ratatui::layout::{Constraint, Direction, Layout, Rect};
use vstd::prelude::*;

verus! {

/// The margin kept free on each side of a frame, in cells.
pub const FRAME_MARGIN: u16 = 2;

/// A rectangle of terminal cells.
#[derive(Clone, Copy, Debug, PartialEq, Eq, Structural)]
pub struct Region {
    pub x: u16,
    pub y: u16,
    pub width: u16,
    pub height: u16,
}

/// How much height a row asks for.
#[derive(Clone, Copy, Debug, PartialEq, Eq, Structural)]
pub enum RowRule {
    /// Exactly so many cells.
    Length(u16),
    /// At least so many cells.
    Min(u16),
    /// So many hundredths of the height.
    Percentage(u16),
}

/// How text is set within its region.
#[derive(Clone, Copy, Debug, PartialEq, Eq, Structural)]
pub enum Align {
    Left,
    Center,
}

/// One part of a frame: where it goes and how it looks.
#[derive(Clone, Copy, Debug, PartialEq, Eq, Structural)]
pub struct Pane {
    pub region: Region,
    /// Colour and weight of the text in it.
    pub style: LineStyle,
    pub align: Align,
    /// The style of its border, if it has one.
    pub border: Option<LineStyle>,
}

/// A frame: the heading, and the panel below it.
#[derive(Clone, Copy, Debug, PartialEq, Eq, Structural)]
pub struct Frame {
    pub heading: Pane,
    pub panel: Pane,
}

/// `value + step`, or the largest `u16` if that is less.
pub open spec fn capped_sum(value: u16, step: u16) -> u16 {
    if value + step > u16::MAX {
        u16::MAX
    } else {
        (value + step) as u16
    }
}

/// What is left of `area` with `margin` cells taken off each side, or the
/// empty region at the origin where `area` is too small for that.
pub open spec fn inset(area: Region, margin: u16) -> Region {
    let both = capped_sum(margin, margin);
    if area.width < both || area.height < both {
        Region { x: 0, y: 0, width: 0, height: 0 }
    } else {
        Region {
            x: capped_sum(area.x, margin),
            y: capped_sum(area.y, margin),
            width: (area.width - both) as u16,
            height: (area.height - both) as u16,
        }
    }
}

/// Whether `rows` are `count` rows laid inside the margin of `area`: each
/// begins at the left edge that the margin leaves and is as wide as what
/// the margin leaves.
pub open spec fn is_row_stack(area: Region, margin: u16, count: nat, rows: Seq<Region>) -> bool {
    &&& rows.len() == count
    &&& forall|i: int|
        0 <= i < rows.len() ==> (#[trigger] rows[i]).x == inset(area, margin).x && rows[i].width
            == inset(area, margin).width
}

/// The rows of a frame that shows `model`: for text, a heading of one
/// line and a panel that takes the rest; for the gauge, two halves.
pub open spec fn frame_rules(model: ModelView) -> Seq<RowRule> {
    match model {
        ModelView::Text(_) => seq![RowRule::Length(1), RowRule::Min(1)],
        ModelView::Gauge(_) => seq![RowRule::Percentage(50), RowRule::Percentage(50)],
    }
}

/// The frame whose heading and panel take these two rows: a bold, light
/// blue, centred heading, and a panel of white text set left within a
/// yellow border.
pub open spec fn frame_on(heading: Region, panel: Region) -> Frame {
    Frame {
        heading: Pane {
            region: heading,
            style: LineStyle { tint: Tint::LightBlue, bold: true },
            align: Align::Center,
            border: None,
        },
        panel: Pane {
            region: panel,
            style: LineStyle { tint: Tint::White, bold: false },
            align: Align::Left,
            border: Some(LineStyle { tint: Tint::Yellow, bold: false }),
        },
    }
}

/// Has ratatui split an area into rows: `Layout::split`, on a vertical
/// `Layout` built with `margin` and one `Constraint` per rule.
///
/// The contract claims that there are as many rows as rules, and that each
/// row has the left edge and the width of the area inside the margin (as
/// `Rect::inner` gives it). Where each row begins and how high it is, the
/// solver decides: the contract says nothing of them.
#[verifier::external_body]
fn split_rows(area: Region, margin: u16, rules: &Vec<RowRule>) -> (rows: Vec<Region>)
    ensures
        is_row_stack(area, margin, rules@.len(), rows@),
{
    let constraints = rules.iter().map(|rule| match rule {
        RowRule::Length(cells) => Constraint::Length(*cells),
        RowRule::Min(cells) => Constraint::Min(*cells),
        RowRule::Percentage(share) => Constraint::Percentage(*share),
    });
    let layout = Layout::default().direction(Direction::Vertical).margin(margin);
    let whole = Rect { x: area.x, y: area.y, width: area.width, height: area.height };
    layout.constraints(constraints).split(whole).iter().map(|row| Region {
        x: row.x,
        y: row.y,
        width: row.width,
        height: row.height,
    }).collect()
}

/// The rows of a frame that shows `model`.
pub fn rules_for(model: &Model) -> (rules: Vec<RowRule>)
    ensures
        rules@ == frame_rules(model@),
{
    let mut rules: Vec<RowRule> = Vec::new();
    match model {
        Model::Text(_) => {
            rules.push(RowRule::Length(1));
            rules.push(RowRule::Min(1));
        },
        Model::Gauge(_) => {
            rules.push(RowRule::Percentage(50));
            rules.push(RowRule::Percentage(50));
        },
    }
    rules
}

/// Makes a frame of two rows, the heading first; of any other number of
/// rows there is no frame.
pub fn frame_from_rows(rows: &Vec<Region>) -> (frame: Option<Frame>)
    ensures
        frame.is_some() == (rows@.len() == 2),
        frame matches Some(f) ==> f == frame_on(rows@[0], rows@[1]),
{
    if rows.len() != 2 {
        return None;
    }
    Some(
        Frame {
            heading: Pane {
                region: rows[0],
                style: LineStyle { tint: Tint::LightBlue, bold: true },
                align: Align::Center,
                border: None,
            },
            panel: Pane {
                region: rows[1],
                style: LineStyle { tint: Tint::White, bold: false },
                align: Align::Left,
                border: Some(LineStyle { tint: Tint::Yellow, bold: false }),
            },
        },
    )
}

/// Lays out the frame that shows `model` on `area`.
///
/// The heading and the panel lie inside the margin of `area` and take the
/// full width it leaves; their heights are the layout's to decide, from
/// the rows that `rules_for` gives.
pub fn plan_frame(area: Region, model: &Model) -> (frame: Frame)
    ensures
        frame == frame_on(frame.heading.region, frame.panel.region),
        is_row_stack(area, FRAME_MARGIN, 2, seq![frame.heading.region, frame.panel.region]),
{
    let rules = rules_for(model);
    let rows = split_rows(area, FRAME_MARGIN, &rules);
    frame_from_rows(&rows).unwrap()
}

} // verus!
