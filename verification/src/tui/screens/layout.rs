use ratatui::layout::{Constraint, Direction, Layout, Rect};
use vstd::prelude::*;

use crate::tui::screens::{pairing_body_kind, peers_panel_height, PairingBodyKind};

verus! {

/// A rectangle of the terminal: its left column, top row, width and height.
#[derive(Debug, Clone, Copy, PartialEq, Eq, Structural)]
pub struct Area {
    pub x: u16,
    pub y: u16,
    pub width: u16,
    pub height: u16,
}

/// How much of a split one part takes.
#[derive(Debug, Clone, Copy, PartialEq, Eq, Structural)]
pub enum Part {
    /// This share of the whole, in percent.
    Percentage(u16),
    /// At least this many cells.
    Min(u16),
    /// Exactly this many cells.
    Length(u16),
}

/// The two areas that ratatui's `Layout::areas` gives for `area` cut across
/// (`horizontal`) or down into two parts with these constraints, under the
/// default layout settings.
pub uninterp spec fn ratatui_split(area: Area, horizontal: bool, first: Part, second: Part) -> (Area, Area);

/// Calls `ratatui::layout::Layout::areas` with the default settings, the
/// direction and the two constraints; the two areas are named by
/// `ratatui_split`.
#[verifier::external_body]
fn split_area(area: Area, horizontal: bool, first: Part, second: Part) -> (r: (Area, Area))
    ensures
        r == ratatui_split(area, horizontal, first, second),
{
    let c = [first, second].map(|p| match p {
        Part::Percentage(v) => Constraint::Percentage(v),
        Part::Min(v) => Constraint::Min(v),
        Part::Length(v) => Constraint::Length(v),
    });
    let d = if horizontal { Direction::Horizontal } else { Direction::Vertical };
    let rect = Rect::new(area.x, area.y, area.width, area.height);
    let [a, b] = Layout::default().direction(d).constraints(c).areas(rect);
    (Area { x: a.x, y: a.y, width: a.width, height: a.height }, Area { x: b.x, y: b.y, width: b.width, height: b.height })
}

/// How the pairing screen lays out its body.
#[derive(Debug, Clone, Copy, PartialEq, Eq, Structural)]
pub enum PairingBodyLayout {
    /// The pairing card left of the peers.
    Wide { pair: Area, peers: Area },
    /// The pairing card above the peers.
    Stacked { pair: Area, peers: Area },
    /// The pairing card alone.
    PairOnly { pair: Area },
}

/// From 104 columns, the card and the peers side by side in 64% and 36% of
/// the width; else, from 34 lines, the card above the peers, which take eight
/// lines and at most a third; else the card alone in the whole body.
pub open spec fn pairing_layout_of(area: Area) -> PairingBodyLayout {
    if area.width >= 104 {
        let (pair, peers) = ratatui_split(area, true, Part::Percentage(64), Part::Percentage(36));
        PairingBodyLayout::Wide { pair, peers }
    } else if area.height >= 34 {
        let h = if 8 <= area.height / 3 {
            8
        } else {
            area.height / 3
        };
        let (pair, peers) = ratatui_split(area, false, Part::Min(0), Part::Length(h as u16));
        PairingBodyLayout::Stacked { pair, peers }
    } else {
        PairingBodyLayout::PairOnly { pair: area }
    }
}

pub fn pairing_body_layout(area: Area) -> (l: PairingBodyLayout)
    ensures
        l == pairing_layout_of(area),
{
    match pairing_body_kind(area.width, area.height) {
        PairingBodyKind::Wide => {
            let (pair, peers) = split_area(area, true, Part::Percentage(64), Part::Percentage(36));
            PairingBodyLayout::Wide { pair, peers }
        },
        PairingBodyKind::Stacked => {
            let (pair, peers) = split_area(area, false, Part::Min(0), Part::Length(peers_panel_height(area.height)));
            PairingBodyLayout::Stacked { pair, peers }
        },
        PairingBodyKind::PairOnly => PairingBodyLayout::PairOnly { pair: area },
    }
}

} // verus!
