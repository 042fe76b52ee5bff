use vstd::prelude::*;
use crate::game::vim::{ModeKind, VimState};
use crate::state::Mode;

verus! {

/// An RGB colour.
#[derive(Debug, Clone, Copy, PartialEq, Eq, Structural)]
pub struct Rgb {
    pub r: u8,
    pub g: u8,
    pub b: u8,
}

/// Visual style for a vim mode badge in the status line.
pub struct ModeBadge {
    pub label: &'static str,
    pub bg: Rgb,
    pub fg: Rgb,
}

/// The label and colours (background, text) of the badge of each mode.
pub open spec fn badge_style(mode: Mode) -> (Seq<char>, Rgb, Rgb) {
    match mode {
        Mode::Normal => ("NORMAL"@, Rgb { r: 30, g: 120, b: 60 }, Rgb { r: 180, g: 255, b: 180 }),
        Mode::Insert => ("INSERT"@, Rgb { r: 20, g: 80, b: 140 }, Rgb { r: 160, g: 210, b: 255 }),
        Mode::Visual => ("VISUAL"@, Rgb { r: 100, g: 40, b: 120 }, Rgb { r: 220, g: 180, b: 255 }),
        Mode::OperatorPending(_) => ("OPERATOR"@, Rgb { r: 140, g: 80, b: 20 }, Rgb { r: 255, g: 210, b: 140 }),
    }
}

impl ModeBadge {
    /// The badge of the editor's current mode.
    pub fn from_mode(vim_state: &VimState) -> (r: ModeBadge)
        ensures
            (r.label@, r.bg, r.fg) == badge_style(vim_state.parser.state.mode),
    {
        let kind = vim_state.mode_kind();
        match kind {
            // dark green bg, bright green text
            ModeKind::Normal => ModeBadge {
                label: "NORMAL",
                bg: Rgb { r: 30, g: 120, b: 60 },
                fg: Rgb { r: 180, g: 255, b: 180 },
            },
            // blue bg, light blue text
            ModeKind::Insert => ModeBadge {
                label: "INSERT",
                bg: Rgb { r: 20, g: 80, b: 140 },
                fg: Rgb { r: 160, g: 210, b: 255 },
            },
            // purple bg, light purple text
            ModeKind::Visual => ModeBadge {
                label: "VISUAL",
                bg: Rgb { r: 100, g: 40, b: 120 },
                fg: Rgb { r: 220, g: 180, b: 255 },
            },
            // amber bg, light amber text
            ModeKind::OperatorPending(_) => ModeBadge {
                label: "OPERATOR",
                bg: Rgb { r: 140, g: 80, b: 20 },
                fg: Rgb { r: 255, g: 210, b: 140 },
            },
        }
    }
}

} // verus!
