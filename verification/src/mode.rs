//! Operating modes and the parser that resolves free-form status text to one.
//!
//! Parsing is case-insensitive substring matching with a fixed precedence:
//! specific mode keywords win over the generic `auto` keyword, except that a
//! `comfort` hit combined with `auto` or a hyphen is read as a transitional,
//! composite label (such as `comfort-OPTIMAL`) and resolves to `Auto`.

use vstd::prelude::*;
use crate::text::contains_ci;
use crate::text::contains_ci_str;

verus! {

/// User-selectable operating mode; `Unknown` stands for unrecognized or
/// unreadable status text.
#[derive(Clone, Copy, Debug, PartialEq, Eq, Structural)]
pub enum Mode {
    Performance,
    Comfort,
    Balanced,
    Quiet,
    Auto,
    Unknown,
}

/// Display label of a mode.
pub open spec fn mode_label(m: Mode) -> Seq<char> {
    match m {
        Mode::Performance => "PERFORMANCE"@,
        Mode::Comfort => "COMFORT"@,
        Mode::Balanced => "BALANCED"@,
        Mode::Quiet => "QUIET"@,
        Mode::Auto => "AUTO"@,
        Mode::Unknown => "UNKNOWN"@,
    }
}

/// Command token handed to the privileged mode-setting helper. `Unknown` has
/// no actionable command of its own and shares `Auto`'s token by design.
pub open spec fn mode_command(m: Mode) -> Seq<char> {
    match m {
        Mode::Performance => "performance"@,
        Mode::Comfort => "comfort"@,
        Mode::Balanced => "balanced"@,
        Mode::Quiet => "quiet"@,
        Mode::Auto => "auto"@,
        Mode::Unknown => "auto"@,
    }
}

/// Human-readable description of a mode.
pub open spec fn mode_description(m: Mode) -> Seq<char> {
    match m {
        Mode::Performance => "100% - Video calls"@,
        Mode::Comfort => "60% - Cool keyboard"@,
        Mode::Balanced => "75% - General use"@,
        Mode::Quiet => "40% - Silent"@,
        Mode::Auto => "Automatic"@,
        Mode::Unknown => "Unknown"@,
    }
}

/// Mode resolved from status text, first match deciding: `performance`, then
/// `comfort` (turned into `Auto` when combined with `auto` or a hyphen), then
/// `balanced`, `quiet`, and plain `auto`; anything else is `Unknown`.
pub open spec fn mode_of_status(t: Seq<char>) -> Mode {
    if contains_ci(t, "performance"@) {
        Mode::Performance
    } else if contains_ci(t, "comfort"@) {
        if contains_ci(t, "auto"@) || contains_ci(t, "-"@) {
            Mode::Auto
        } else {
            Mode::Comfort
        }
    } else if contains_ci(t, "balanced"@) {
        Mode::Balanced
    } else if contains_ci(t, "quiet"@) {
        Mode::Quiet
    } else if contains_ci(t, "auto"@) {
        Mode::Auto
    } else {
        Mode::Unknown
    }
}

impl Default for Mode {
    /// The default mode leaves the choice to the platform.
    fn default() -> (r: Mode)
        ensures
            r == Mode::Auto,
    {
        Mode::Auto
    }
}

impl Mode {
    /// Display label of this mode.
    pub fn label(&self) -> (r: &'static str)
        ensures
            r@ == mode_label(*self),
            r@.len() > 0,
    {
        proof {
            reveal_strlit("PERFORMANCE");
            reveal_strlit("COMFORT");
            reveal_strlit("BALANCED");
            reveal_strlit("QUIET");
            reveal_strlit("AUTO");
            reveal_strlit("UNKNOWN");
        }
        match self {
            Mode::Performance => "PERFORMANCE",
            Mode::Comfort => "COMFORT",
            Mode::Balanced => "BALANCED",
            Mode::Quiet => "QUIET",
            Mode::Auto => "AUTO",
            Mode::Unknown => "UNKNOWN",
        }
    }

    /// Command token of this mode for the mode-setting helper.
    pub fn command(&self) -> (r: &'static str)
        ensures
            r@ == mode_command(*self),
            r@.len() > 0,
    {
        proof {
            reveal_strlit("performance");
            reveal_strlit("comfort");
            reveal_strlit("balanced");
            reveal_strlit("quiet");
            reveal_strlit("auto");
        }
        match self {
            Mode::Performance => "performance",
            Mode::Comfort => "comfort",
            Mode::Balanced => "balanced",
            Mode::Quiet => "quiet",
            Mode::Auto => "auto",
            Mode::Unknown => "auto",
        }
    }

    /// Human-readable description of this mode.
    pub fn description(&self) -> (r: &'static str)
        ensures
            r@ == mode_description(*self),
            r@.len() > 0,
    {
        proof {
            reveal_strlit("100% - Video calls");
            reveal_strlit("60% - Cool keyboard");
            reveal_strlit("75% - General use");
            reveal_strlit("40% - Silent");
            reveal_strlit("Automatic");
            reveal_strlit("Unknown");
        }
        match self {
            Mode::Performance => "100% - Video calls",
            Mode::Comfort => "60% - Cool keyboard",
            Mode::Balanced => "75% - General use",
            Mode::Quiet => "40% - Silent",
            Mode::Auto => "Automatic",
            Mode::Unknown => "Unknown",
        }
    }

    /// The user-selectable modes, in presentation order; `Unknown` is not
    /// selectable and is excluded.
    pub fn all() -> (r: Vec<Mode>)
        ensures
            r@.len() == 5,
            r@ =~= seq![Mode::Performance, Mode::Comfort, Mode::Balanced, Mode::Quiet, Mode::Auto],
            forall|i: int| 0 <= i < r@.len() ==> r@[i] != Mode::Unknown,
    {
        vec![Mode::Performance, Mode::Comfort, Mode::Balanced, Mode::Quiet, Mode::Auto]
    }
}

/// Every mode has a non-empty label, command token and description.
pub proof fn lemma_mode_projections_nonempty(m: Mode)
    ensures
        mode_label(m).len() > 0,
        mode_command(m).len() > 0,
        mode_description(m).len() > 0,
{
    reveal_strlit("PERFORMANCE");
    reveal_strlit("COMFORT");
    reveal_strlit("BALANCED");
    reveal_strlit("QUIET");
    reveal_strlit("AUTO");
    reveal_strlit("UNKNOWN");
    reveal_strlit("performance");
    reveal_strlit("comfort");
    reveal_strlit("balanced");
    reveal_strlit("quiet");
    reveal_strlit("auto");
    reveal_strlit("100% - Video calls");
    reveal_strlit("60% - Cool keyboard");
    reveal_strlit("75% - General use");
    reveal_strlit("40% - Silent");
    reveal_strlit("Automatic");
    reveal_strlit("Unknown");
}

/// Resolve raw status text to a mode; unreadable status (`None`) resolves to
/// `Unknown` without raising an error.
pub fn read_mode(status: Option<&str>) -> (m: Mode)
    ensures
        m == match status {
            Some(s) => mode_of_status(s@),
            None => Mode::Unknown,
        },
{
    match status {
        None => Mode::Unknown,
        Some(s) => {
            if contains_ci_str(s, "performance") {
                Mode::Performance
            } else if contains_ci_str(s, "comfort") {
                if contains_ci_str(s, "auto") || contains_ci_str(s, "-") {
                    Mode::Auto
                } else {
                    Mode::Comfort
                }
            } else if contains_ci_str(s, "balanced") {
                Mode::Balanced
            } else if contains_ci_str(s, "quiet") {
                Mode::Quiet
            } else if contains_ci_str(s, "auto") {
                Mode::Auto
            } else {
                Mode::Unknown
            }
        },
    }
}

} // verus!
