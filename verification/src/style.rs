//! The display mode the front-end renders in.  The palettes themselves
//! are the front-end's own; the core only carries the chosen mode and
//! the toggle between the two.

use vstd::prelude::*;

verus! {

/// The front-end's color scheme.
#[derive(Clone, Copy, Debug, PartialEq, Eq, Structural)]
pub enum Mode {
    Night,
    Day,
}

/// The other mode.
pub open spec fn toggled_spec(mode: Mode) -> Mode {
    match mode {
        Mode::Day => Mode::Night,
        Mode::Night => Mode::Day,
    }
}

impl Mode {
    /// Switches between day and night.
    pub fn toggled(self) -> (r: Mode)
        ensures
            r == toggled_spec(self),
    {
        match self {
            Mode::Day => Mode::Night,
            Mode::Night => Mode::Day,
        }
    }
}

} // verus!
