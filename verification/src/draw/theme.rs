//! Theme adjustment results

use vstd::prelude::*;

verus! {

/// Return value of functions that adjust a theme
///
/// This type is used to notify the toolkit of required updates. The variants
/// are listed in order of increasing cost; see [`ThemeAction::rank`].
#[derive(Debug, Clone, Copy, PartialEq, Eq, Structural)]
pub enum ThemeAction {
    /// No action needed
    Nothing,
    /// All windows require redrawing
    RedrawAll,
    /// Theme sizes have changed
    ///
    /// This implies that per-window theme data must be updated and all
    /// widgets resized.
    ThemeResize,
}

impl ThemeAction {
    /// Position of the action in the order `Nothing < RedrawAll < ThemeResize`
    pub open spec fn spec_rank(self) -> u8 {
        match self {
            ThemeAction::Nothing => 0,
            ThemeAction::RedrawAll => 1,
            ThemeAction::ThemeResize => 2,
        }
    }

    /// Position of the action in the order `Nothing < RedrawAll < ThemeResize`
    #[verifier::when_used_as_spec(spec_rank)]
    pub fn rank(self) -> (r: u8)
        ensures
            r == self.spec_rank(),
    {
        match self {
            ThemeAction::Nothing => 0,
            ThemeAction::RedrawAll => 1,
            ThemeAction::ThemeResize => 2,
        }
    }

    /// The more costly of two actions
    pub open spec fn spec_max(self, other: ThemeAction) -> ThemeAction {
        if other.spec_rank() > self.spec_rank() {
            other
        } else {
            self
        }
    }

    /// The more costly of two actions: what must be done when both are
    /// requested.
    pub fn max(self, other: ThemeAction) -> (r: ThemeAction)
        ensures
            r == self.spec_max(other),
    {
        if other.rank() > self.rank() {
            other
        } else {
            self
        }
    }
}

} // verus!
