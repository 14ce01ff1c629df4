//! The input modes the host can be in.

use vstd::prelude::*;

verus! {

/// A host-wide input mode.
///
/// `Normal` and `Locked` are the two modes this library assigns to panes.
/// Every other mode of the host is folded into `Other`.
#[derive(Clone, Copy, Debug, PartialEq, Eq, Structural)]
pub enum InputMode {
    Normal,
    Locked,
    Other,
}

impl InputMode {
    /// Whether the mode is one of the two that a pane can be assigned.
    pub open spec fn is_assignable(self) -> bool {
        self == InputMode::Normal || self == InputMode::Locked
    }

    /// Whether the mode is `Normal` or `Locked`.
    pub fn is_normal_or_locked(&self) -> (r: bool)
        ensures
            r == self.is_assignable(),
    {
        match self {
            InputMode::Normal => true,
            InputMode::Locked => true,
            InputMode::Other => false,
        }
    }
}

} // verus!
