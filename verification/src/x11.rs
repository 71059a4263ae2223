//! What the X11 parts have in common.

use vstd::prelude::*;

pub mod promises;

verus! {

/// The name that stands for no window.
pub const NO_WINDOW: u32 = 0;

/// The time that stands for now.
pub const CURRENT_TIME: u32 = 0;

/// The focus reverts to the pointer's root window.
pub const REVERT_TO_POINTER_ROOT: u8 = 1;

/// The focus reverts to the parent of the focused window.
pub const REVERT_TO_PARENT: u8 = 2;

/// A request to move the input focus.
#[derive(Debug, Clone, Copy, PartialEq, Eq, Structural)]
pub struct FocusRequest {
    /// Where the focus goes once the window is gone.
    pub revert_to: u8,
    pub window: u32,
    pub time: u32,
}

/// What a server says of its screens: the root window of each, and the number of
/// the default one.
#[derive(Debug)]
pub struct Screens {
    pub roots: Vec<u32>,
    pub default_screen: usize,
}

impl Screens {
    /// The root window of the default screen.
    pub open spec fn default_root(self) -> Option<u32> {
        if self.default_screen < self.roots@.len() {
            Some(self.roots@[self.default_screen as int])
        } else {
            None
        }
    }

    /// The root window of the default screen, where there is such a screen.
    pub fn root(&self) -> (r: Option<u32>)
        ensures
            r == self.default_root(),
    {
        if self.default_screen < self.roots.len() {
            Some(self.roots[self.default_screen])
        } else {
            None
        }
    }
}

} // verus!
