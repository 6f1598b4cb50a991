//! The plain parts of a multi-ring border: which side a ring sits on and
//! the interaction state a style is computed for.

use vstd::prelude::*;

verus! {

/// Which side of the content a ring sits on.
#[derive(Debug, Clone, Copy, PartialEq, Eq, Hash, Structural)]
pub enum Side {
    /// Outside the content, growing the widget.
    Outer,
    /// Inside the content's edge, drawn on top of it.
    Inner,
}

/// The interaction state a style is computed for.
#[derive(Debug, Clone, Copy, PartialEq, Eq, Structural)]
#[non_exhaustive]
pub struct Status {
    /// Pointer is pressed on the content.
    pub is_pressed: bool,
    /// Pointer is over the content.
    pub is_hovered: bool,
    /// The widget is focused.
    pub is_focused: bool,
    /// The widget is disabled.
    pub is_disabled: bool,
}

impl Default for Status {
    /// At rest: not pressed, hovered, focused or disabled.
    fn default() -> (status: Self)
        ensures
            !status.is_pressed,
            !status.is_hovered,
            !status.is_focused,
            !status.is_disabled,
    {
        Status { is_pressed: false, is_hovered: false, is_focused: false, is_disabled: false }
    }
}

} // verus!
