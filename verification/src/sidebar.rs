//! The sidebar's layout axis and the direction of its collapse toggle.

use vstd::prelude::*;

verus! {

/// Which way a sidebar lays its children out.
#[derive(Debug, Clone, Copy, PartialEq, Eq, Hash, Structural)]
pub enum Axis {
    /// Children in a column; collapsing animates the width.
    Vertical,
    /// Children in a row; collapsing animates the height.
    Horizontal,
}

impl Default for Axis {
    /// A column.
    fn default() -> (axis: Self)
        ensures
            axis == Axis::Vertical,
    {
        Axis::Vertical
    }
}

/// Which way the collapse toggle's chevron points.
#[derive(Debug, Clone, Copy, PartialEq, Eq, Hash, Structural)]
pub enum Chevron {
    /// Towards the leading edge of a row.
    Left,
    /// Towards the trailing edge of a row.
    Right,
    /// Towards the top.
    Up,
    /// Towards the bottom.
    Down,
}

/// The chevron of a sidebar on `axis`: it points the way the sidebar edge
/// will move when pressed. A column collapses its width, so an open column
/// points left and a collapsed one right; a row collapses its height, so an
/// open row points up and a collapsed one down.
pub open spec fn chevron_spec(axis: Axis, collapsed: bool) -> Chevron {
    match axis {
        Axis::Vertical => if collapsed { Chevron::Right } else { Chevron::Left },
        Axis::Horizontal => if collapsed { Chevron::Down } else { Chevron::Up },
    }
}

/// The toggle chevron for a sidebar on `axis` in state `collapsed`.
pub fn chevron(axis: Axis, collapsed: bool) -> (c: Chevron)
    ensures
        c == chevron_spec(axis, collapsed),
{
    match axis {
        Axis::Vertical => if collapsed {
            Chevron::Right
        } else {
            Chevron::Left
        },
        Axis::Horizontal => if collapsed {
            Chevron::Down
        } else {
            Chevron::Up
        },
    }
}

/// The chevron tells every state apart: pressing the toggle flips the
/// direction, and the two axes never share a chevron.
pub proof fn law_chevron_tells_states_apart(a: Axis, ca: bool, b: Axis, cb: bool)
    ensures
        chevron_spec(a, ca) == chevron_spec(b, cb) <==> (a == b && ca == cb),
{
}

} // verus!
