use vstd::prelude::*;

verus! {

/// The direction in which the two panes of a split are laid out.
///
/// `Vertical` places them side by side: the divider is a vertical line and
/// moves along the x axis. `Horizontal` stacks them: the divider is a
/// horizontal line and moves along the y axis.
#[derive(Debug, Clone, Copy, PartialEq, Eq, Structural)]
pub enum Axis {
    Vertical,
    Horizontal,
}

/// Of an (x, y) or (width, height) pair, the component along which the
/// divider of a split on `axis` moves.
pub open spec fn along<T>(axis: Axis, x: T, y: T) -> T {
    match axis {
        Axis::Vertical => x,
        Axis::Horizontal => y,
    }
}

/// Of an (x, y) or (width, height) pair, the component across the
/// direction in which the divider of a split on `axis` moves.
pub open spec fn across<T>(axis: Axis, x: T, y: T) -> T {
    match axis {
        Axis::Vertical => y,
        Axis::Horizontal => x,
    }
}

/// The (x, y) pair whose component along `axis` is `a` and whose component
/// across it is `c`.
pub open spec fn placed<T>(axis: Axis, a: T, c: T) -> (T, T) {
    match axis {
        Axis::Vertical => (a, c),
        Axis::Horizontal => (c, a),
    }
}

impl Axis {
    /// The component of (`x`, `y`) along which the divider moves: the width
    /// or x coordinate for a vertical split, the height or y coordinate for a
    /// horizontal one.
    pub fn select<T>(self, x: T, y: T) -> (r: T)
        ensures
            r == along(self, x, y),
    {
        match self {
            Axis::Vertical => x,
            Axis::Horizontal => y,
        }
    }

    /// The component of (`x`, `y`) across the direction in which the divider
    /// moves.
    pub fn across<T>(self, x: T, y: T) -> (r: T)
        ensures
            r == across(self, x, y),
    {
        match self {
            Axis::Vertical => y,
            Axis::Horizontal => x,
        }
    }

    /// Builds an (x, y) pair from its component `a` along the axis and its
    /// component `c` across it.
    pub fn orient<T>(self, a: T, c: T) -> (r: (T, T))
        ensures
            r == placed(self, a, c),
    {
        match self {
            Axis::Vertical => (a, c),
            Axis::Horizontal => (c, a),
        }
    }
}

/// Placing two components on an axis and reading them back gives them
/// back: the component along the axis, then the one across it.
pub proof fn lemma_place_then_read<T>(axis: Axis, a: T, c: T)
    ensures
        along(axis, placed(axis, a, c).0, placed(axis, a, c).1) == a,
        across(axis, placed(axis, a, c).0, placed(axis, a, c).1) == c,
{
}

/// Reading the two components of a pair on an axis and placing them again
/// rebuilds the pair.
pub proof fn lemma_read_then_place<T>(axis: Axis, x: T, y: T)
    ensures
        placed(axis, along(axis, x, y), across(axis, x, y)) == (x, y),
{
}

/// The cursor that the split asks for.
#[derive(Debug, Clone, Copy, PartialEq, Eq, Structural)]
pub enum Interaction {
    /// No particular cursor: the split leaves the choice to others.
    Unspecified,
    /// A cursor for dragging left and right.
    ResizingHorizontally,
    /// A cursor for dragging up and down.
    ResizingVertically,
}

/// The cursor for a split on `axis`: over the divider's drag area a cursor
/// that resizes in the direction in which the divider moves, elsewhere none.
pub open spec fn interaction_for(axis: Axis, over_divider: bool) -> Interaction {
    if !over_divider {
        Interaction::Unspecified
    } else {
        match axis {
            Axis::Vertical => Interaction::ResizingHorizontally,
            Axis::Horizontal => Interaction::ResizingVertically,
        }
    }
}

/// The cursor that a split on `axis` asks for, given whether the pointer
/// lies within the divider's drag area.
pub fn mouse_interaction(axis: Axis, over_divider: bool) -> (r: Interaction)
    ensures
        r == interaction_for(axis, over_divider),
{
    if over_divider {
        match axis {
            Axis::Vertical => Interaction::ResizingHorizontally,
            Axis::Horizontal => Interaction::ResizingVertically,
        }
    } else {
        Interaction::Unspecified
    }
}

/// A resizing cursor is shown exactly over the divider, and it always
/// points along the direction in which the divider moves, never across it.
pub proof fn lemma_resize_cursor_follows_axis(axis: Axis, over_divider: bool)
    ensures
        (interaction_for(axis, over_divider) != Interaction::Unspecified) == over_divider,
        interaction_for(axis, over_divider) == Interaction::ResizingHorizontally ==> axis
            == Axis::Vertical,
        interaction_for(axis, over_divider) == Interaction::ResizingVertically ==> axis
            == Axis::Horizontal,
{
}

} // verus!
