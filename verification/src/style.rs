use vstd::prelude::*;

verus! {

/// How the divider is being interacted with, which decides how it is drawn.
#[derive(Debug, Clone, Copy, PartialEq, Eq, Structural)]
pub enum State {
    Idle,
    Hovering,
    Dragging,
}

/// The state in which the divider is drawn: a drag in progress wins over a
/// pointer that merely hovers over the drag area.
pub open spec fn status_of(dragging: bool, hovering: bool) -> State {
    if dragging {
        State::Dragging
    } else if hovering {
        State::Hovering
    } else {
        State::Idle
    }
}

/// The state in which the divider is drawn, given whether a drag is in
/// progress and whether the pointer lies within the drag area.
pub fn status(dragging: bool, hovering: bool) -> (r: State)
    ensures
        r == status_of(dragging, hovering),
{
    if dragging {
        State::Dragging
    } else if hovering {
        State::Hovering
    } else {
        State::Idle
    }
}

/// The divider is drawn as dragging exactly while a drag is in progress,
/// as hovered exactly when the pointer is over it and no drag is in
/// progress, and as idle otherwise.
pub proof fn lemma_status_priority(dragging: bool, hovering: bool)
    ensures
        (status_of(dragging, hovering) == State::Dragging) == dragging,
        (status_of(dragging, hovering) == State::Hovering) == (!dragging && hovering),
        (status_of(dragging, hovering) == State::Idle) == (!dragging && !hovering),
{
}

} // verus!
