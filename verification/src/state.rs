use vstd::prelude::*;

verus! {

/// What happened to the pointer, as far as the divider is concerned.
#[derive(Debug, Clone, Copy, PartialEq, Eq, Structural)]
pub enum PointerEvent {
    /// The left button went down; `over_divider` tells whether the pointer
    /// lay within the divider's drag area.
    LeftPressed { over_divider: bool },
    /// The left button went up.
    LeftReleased,
    /// The pointer left the window.
    CursorLeft,
    /// The pointer moved; `divider_moves` tells whether the ratio that the
    /// new position gives differs from the current one.
    CursorMoved { divider_moves: bool },
    /// Any other event.
    Other,
}

/// What the split does with an event.
#[derive(Debug, Clone, Copy, PartialEq, Eq, Structural)]
pub struct Reaction {
    /// The split keeps the event: its panes do not see it. When this is
    /// false the event is handed to both panes.
    pub capture: bool,
    /// The split publishes its state with the ratio under the pointer.
    pub publish: bool,
    /// The split asks for a redraw.
    pub redraw: bool,
}

/// The interaction state that the split keeps between events.
#[derive(Debug, Clone, Copy)]
pub struct InternalState {
    /// A drag of the divider is in progress.
    pub is_dragging: bool,
    /// The pointer hovers over the divider.
    pub is_hovering: bool,
}

/// Whether a drag is in progress after `event`, when `dragging` told so
/// before it: a press on the divider starts one, a release of the button or
/// the pointer leaving the window ends it, and nothing else changes it.
pub open spec fn dragging_after(dragging: bool, event: PointerEvent) -> bool {
    match event {
        PointerEvent::LeftPressed { over_divider } => dragging || over_divider,
        PointerEvent::LeftReleased | PointerEvent::CursorLeft => false,
        _ => dragging,
    }
}

/// What the split does with `event` when `dragging` tells whether a drag is
/// in progress. A press is kept when it falls on the divider; a release, a
/// pointer leaving the window and a move are kept while a drag is in
/// progress; other events always reach the panes. A move during a drag
/// publishes the new ratio when it differs; the end of a drag asks for a
/// redraw.
pub open spec fn reaction(dragging: bool, event: PointerEvent) -> Reaction {
    Reaction {
        capture: match event {
            PointerEvent::LeftPressed { over_divider } => over_divider,
            PointerEvent::Other => false,
            _ => dragging,
        },
        publish: match event {
            PointerEvent::CursorMoved { divider_moves } => dragging && divider_moves,
            _ => false,
        },
        redraw: match event {
            PointerEvent::LeftReleased | PointerEvent::CursorLeft => dragging,
            _ => false,
        },
    }
}

impl Default for InternalState {
    /// No drag in progress, no hovering.
    fn default() -> (r: Self)
        ensures
            !r.is_dragging,
            !r.is_hovering,
    {
        InternalState { is_dragging: false, is_hovering: false }
    }
}

impl InternalState {
    /// Takes `event` into account: updates whether a drag is in progress and
    /// says what to do with the event.
    pub fn handle(&mut self, event: PointerEvent) -> (r: Reaction)
        ensures
            final(self).is_dragging == dragging_after(old(self).is_dragging, event),
            final(self).is_hovering == old(self).is_hovering,
            r == reaction(old(self).is_dragging, event),
    {
        let dragging = self.is_dragging;
        match event {
            PointerEvent::LeftPressed { over_divider } => {
                if over_divider {
                    self.is_dragging = true;
                    Reaction { capture: true, publish: false, redraw: false }
                } else {
                    Reaction { capture: false, publish: false, redraw: false }
                }
            },
            PointerEvent::LeftReleased | PointerEvent::CursorLeft => {
                if dragging {
                    self.is_dragging = false;
                    Reaction { capture: true, publish: false, redraw: true }
                } else {
                    Reaction { capture: false, publish: false, redraw: false }
                }
            },
            PointerEvent::CursorMoved { divider_moves } => {
                if dragging {
                    Reaction { capture: true, publish: divider_moves, redraw: false }
                } else {
                    Reaction { capture: false, publish: false, redraw: false }
                }
            },
            PointerEvent::Other => Reaction { capture: false, publish: false, redraw: false },
        }
    }
}

/// A press on the divider starts a drag and is kept from the panes, whatever
/// came before.
pub proof fn lemma_press_on_divider_starts_drag(dragging: bool)
    ensures
        dragging_after(dragging, PointerEvent::LeftPressed { over_divider: true }),
        reaction(dragging, PointerEvent::LeftPressed { over_divider: true }).capture,
{
}

/// Releasing the button or leaving the window ends any drag; a drag that
/// ends this way is kept from the panes and asks for a redraw.
pub proof fn lemma_release_ends_drag(dragging: bool, event: PointerEvent)
    requires
        event == PointerEvent::LeftReleased || event == PointerEvent::CursorLeft,
    ensures
        !dragging_after(dragging, event),
        reaction(dragging, event).capture == dragging,
        reaction(dragging, event).redraw == dragging,
{
}

/// The drag state changes only in two ways: a press on the divider starts a
/// drag, a release or the pointer leaving the window ends it.
pub proof fn lemma_drag_changes_only_on_press_or_release(dragging: bool, event: PointerEvent)
    ensures
        (!dragging && dragging_after(dragging, event)) ==> event == (PointerEvent::LeftPressed {
            over_divider: true,
        }),
        (dragging && !dragging_after(dragging, event)) ==> (event == PointerEvent::LeftReleased
            || event == PointerEvent::CursorLeft),
{
}

/// The split publishes a new state only during a drag, only on a move, and
/// only when the ratio under the pointer differs from the current one.
pub proof fn lemma_publish_only_while_dragging(dragging: bool, event: PointerEvent)
    ensures
        reaction(dragging, event).publish <==> (dragging && event == (PointerEvent::CursorMoved {
            divider_moves: true,
        })),
{
}

/// An event that makes the split publish or redraw is never handed to the
/// panes as well.
pub proof fn lemma_own_events_are_kept(dragging: bool, event: PointerEvent)
    ensures
        reaction(dragging, event).publish ==> reaction(dragging, event).capture,
        reaction(dragging, event).redraw ==> reaction(dragging, event).capture,
{
}

/// With no drag in progress the split keeps nothing but a press on its
/// divider: every other event reaches the panes.
pub proof fn lemma_idle_split_passes_events_on(event: PointerEvent)
    ensures
        reaction(false, event).capture <==> event == (PointerEvent::LeftPressed {
            over_divider: true,
        }),
{
}

/// Whether a drag is in progress after `events`, one after the other, when
/// `dragging` told so before them.
pub open spec fn dragging_after_all(dragging: bool, events: Seq<PointerEvent>) -> bool
    decreases events.len(),
{
    if events.len() == 0 {
        dragging
    } else {
        dragging_after(dragging_after_all(dragging, events.drop_last()), events.last())
    }
}

/// The event starts a drag: a press on the divider.
pub open spec fn starts_drag(event: PointerEvent) -> bool {
    event == (PointerEvent::LeftPressed { over_divider: true })
}

/// The event ends a drag: a release of the button or the pointer leaving.
pub open spec fn ends_drag(event: PointerEvent) -> bool {
    event == PointerEvent::LeftReleased || event == PointerEvent::CursorLeft
}

/// After any run of events a drag is in progress exactly when a press on
/// the divider came after the last release or leave, or, when no event of
/// the run started or ended a drag, when one was in progress before it.
pub proof fn lemma_drag_after_events(dragging: bool, events: Seq<PointerEvent>)
    ensures
        dragging_after_all(dragging, events) <==> ((exists|i: int|
            0 <= i < events.len() && starts_drag(#[trigger] events[i]) && forall|j: int|
                i < j < events.len() ==> !ends_drag(#[trigger] events[j])) || (dragging && forall|
            j: int,
        | 0 <= j < events.len() ==> !ends_drag(#[trigger] events[j]))),
    decreases events.len(),
{
    if events.len() > 0 {
        let prefix = events.drop_last();
        let n = events.len() - 1;
        lemma_drag_after_events(dragging, prefix);
        let e = events.last();
        assert(forall|k: int| 0 <= k < n ==> prefix[k] == events[k]);
        if starts_drag(e) {
            assert(starts_drag(events[n]));
        } else if ends_drag(e) {
            assert(ends_drag(events[n]));
        } else {
            if dragging_after_all(dragging, prefix) {
                if exists|i: int|
                    0 <= i < prefix.len() && starts_drag(#[trigger] prefix[i]) && forall|j: int|
                        i < j < prefix.len() ==> !ends_drag(#[trigger] prefix[j]) {
                    let i = choose|i: int|
                        0 <= i < prefix.len() && starts_drag(#[trigger] prefix[i]) && forall|j: int|
                            i < j < prefix.len() ==> !ends_drag(#[trigger] prefix[j]);
                    assert(starts_drag(events[i]));
                    assert forall|j: int| i < j < events.len() implies !ends_drag(
                        #[trigger] events[j],
                    ) by {
                        if j < n {
                            assert(prefix[j] == events[j]);
                        }
                    }
                } else {
                    assert forall|j: int| 0 <= j < events.len() implies !ends_drag(
                        #[trigger] events[j],
                    ) by {
                        if j < n {
                            assert(prefix[j] == events[j]);
                        }
                    }
                }
            } else {
                if exists|i: int|
                    0 <= i < events.len() && starts_drag(#[trigger] events[i]) && forall|j: int|
                        i < j < events.len() ==> !ends_drag(#[trigger] events[j]) {
                    let i = choose|i: int|
                        0 <= i < events.len() && starts_drag(#[trigger] events[i]) && forall|j: int|
                            i < j < events.len() ==> !ends_drag(#[trigger] events[j]);
                    assert(i < n);
                    assert(starts_drag(prefix[i]));
                    assert forall|j: int| i < j < prefix.len() implies !ends_drag(
                        #[trigger] prefix[j],
                    ) by {
                        assert(!ends_drag(events[j]));
                    }
                    assert(false);
                }
                if dragging && forall|j: int| 0 <= j < events.len() ==> !ends_drag(#[trigger] events[j]) {
                    assert forall|j: int| 0 <= j < prefix.len() implies !ends_drag(
                        #[trigger] prefix[j],
                    ) by {
                        assert(!ends_drag(events[j]));
                    }
                    assert(false);
                }
            }
        }
    }
}

} // verus!
