//! The trigger-gated toggle: a two-state (closed/open) machine driven by
//! momentary triggers, emitting an edge event only when the state actually
//! changes. The modal overlay controller and the transform-mode controller
//! are both instances of this one primitive; the frame driver maps their
//! edges onto different event payloads.

use vstd::prelude::*;

verus! {

/// An edge taken by a toggle during one tick.
#[derive(Clone, Copy, Debug, PartialEq, Eq, Structural)]
pub enum ToggleEdge {
    Opened,
    Closed,
}

/// A two-state toggle; initial state is closed.
#[derive(Clone, Copy, Debug, PartialEq, Eq, Structural)]
pub struct UIState {
    pub open: bool,
}

impl Default for UIState {
    /// The closed state.
    fn default() -> (r: UIState)
        ensures
            !r.open,
    {
        UIState { open: false }
    }
}

/// The state after one tick: the close trigger acts only while open, the open
/// trigger only while closed, so with both triggers active the current state
/// alone decides which edge fires.
pub open spec fn toggle_next(open: bool, open_trigger: bool, close_trigger: bool) -> bool {
    if open && close_trigger {
        false
    } else if !open && open_trigger {
        true
    } else {
        open
    }
}

/// The edge event emitted during one tick, if any: exactly when the state
/// changes.
pub open spec fn toggle_edge(open: bool, open_trigger: bool, close_trigger: bool) -> Option<
    ToggleEdge,
> {
    if open && close_trigger {
        Some(ToggleEdge::Closed)
    } else if !open && open_trigger {
        Some(ToggleEdge::Opened)
    } else {
        None
    }
}

impl UIState {
    /// Drive the toggle by one tick's triggers.
    pub fn step(&mut self, open_trigger: bool, close_trigger: bool) -> (r: Option<ToggleEdge>)
        ensures
            final(self).open == toggle_next(old(self).open, open_trigger, close_trigger),
            r == toggle_edge(old(self).open, open_trigger, close_trigger),
    {
        if self.open && close_trigger {
            self.open = false;
            Some(ToggleEdge::Closed)
        } else if !self.open && open_trigger {
            self.open = true;
            Some(ToggleEdge::Opened)
        } else {
            None
        }
    }
}

/// An open event fires exactly on the closed-to-open edge; in particular,
/// holding the open trigger while already open emits nothing and leaves the
/// state open.
pub proof fn lemma_open_event_only_on_edge(open: bool, open_trigger: bool, close_trigger: bool)
    ensures
        (toggle_edge(open, open_trigger, close_trigger) == Some(ToggleEdge::Opened)) <==> (!open
            && open_trigger),
        open && !close_trigger ==> toggle_edge(open, open_trigger, close_trigger) is None
            && toggle_next(open, open_trigger, close_trigger),
{
}

/// The three interaction states a presentation-level button reports per tick.
#[derive(Clone, Copy, Debug, PartialEq, Eq, Structural)]
pub enum ButtonInteraction {
    Idle,
    Hovered,
    Pressed,
}

/// A transition into `Pressed` raises the begin-transform trigger.
pub open spec fn begin_transform_trigger(prev: ButtonInteraction, now: ButtonInteraction) -> bool {
    now is Pressed && !(prev is Pressed)
}

/// A transition back to `Idle` raises the finalize-transform trigger.
pub open spec fn finalize_transform_trigger(
    prev: ButtonInteraction,
    now: ButtonInteraction,
) -> bool {
    now is Idle && !(prev is Idle)
}

/// Derive the transform-mode triggers from one tick's button interaction
/// transition.
pub fn button_triggers(prev: ButtonInteraction, now: ButtonInteraction) -> (r: (bool, bool))
    ensures
        r.0 == begin_transform_trigger(prev, now),
        r.1 == finalize_transform_trigger(prev, now),
{
    let begin = matches!(now, ButtonInteraction::Pressed) && !matches!(
        prev,
        ButtonInteraction::Pressed,
    );
    let finish = matches!(now, ButtonInteraction::Idle) && !matches!(prev, ButtonInteraction::Idle);
    (begin, finish)
}

} // verus!
