//! The interaction state machine of a draggable block widget (the palette
//! entry a user drags onto the canvas).  The widget's drawing and layout
//! belong to the host UI; the transition logic between interaction states
//! is the part with invariants, so it lives here.

use vstd::prelude::*;

verus! {

use crate::dl_ui::Mouse;

/// The interaction state of a block widget between updates.
#[derive(Copy, Clone, Debug, PartialEq, Eq, Structural)]
pub enum Interaction {
    Normal,
    Highlighted,
    Drag,
    Selected,
}

/// The transition table: keyed on whether the pointer is over the widget,
/// the previous state, and whether the primary button is down.
pub open spec fn next_interaction(is_over: bool, prev: Interaction, lmb_down: bool) -> Interaction {
    match (is_over, prev, lmb_down) {
        // The button went down somewhere else and the pointer was moved
        // over the widget while held: nothing happens.
        (true, Interaction::Normal, true) => Interaction::Normal,
        // The button went down over the widget, or is still held from a
        // drag that started on it: the widget is being dragged.
        (true, _, true) => Interaction::Drag,
        // A drag may leave the widget's bounds while the button is held.
        (false, Interaction::Drag, true) => Interaction::Drag,
        // Releasing after a drag always selects.
        (_, Interaction::Drag, false) => Interaction::Selected,
        // A selection stays until the user clicks elsewhere.
        (_, Interaction::Selected, false) => Interaction::Selected,
        (false, Interaction::Selected, true) => Interaction::Normal,
        // Hovering with the button up highlights.
        (true, _, false) => Interaction::Highlighted,
        _ => Interaction::Normal,
    }
}

/// Check the current interaction with the widget, from whether the pointer
/// is over it, the previous interaction state, and the pointer state.
pub fn get_new_interaction(is_over: bool, prev: Interaction, mouse: &Mouse) -> (r: Interaction)
    ensures
        r == next_interaction(is_over, prev, mouse.lmb),
{
    match (is_over, prev, mouse.lmb) {
        (true, Interaction::Normal, true) => Interaction::Normal,
        (true, _, true) => Interaction::Drag,
        (false, Interaction::Drag, true) => Interaction::Drag,
        (_, Interaction::Drag, false) => Interaction::Selected,
        (_, Interaction::Selected, false) => Interaction::Selected,
        (false, Interaction::Selected, true) => Interaction::Normal,
        (true, _, false) => Interaction::Highlighted,
        _ => Interaction::Normal,
    }
}

} // verus!
