//! The debug key bindings: hiding and showing the cursor, and quitting.

use vstd::prelude::*;

verus! {

/// What the debug keys ask for in one tick.
#[derive(Clone, Copy, Debug, PartialEq, Eq, Structural)]
pub struct DebugAction {
    /// Whether the cursor is to be shown.
    pub cursor_visible: bool,
    /// Whether the game is to quit.
    pub quit: bool,
}

/// The effect of the debug keys held this tick: F1 hides the cursor, F2
/// shows it (F2 wins when both are held), Escape quits. With neither F1 nor
/// F2 held the cursor keeps its visibility.
pub fn debug_inputs(f1: bool, f2: bool, escape: bool, cursor_visible: bool) -> (r: DebugAction)
    ensures
        r.cursor_visible == (if f2 {
            true
        } else if f1 {
            false
        } else {
            cursor_visible
        }),
        r.quit == escape,
{
    let mut visible = cursor_visible;
    if f1 {
        visible = false;
    }
    if f2 {
        visible = true;
    }
    DebugAction { cursor_visible: visible, quit: escape }
}

} // verus!
