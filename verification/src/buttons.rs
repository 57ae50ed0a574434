//! The two button handlers: what an edge on a button does to the shared
//! value behind it.
//!
//! Nothing is debounced: every confirmed edge counts as a press, so a
//! bouncing contact may step a value more than once.

use vstd::prelude::*;
use crate::color::{next_color, ColorMask};
use crate::mode::Mode;

verus! {

/// The mode button's handler. On a confirmed edge the result is the mode to
/// store, the next one in the cycle, and the pending flag of the input is to
/// be cleared after the store. Without a confirmed edge nothing is stored
/// and nothing cleared.
pub fn mode_button(current: Mode, edge_confirmed: bool) -> (r: Option<Mode>)
    ensures
        edge_confirmed ==> r == Some(current.spec_next()),
        edge_confirmed ==> r.unwrap().spec_index() == (current.spec_index() + 1) % 4,
        !edge_confirmed ==> r is None,
{
    if edge_confirmed {
        Some(current.next())
    } else {
        None
    }
}

/// The colour button's handler. On a confirmed edge the result is the colour
/// to store, the next mask value, which may be the one with all channels
/// off, and the pending flag of the input is to be cleared after the store.
/// Without a confirmed edge nothing is stored and nothing cleared.
pub fn color_button(current: ColorMask, edge_confirmed: bool) -> (r: Option<ColorMask>)
    ensures
        edge_confirmed ==> r is Some && r.unwrap()@ == next_color(current@),
        edge_confirmed ==> r.unwrap()@ == (current@ + 1) % 8,
        !edge_confirmed ==> r is None,
{
    if edge_confirmed {
        Some(current.next())
    } else {
        None
    }
}

} // verus!
