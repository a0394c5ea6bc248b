//! Interactive terminal browser for a directory of plain-text notes.
//!
//! The verified core is the interaction state machine: mode transitions,
//! selection-cursor management over a mutable, filterable note list, and the
//! synchronization of the fuzzy-filtered list with the full list. Directory
//! access, terminal setup, rendering and editor launching are thin unverified
//! collaborators around this core.

pub mod app;
pub mod engine;
pub mod fuzzy;
pub mod laws;
pub mod text;

use vstd::prelude::*;

verus! {

/// Where the selection cursor lands after the current list was replaced:
/// `None` on an empty list; otherwise it keeps its position, clamped to the
/// last valid index, and lands on the first entry when it had no position.
pub open spec fn clamped_cursor(cur: Option<usize>, len: nat) -> Option<usize> {
    if len == 0 {
        None
    } else {
        match cur {
            None => Some(0usize),
            Some(i) => if i < len {
                Some(i)
            } else {
                Some((len - 1) as usize)
            },
        }
    }
}

/// Where the selection cursor lands after a filter change: re-anchored at the
/// top of the new list, or `None` when that list is empty.
pub open spec fn reset_cursor(len: nat) -> Option<usize> {
    if len == 0 {
        None
    } else {
        Some(0usize)
    }
}

} // verus!
