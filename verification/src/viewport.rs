//! The visible window over the reflowed display rows.
//!
//! Tail-scroll policy: the window always tracks the bottom of the content,
//! with no independent scroll position.

use vstd::prelude::*;

verus! {

/// The first index of the visible window: zero when everything fits,
/// otherwise the start of the trailing `capacity` rows.
pub open spec fn window_start(len: nat, capacity: nat) -> int {
    if len <= capacity {
        0
    } else {
        len - capacity
    }
}

/// Select the rows to display: all of them if they fit, otherwise the last
/// `capacity` rows. The window never holds more than `capacity` rows and is
/// always a suffix of the full reflowed sequence.
pub fn select(rows: &Vec<String>, capacity: usize) -> (window: Vec<String>)
    ensures
        window@ == rows@.skip(window_start(rows@.len(), capacity as nat)),
        window@.len() <= capacity,
        window@.len() <= rows@.len(),
{
    let start: usize = if rows.len() > capacity {
        rows.len() - capacity
    } else {
        0
    };
    let mut window: Vec<String> = Vec::new();
    let mut i: usize = start;
    while i < rows.len()
        invariant
            start <= i <= rows@.len(),
            window@ == rows@.subrange(start as int, i as int),
        decreases rows@.len() - i,
    {
        let row = rows[i].clone();
        window.push(row);
        proof {
            assert(window@ =~= rows@.subrange(start as int, i + 1));
        }
        i = i + 1;
    }
    proof {
        assert(window@ =~= rows@.skip(start as int));
    }
    window
}

} // verus!
