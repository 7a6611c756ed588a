use vstd::prelude::*;

verus! {

/// The window `(start, count)` of a list of `total` items that a view of
/// `capacity` rows shows when scrolled to `offset`.
pub open spec fn spec_visible_window(total: int, offset: int, capacity: int) -> (int, int) {
    if total == 0 || capacity == 0 {
        (0, 0)
    } else {
        let max_start = if total > capacity { total - capacity } else { 0 };
        let start = if offset < max_start { offset } else { max_start };
        let count = if capacity < total - start { capacity } else { total - start };
        (start, count)
    }
}

/// Picks which items of a scrolled list are visible. Near the end the window
/// is pulled back so that it stays full instead of showing a partial tail.
pub fn visible_window(total: usize, offset: usize, capacity: usize) -> (window: (usize, usize))
    ensures
        (window.0 as int, window.1 as int) == spec_visible_window(
            total as int,
            offset as int,
            capacity as int,
        ),
        window.0 + window.1 <= total,
        window.1 <= capacity,
{
    if total == 0 || capacity == 0 {
        return (0, 0);
    }
    let max_start = total.saturating_sub(capacity);
    let start = if offset < max_start { offset } else { max_start };
    let rest = total - start;
    let count = if capacity < rest { capacity } else { rest };
    (start, count)
}

/// The window shows as many items as fit, or all of them where fewer
/// exist: near the end it is pulled back rather than left partly empty;
/// an offset from which a full window fits is kept.
pub proof fn law_window_stays_full(total: int, offset: int, capacity: int)
    requires
        total >= 0,
        offset >= 0,
        capacity >= 0,
    ensures
        spec_visible_window(total, offset, capacity).1 == (if capacity < total { capacity } else { total }),
        spec_visible_window(total, offset, capacity).0 + spec_visible_window(total, offset, capacity).1
            <= total,
        capacity > 0 && offset + capacity <= total ==> spec_visible_window(total, offset, capacity).0 == offset,
{
}

} // verus!
