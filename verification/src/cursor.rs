//! Locating the edit cursor on the visible character grid.
//!
//! The cursor sits inside the live input line, which is displayed as an
//! extension of the last (open) history line. Its grid cell is computed from
//! the committed history, the cursor's offset into the input, the grid
//! width, and the number of rows the viewport can display.

use vstd::prelude::*;
use vstd::string::StrSliceExecFns;
use crate::reflow::row_count;
use crate::text::views;

verus! {

/// The column at which the open (last) history line currently ends: its
/// length modulo the grid width, or zero for an empty history or zero width.
pub open spec fn last_committed_width(history: Seq<Seq<char>>, width: nat) -> nat {
    if history.len() == 0 || width == 0 {
        0
    } else {
        history.last().len() % width
    }
}

/// The total display-row count of a sequence of logical lines.
pub open spec fn rows_sum(lines: Seq<Seq<char>>, width: nat) -> nat
    decreases lines.len(),
{
    if lines.len() == 0 {
        0
    } else {
        row_count(lines[0], width) + rows_sum(lines.skip(1), width)
    }
}

/// The display rows consumed by the history above the open line: the sum of
/// the wrapped-row counts of every history line except the last. The last
/// line's own rows are counted together with the live input instead, since
/// the input extends it.
pub open spec fn rows_above(history: Seq<Seq<char>>, width: nat) -> nat {
    if history.len() == 0 {
        0
    } else {
        rows_sum(history.drop_last(), width)
    }
}

/// The cursor cell `(column, row)` within the visible window.
///
/// The row base is the history's row consumption, saturated at the last
/// visible row (the tail-scroll window pins the open line to the bottom once
/// history overflows); the cursor's offset within the open line then adds
/// its own column and wrapped rows. A zero width bypasses the modulus and
/// yields `(0, 0)`.
pub open spec fn locate_spec(
    history: Seq<Seq<char>>,
    cursor_offset: nat,
    width: nat,
    capacity: nat,
) -> (nat, nat) {
    if width == 0 {
        (0, 0)
    } else {
        let base = if capacity == 0 {
            0
        } else if rows_above(history, width) > capacity - 1 {
            (capacity - 1) as nat
        } else {
            rows_above(history, width)
        };
        let total = last_committed_width(history, width) + cursor_offset;
        (total % width, (base + total / width) as nat)
    }
}

/// One more line above the open line adds its own wrapped-row count.
proof fn lemma_rows_sum_take_snoc(lines: Seq<Seq<char>>, width: nat, j: int)
    requires
        0 <= j < lines.len(),
    ensures
        rows_sum(lines.take(j + 1), width) == rows_sum(lines.take(j), width) + row_count(
            lines[j],
            width,
        ),
    decreases j,
{
    let a = lines.take(j + 1);
    let b = lines.take(j);
    if j == 0 {
        assert(a.skip(1) =~= Seq::<Seq<char>>::empty());
        assert(b =~= Seq::<Seq<char>>::empty());
        assert(rows_sum(a, width) == row_count(lines[0], width) + rows_sum(a.skip(1), width));
    } else {
        lemma_rows_sum_take_snoc(lines.skip(1), width, j - 1);
        assert(a.skip(1) =~= lines.skip(1).take(j));
        assert(b.skip(1) =~= lines.skip(1).take(j - 1));
        assert(lines.skip(1)[j - 1] == lines[j]);
        assert(rows_sum(a, width) == row_count(lines[0], width) + rows_sum(a.skip(1), width));
        assert(rows_sum(b, width) == row_count(lines[0], width) + rows_sum(b.skip(1), width));
    }
}

/// The wrapped-row count of one line, computed on the characters.
fn line_row_count(line: &String, width: usize) -> (r: usize)
    ensures
        r == row_count(line@, width as nat),
{
    let n: usize = line.as_str().unicode_len();
    if width == 0 || n == 0 {
        1
    } else {
        (n - 1) / width + 1
    }
}

/// Compute the cursor cell `(column, row)` in the visible window from the
/// committed history, the cursor offset inside the live input, the grid
/// width and the viewport row capacity. A zero width yields `(0, 0)`.
///
/// The bounds required are machine limits only: they keep the computed
/// column and row within `usize`.
pub fn locate(
    history: &Vec<String>,
    cursor_offset: usize,
    width: usize,
    capacity: usize,
) -> (cell: (usize, usize))
    requires
        width + cursor_offset <= usize::MAX,
        capacity + cursor_offset <= usize::MAX,
    ensures
        cell.0 == locate_spec(
            views(history@),
            cursor_offset as nat,
            width as nat,
            capacity as nat,
        ).0,
        cell.1 == locate_spec(
            views(history@),
            cursor_offset as nat,
            width as nat,
            capacity as nat,
        ).1,
{
    if width == 0 {
        return (0, 0);
    }
    let ghost h = views(history@);

    // The column at which the open line ends before the input is appended.
    let last_committed: usize = if history.len() == 0 {
        0
    } else {
        history[history.len() - 1].as_str().unicode_len() % width
    };
    proof {
        if history@.len() > 0 {
            assert(h.last() == history@[history@.len() - 1]@);
        }
        assert(last_committed == last_committed_width(h, width as nat));
    }

    // The history's row consumption, saturated at the last visible row.
    let cap_base: usize = if capacity == 0 {
        0
    } else {
        capacity - 1
    };
    let mut base: usize = 0;
    proof {
        assert(h.take(0) =~= Seq::<Seq<char>>::empty());
    }
    if history.len() > 0 {
        let upto: usize = history.len() - 1;
        let mut j: usize = 0;
        while j < upto
            invariant
                0 < width,
                j <= upto,
                upto == h.len() - 1,
                upto < history@.len(),
                h == views(history@),
                cap_base <= usize::MAX,
                base == if rows_sum(h.take(j as int), width as nat) > cap_base {
                    cap_base as nat
                } else {
                    rows_sum(h.take(j as int), width as nat)
                },
            decreases upto - j,
        {
            let r = line_row_count(&history[j], width);
            proof {
                lemma_rows_sum_take_snoc(h, width as nat, j as int);
                assert(h[j as int] == history@[j as int]@);
            }
            if r > cap_base || base > cap_base - r {
                base = cap_base;
            } else {
                base = base + r;
            }
            j = j + 1;
        }
        proof {
            assert(h.take(upto as int) =~= h.drop_last());
        }
    }
    proof {
        if capacity == 0 {
            assert(rows_above(h, width as nat) >= 0);
            assert(base == 0);
        }
    }

    // The cursor's position within the open line, then its grid cell.
    let total: usize = last_committed + cursor_offset;
    let column: usize = total % width;
    let wrapped: usize = total / width;
    proof {
        assert(total < width * (cursor_offset + 1)) by (nonlinear_arith)
            requires
                0 < width,
                total <= width - 1 + cursor_offset,
        ;
        assert(wrapped <= cursor_offset) by {
            if wrapped > cursor_offset {
                vstd::arithmetic::div_mod::lemma_fundamental_div_mod(total as int, width as int);
                vstd::arithmetic::mul::lemma_mul_inequality(
                    cursor_offset + 1,
                    wrapped as int,
                    width as int,
                );
                assert(width * (cursor_offset + 1) <= width * wrapped) by (nonlinear_arith)
                    requires
                        (cursor_offset + 1) * width <= wrapped * width,
                ;
            }
        }
    }
    (column, base + wrapped)
}

/// The cursor column always lies within `[0, width)` when the width is
/// positive.
pub proof fn lemma_cursor_column_in_range(
    history: Seq<Seq<char>>,
    cursor_offset: nat,
    width: nat,
    capacity: nat,
)
    requires
        width > 0,
    ensures
        locate_spec(history, cursor_offset, width, capacity).0 < width,
{
    let total = last_committed_width(history, width) + cursor_offset;
    vstd::arithmetic::div_mod::lemma_mod_division_less_than_divisor(total as int, width as int);
}

/// The cursor row lies within `[0, capacity)` when width and capacity are
/// positive and the cursor has not wrapped past the open line's first
/// display row, that is, when the open line's end column plus the cursor
/// offset is still below the grid width.
pub proof fn lemma_cursor_row_in_range(
    history: Seq<Seq<char>>,
    cursor_offset: nat,
    width: nat,
    capacity: nat,
)
    requires
        width > 0,
        capacity > 0,
        last_committed_width(history, width) + cursor_offset < width,
    ensures
        locate_spec(history, cursor_offset, width, capacity).1 < capacity,
{
    let total = last_committed_width(history, width) + cursor_offset;
    vstd::arithmetic::div_mod::lemma_basic_div(total as int, width as int);
}

} // verus!
