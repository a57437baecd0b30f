//! Reflowing logical lines into display rows of a fixed-width grid.
//!
//! A logical line is split into consecutive chunks of at most `width`
//! characters, each chunk one display row. An empty line yields exactly one
//! empty row, a line whose length is an exact multiple of the width yields
//! exactly that many full rows and no trailing empty one, and a width of
//! zero degrades to one row per line, unchanged.

use vstd::prelude::*;
use vstd::string::StrSliceExecFns;
use crate::text::views;

verus! {

/// The display rows one logical line occupies, in order.
pub open spec fn wrap_line(line: Seq<char>, width: nat) -> Seq<Seq<char>>
    decreases line.len(),
{
    if width == 0 || line.len() <= width {
        seq![line]
    } else {
        seq![line.take(width as int)] + wrap_line(line.skip(width as int), width)
    }
}

/// The display rows of a sequence of logical lines, in order; rows of
/// different lines are never merged.
pub open spec fn reflow_spec(lines: Seq<Seq<char>>, width: nat) -> Seq<Seq<char>>
    decreases lines.len(),
{
    if lines.len() == 0 {
        Seq::empty()
    } else {
        wrap_line(lines[0], width) + reflow_spec(lines.skip(1), width)
    }
}

/// The characters of the given rows, concatenated back into one sequence.
pub open spec fn concat_rows(rows: Seq<Seq<char>>) -> Seq<char>
    decreases rows.len(),
{
    if rows.len() == 0 {
        Seq::empty()
    } else {
        rows[0] + concat_rows(rows.skip(1))
    }
}

/// How many display rows one logical line occupies on a grid of the given
/// width.
pub open spec fn row_count(line: Seq<char>, width: nat) -> nat {
    if width == 0 || line.len() == 0 {
        1
    } else {
        (((line.len() - 1) / width as int) + 1) as nat
    }
}

/// Reflow is a content-preserving partition: for any positive width,
/// concatenating the display rows of a line reproduces the line exactly.
pub proof fn lemma_reflow_preserves_content(line: Seq<char>, width: nat)
    requires
        width > 0,
    ensures
        concat_rows(wrap_line(line, width)) == line,
    decreases line.len(),
{
    if line.len() <= width {
        let rows = wrap_line(line, width);
        assert(rows == seq![line]);
        assert(rows.skip(1) =~= Seq::<Seq<char>>::empty());
        assert(concat_rows(rows) == line + concat_rows(rows.skip(1)));
        assert(line + Seq::<char>::empty() =~= line);
    } else {
        let head = line.take(width as int);
        let tail = line.skip(width as int);
        lemma_reflow_preserves_content(tail, width);
        let rows = wrap_line(line, width);
        assert(rows == seq![head] + wrap_line(tail, width));
        assert(rows[0] == head);
        assert(rows.skip(1) =~= wrap_line(tail, width));
        assert(concat_rows(rows) == head + concat_rows(wrap_line(tail, width)));
        assert(head + tail =~= line);
    }
}

/// A line of length `n` occupies `max(1, ceil(n / width))` display rows for
/// any positive width: the empty line yields exactly one row, and a
/// non-empty line yields `(n - 1) / width + 1 == (n + width - 1) / width`
/// rows, so a length that is an exact multiple of the width yields no
/// trailing empty row.
pub proof fn lemma_reflow_row_count(line: Seq<char>, width: nat)
    requires
        width > 0,
    ensures
        wrap_line(line, width).len() == row_count(line, width),
        line.len() == 0 ==> row_count(line, width) == 1,
        line.len() > 0 ==> row_count(line, width) == (line.len() + width - 1) as int / width as int,
    decreases line.len(),
{
    if line.len() > 0 {
        vstd::arithmetic::div_mod::lemma_div_plus_one(line.len() - 1, width as int);
        assert((line.len() - 1 + width) / width as int == (line.len() - 1) / width as int + 1);
    }
    if line.len() <= width {
        assert(wrap_line(line, width).len() == 1);
        if line.len() > 0 {
            assert((line.len() - 1) / width as int == 0) by {
                vstd::arithmetic::div_mod::lemma_basic_div(line.len() - 1, width as int);
            }
        }
    } else {
        let tail = line.skip(width as int);
        lemma_reflow_row_count(tail, width);
        assert(tail.len() == line.len() - width);
        vstd::arithmetic::div_mod::lemma_div_plus_one(line.len() - width - 1, width as int);
        assert((line.len() - 1) / width as int == (line.len() - width - 1) / width as int + 1);
    }
}

/// Every display row of one line fits the grid: at most `width` characters,
/// for any positive width.
pub proof fn lemma_wrap_line_rows_fit(line: Seq<char>, width: nat)
    requires
        width > 0,
    ensures
        forall|i: int|
            0 <= i < wrap_line(line, width).len() ==> #[trigger] wrap_line(line, width)[i].len()
                <= width,
    decreases line.len(),
{
    if line.len() > width {
        lemma_wrap_line_rows_fit(line.skip(width as int), width);
        let rows = wrap_line(line, width);
        let rest = wrap_line(line.skip(width as int), width);
        assert forall|i: int| 0 <= i < rows.len() implies #[trigger] rows[i].len() <= width by {
            if i > 0 {
                assert(rows[i] == rest[i - 1]);
            }
        }
    }
}

/// Every display row the reflow hands to the renderer fits the grid: at most
/// `width` characters, for any positive width.
pub proof fn lemma_reflow_rows_fit(lines: Seq<Seq<char>>, width: nat)
    requires
        width > 0,
    ensures
        forall|i: int|
            0 <= i < reflow_spec(lines, width).len() ==> #[trigger] reflow_spec(lines, width)[
                i
            ].len() <= width,
    decreases lines.len(),
{
    if lines.len() > 0 {
        lemma_wrap_line_rows_fit(lines[0], width);
        lemma_reflow_rows_fit(lines.skip(1), width);
        let rows = reflow_spec(lines, width);
        let head = wrap_line(lines[0], width);
        let rest = reflow_spec(lines.skip(1), width);
        assert forall|i: int| 0 <= i < rows.len() implies #[trigger] rows[i].len() <= width by {
            if i < head.len() {
                assert(rows[i] == head[i]);
            } else {
                assert(rows[i] == rest[i - head.len()]);
            }
        }
    }
}

/// A zero width never divides: reflow degrades to the identity, one
/// unchanged row per logical line.
pub proof fn lemma_zero_width_identity(lines: Seq<Seq<char>>)
    ensures
        reflow_spec(lines, 0) == lines,
    decreases lines.len(),
{
    if lines.len() > 0 {
        lemma_zero_width_identity(lines.skip(1));
        assert(seq![lines[0]] + lines.skip(1) =~= lines);
    }
}

/// Reflowing a concatenation of line sequences reflows each part in turn.
pub proof fn lemma_reflow_append(a: Seq<Seq<char>>, b: Seq<Seq<char>>, width: nat)
    ensures
        reflow_spec(a + b, width) == reflow_spec(a, width) + reflow_spec(b, width),
    decreases a.len(),
{
    if a.len() == 0 {
        assert(a + b =~= b);
        assert(reflow_spec(a, width) + reflow_spec(b, width) =~= reflow_spec(b, width));
    } else {
        assert((a + b)[0] == a[0]);
        assert((a + b).skip(1) =~= a.skip(1) + b);
        lemma_reflow_append(a.skip(1), b, width);
        assert(reflow_spec(a + b, width) == wrap_line(a[0], width) + (reflow_spec(
            a.skip(1),
            width,
        ) + reflow_spec(b, width)));
        assert(wrap_line(a[0], width) + (reflow_spec(a.skip(1), width) + reflow_spec(b, width))
            =~= (wrap_line(a[0], width) + reflow_spec(a.skip(1), width)) + reflow_spec(b, width));
    }
}

/// Reflowing one more line appends that line's rows.
proof fn lemma_reflow_take_snoc(lines: Seq<Seq<char>>, width: nat, j: int)
    requires
        0 <= j < lines.len(),
    ensures
        reflow_spec(lines.take(j + 1), width) == reflow_spec(lines.take(j), width) + wrap_line(
            lines[j],
            width,
        ),
{
    assert(lines.take(j + 1) =~= lines.take(j) + seq![lines[j]]);
    lemma_reflow_append(lines.take(j), seq![lines[j]], width);
    let single = seq![lines[j]];
    assert(single.skip(1) =~= Seq::<Seq<char>>::empty());
    assert(reflow_spec(single, width) == wrap_line(lines[j], width) + reflow_spec(
        single.skip(1),
        width,
    ));
    assert(wrap_line(lines[j], width) + Seq::<Seq<char>>::empty() =~= wrap_line(lines[j], width));
}

/// Pushes the display rows of one logical line onto `rows`.
fn wrap_into(rows: &mut Vec<String>, line: &String, width: usize)
    ensures
        views(final(rows)@) == views(old(rows)@) + wrap_line(line@, width as nat),
{
    let n: usize = line.as_str().unicode_len();
    if width == 0 || n <= width {
        rows.push(line.clone());
        proof {
            assert(wrap_line(line@, width as nat) == seq![line@]);
            assert(views(rows@) =~= views(old(rows)@) + wrap_line(line@, width as nat));
        }
        return;
    }
    let mut i: usize = 0;
    proof {
        assert(line@.skip(0) =~= line@);
    }
    while n - i > width
        invariant
            0 < width,
            i < n,
            n == line@.len(),
            views(rows@) + wrap_line(line@.skip(i as int), width as nat) == views(old(rows)@)
                + wrap_line(line@, width as nat),
        decreases n - i,
    {
        let chunk = line.as_str().substring_char(i, i + width).to_owned();
        proof {
            let rest = line@.skip(i as int);
            assert(chunk@ =~= rest.take(width as int));
            assert(rest.skip(width as int) =~= line@.skip(i + width));
            assert(wrap_line(rest, width as nat) == seq![chunk@] + wrap_line(
                line@.skip(i + width),
                width as nat,
            ));
        }
        let ghost before = rows@;
        rows.push(chunk);
        proof {
            assert(views(rows@) =~= views(before).push(rows@[before.len() as int]@));
            assert(views(before).push(rows@[before.len() as int]@) + wrap_line(
                line@.skip(i + width),
                width as nat,
            ) =~= views(before) + wrap_line(line@.skip(i as int), width as nat));
        }
        i = i + width;
    }
    let chunk = line.as_str().substring_char(i, n).to_owned();
    proof {
        let rest = line@.skip(i as int);
        assert(chunk@ =~= rest);
        assert(wrap_line(rest, width as nat) == seq![rest]);
    }
    let ghost before = rows@;
    rows.push(chunk);
    proof {
        assert(views(rows@) =~= views(before).push(line@.skip(i as int)));
        assert(views(before).push(line@.skip(i as int)) =~= views(before) + wrap_line(
            line@.skip(i as int),
            width as nat,
        ));
    }
}

/// Reflow: split each logical line into consecutive display rows of at most
/// `width` characters, in order. A zero width returns one row per line,
/// unchanged.
pub fn reflow(lines: &Vec<String>, width: usize) -> (rows: Vec<String>)
    ensures
        views(rows@) == reflow_spec(views(lines@), width as nat),
{
    let mut rows: Vec<String> = Vec::new();
    proof {
        assert(views(rows@) =~= Seq::<Seq<char>>::empty());
        assert(views(lines@).take(0) =~= Seq::<Seq<char>>::empty());
    }
    let mut j: usize = 0;
    while j < lines.len()
        invariant
            j <= lines@.len(),
            views(rows@) == reflow_spec(views(lines@).take(j as int), width as nat),
        decreases lines@.len() - j,
    {
        wrap_into(&mut rows, &lines[j], width);
        proof {
            lemma_reflow_take_snoc(views(lines@), width as nat, j as int);
            assert(views(lines@)[j as int] == lines@[j as int]@);
        }
        j = j + 1;
    }
    proof {
        assert(views(lines@).take(lines@.len() as int) =~= views(lines@));
    }
    rows
}

} // verus!
