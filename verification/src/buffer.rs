//! The logical buffer: the append-only history of committed lines plus the
//! single live, editable input line and its edit cursor.
//!
//! The history's last line is the open line; for display the live input is
//! appended onto it, but the input text itself is only persisted into
//! history on commit. The edit cursor is a character offset into the input,
//! always within `[0, input length]`.

use vstd::prelude::*;
use vstd::string::StrSliceExecFns;
use vstd::string::StringExecFns;
use crate::text::char_to_string;
use crate::text::views;

verus! {

/// The mathematical value of a `LogicalBuffer`.
pub ghost struct BufferView {
    /// Committed logical lines; the last one is the open line.
    pub history: Seq<Seq<char>>,
    /// The live input line, not yet committed.
    pub input: Seq<char>,
    /// Character offset of the edit cursor within `input`.
    pub cursor: nat,
    /// Grid width in character cells; display metadata only.
    pub width: nat,
}

impl BufferView {
    /// The edit cursor never leaves the input line.
    pub open spec fn wf(self) -> bool {
        self.cursor <= self.input.len()
    }
}

/// `history` with `line` joined onto its last (open) line; a new line if the
/// history is empty.
pub open spec fn join_last(history: Seq<Seq<char>>, line: Seq<char>) -> Seq<Seq<char>> {
    if history.len() == 0 {
        seq![line]
    } else {
        history.update(history.len() - 1, history.last() + line)
    }
}

/// Inserting a character at the cursor shifts the cursor right by one.
pub open spec fn insert_spec(v: BufferView, c: char) -> BufferView {
    BufferView {
        input: v.input.take(v.cursor as int) + seq![c] + v.input.skip(v.cursor as int),
        cursor: v.cursor + 1,
        ..v
    }
}

/// Backspace removes the character immediately before the cursor and shifts
/// the cursor left by one; at offset zero it is a no-op.
pub open spec fn backspace_spec(v: BufferView) -> BufferView {
    if v.cursor == 0 {
        v
    } else {
        BufferView {
            input: v.input.take(v.cursor - 1) + v.input.skip(v.cursor as int),
            cursor: (v.cursor - 1) as nat,
            ..v
        }
    }
}

/// Moving the cursor clamps the new offset to `[0, input length]`.
pub open spec fn move_cursor_spec(v: BufferView, delta: int) -> BufferView {
    let target = v.cursor + delta;
    BufferView {
        cursor: if target < 0 {
            0
        } else if target > v.input.len() {
            v.input.len()
        } else {
            target as nat
        },
        ..v
    }
}

/// Commit joins the input onto the open line, opens a fresh empty line, and
/// clears the input and cursor.
pub open spec fn commit_spec(v: BufferView) -> BufferView {
    BufferView {
        history: join_last(v.history, v.input).push(Seq::empty()),
        input: Seq::empty(),
        cursor: 0,
        ..v
    }
}

/// Appending text joins it onto the open line; input and cursor are
/// untouched.
pub open spec fn append_spec(v: BufferView, line: Seq<char>) -> BufferView {
    BufferView { history: join_last(v.history, line), ..v }
}

/// A newline opens a fresh empty line at the bottom of the history.
pub open spec fn newline_spec(v: BufferView) -> BufferView {
    BufferView { history: v.history.push(Seq::empty()), ..v }
}

/// Replacing the input (during recall) puts the cursor at its end.
pub open spec fn replace_input_spec(v: BufferView, line: Seq<char>) -> BufferView {
    BufferView { input: line, cursor: line.len(), ..v }
}

/// Resize only updates display metadata; history, input and cursor are
/// untouched.
pub open spec fn resize_spec(v: BufferView, width: nat) -> BufferView {
    BufferView { width, ..v }
}

/// The append-only history of committed lines plus the live input line, its
/// edit cursor, and the grid width used to reflow it all.
pub struct LogicalBuffer {
    history: Vec<String>,
    input: String,
    cursor: usize,
    width: usize,
}

impl View for LogicalBuffer {
    type V = BufferView;

    closed spec fn view(&self) -> BufferView {
        BufferView {
            history: views(self.history@),
            input: self.input@,
            cursor: self.cursor as nat,
            width: self.width as nat,
        }
    }
}

impl LogicalBuffer {
    /// An empty buffer: no history, empty input, cursor at zero.
    pub fn new(width: usize) -> (b: LogicalBuffer)
        ensures
            b@.history == Seq::<Seq<char>>::empty(),
            b@.input == Seq::<char>::empty(),
            b@.cursor == 0,
            b@.width == width as nat,
            b@.wf(),
    {
        let b = LogicalBuffer { history: Vec::new(), input: String::new(), cursor: 0, width };
        proof {
            assert(b@.history =~= Seq::<Seq<char>>::empty());
        }
        b
    }

    /// Insert a character at the edit cursor; the cursor shifts one right.
    /// The input length bound is a machine limit only.
    pub fn insert(&mut self, c: char)
        requires
            old(self)@.wf(),
            old(self)@.input.len() < usize::MAX,
        ensures
            final(self)@ == insert_spec(old(self)@, c),
            final(self)@.wf(),
    {
        let n: usize = self.input.as_str().unicode_len();
        let mut s = self.input.as_str().substring_char(0, self.cursor).to_owned();
        let cs = char_to_string(c);
        s.append(cs.as_str());
        let post = self.input.as_str().substring_char(self.cursor, n).to_owned();
        s.append(post.as_str());
        proof {
            assert(old(self)@.input.take(self.cursor as int) =~= self.input@.subrange(
                0,
                self.cursor as int,
            ));
            assert(old(self)@.input.skip(self.cursor as int) =~= self.input@.subrange(
                self.cursor as int,
                n as int,
            ));
        }
        self.input = s;
        self.cursor = self.cursor + 1;
        proof {
            assert(self@.input =~= insert_spec(old(self)@, c).input);
        }
    }

    /// Remove the character immediately before the cursor, shifting the
    /// cursor one left; a no-op when the cursor is at offset zero.
    pub fn backspace(&mut self)
        requires
            old(self)@.wf(),
        ensures
            final(self)@ == backspace_spec(old(self)@),
            final(self)@.wf(),
    {
        if self.cursor == 0 {
            return;
        }
        let n: usize = self.input.as_str().unicode_len();
        let mut s = self.input.as_str().substring_char(0, self.cursor - 1).to_owned();
        let post = self.input.as_str().substring_char(self.cursor, n).to_owned();
        s.append(post.as_str());
        proof {
            assert(old(self)@.input.take(self.cursor - 1) =~= self.input@.subrange(
                0,
                self.cursor - 1,
            ));
            assert(old(self)@.input.skip(self.cursor as int) =~= self.input@.subrange(
                self.cursor as int,
                n as int,
            ));
        }
        self.input = s;
        self.cursor = self.cursor - 1;
        proof {
            assert(self@.input =~= backspace_spec(old(self)@).input);
        }
    }

    /// Move the cursor by `delta`, clamped to `[0, input length]`.
    pub fn move_cursor(&mut self, delta: i32)
        requires
            old(self)@.wf(),
        ensures
            final(self)@ == move_cursor_spec(old(self)@, delta as int),
            final(self)@.wf(),
    {
        let n: usize = self.input.as_str().unicode_len();
        if delta >= 0 {
            let d = delta as usize;
            if d >= n - self.cursor {
                self.cursor = n;
            } else {
                self.cursor = self.cursor + d;
            }
        } else {
            let d = (-(delta as i64)) as usize;
            if d >= self.cursor {
                self.cursor = 0;
            } else {
                self.cursor = self.cursor - d;
            }
        }
    }

    /// Commit the live input: join it onto the open line, open a fresh empty
    /// line, clear input and cursor, and hand back the committed text.
    pub fn commit(&mut self) -> (text: String)
        requires
            old(self)@.wf(),
        ensures
            final(self)@ == commit_spec(old(self)@),
            final(self)@.wf(),
            text@ == old(self)@.input,
    {
        let text = self.input.clone();
        self.join_input_line();
        self.history.push(String::new());
        self.input = String::new();
        self.cursor = 0;
        proof {
            assert(self@.history =~= commit_spec(old(self)@).history);
        }
        text
    }

    /// Join the current input onto the open line (helper for `commit`).
    fn join_input_line(&mut self)
        ensures
            views(final(self).history@) == join_last(views(old(self).history@), old(self).input@),
            final(self).input == old(self).input,
            final(self).cursor == old(self).cursor,
            final(self).width == old(self).width,
    {
        let last = self.history.pop();
        match last {
            Some(mut open_line) => {
                open_line.append(self.input.as_str());
                self.history.push(open_line);
                proof {
                    assert(views(self.history@) =~= join_last(
                        views(old(self).history@),
                        old(self).input@,
                    ));
                }
            },
            None => {
                let line = self.input.clone();
                self.history.push(line);
                proof {
                    assert(views(self.history@) =~= join_last(
                        views(old(self).history@),
                        old(self).input@,
                    ));
                }
            },
        }
    }

    /// Append text onto the open line; input and cursor stay as they are.
    pub fn append(&mut self, line: &str)
        requires
            old(self)@.wf(),
        ensures
            final(self)@ == append_spec(old(self)@, line@),
            final(self)@.wf(),
    {
        let last = self.history.pop();
        match last {
            Some(mut open_line) => {
                open_line.append(line);
                self.history.push(open_line);
                proof {
                    assert(views(self.history@) =~= join_last(views(old(self).history@), line@));
                }
            },
            None => {
                let mut s = String::new();
                s.append(line);
                self.history.push(s);
                proof {
                    assert(Seq::<char>::empty() + line@ =~= line@);
                    assert(views(self.history@) =~= join_last(views(old(self).history@), line@));
                }
            },
        }
    }

    /// Open a fresh empty line at the bottom of the history.
    pub fn newline(&mut self)
        requires
            old(self)@.wf(),
        ensures
            final(self)@ == newline_spec(old(self)@),
            final(self)@.wf(),
    {
        self.history.push(String::new());
        proof {
            assert(self@.history =~= newline_spec(old(self)@).history);
        }
    }

    /// Replace the live input (recall), putting the cursor at its end.
    pub fn replace_input(&mut self, line: String)
        ensures
            final(self)@ == replace_input_spec(old(self)@, line@),
            final(self)@.wf(),
    {
        let n: usize = line.as_str().unicode_len();
        self.input = line;
        self.cursor = n;
    }

    /// Update the grid width; pure metadata, nothing else changes.
    pub fn resize(&mut self, width: usize)
        requires
            old(self)@.wf(),
        ensures
            final(self)@ == resize_spec(old(self)@, width as nat),
            final(self)@.wf(),
    {
        self.width = width;
    }

    /// The committed history lines; the last one is the open line.
    pub fn history(&self) -> (h: &Vec<String>)
        ensures
            views(h@) == self@.history,
    {
        &self.history
    }

    /// The live input line.
    pub fn input(&self) -> (s: &String)
        ensures
            s@ == self@.input,
    {
        &self.input
    }

    /// The edit cursor's character offset within the input.
    pub fn cursor_offset(&self) -> (c: usize)
        ensures
            c as nat == self@.cursor,
    {
        self.cursor
    }

    /// The grid width in character cells.
    pub fn width(&self) -> (w: usize)
        ensures
            w as nat == self@.width,
    {
        self.width
    }
}

} // verus!
