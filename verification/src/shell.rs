//! The shell: one authoritative owner of the logical buffer, the recall log
//! and the blink state, driven by discrete edit and navigation events.
//!
//! Committing a line hands the committed text back to the caller, which runs
//! the command — built-ins are decided here, anything else by an external
//! interpreter — and pushes the resulting output lines back in. After each
//! mutation the caller recomputes the visible rows and the cursor cell from
//! the state held here.

use vstd::prelude::*;
use vstd::string::StrSliceExecFns;
use vstd::string::StringExecFns;
use crate::blink::Blink;
use crate::blink::BlinkState;
use crate::blink::BlinkView;
use crate::blink::press_spec;
use crate::blink::release_spec;
use crate::buffer::BufferView;
use crate::buffer::LogicalBuffer;
use crate::buffer::backspace_spec;
use crate::buffer::commit_spec;
use crate::buffer::insert_spec;
use crate::buffer::join_last;
use crate::buffer::move_cursor_spec;
use crate::buffer::replace_input_spec;
use crate::buffer::resize_spec;
use crate::cursor::locate;
use crate::cursor::locate_spec;
use crate::recall::RecallHistory;
use crate::recall::RecallView;
use crate::recall::record_spec;
use crate::recall::recall_next_spec;
use crate::recall::recall_previous_spec;
use crate::reflow::reflow_spec;
use crate::text::char_to_string;
use crate::text::str_eq;
use crate::text::views;
use crate::viewport::select;
use crate::viewport::window_start;

verus! {

/// The discrete events the shell consumes. `Resized` carries the new grid
/// size in character cells.
#[derive(Copy, Clone, Debug)]
pub enum Event {
    Resized(u32, u32),
    ReceivedCharacter(char),
    Backspace,
    Enter,
    Left,
    Right,
    Previous,
    Next,
    Release,
}

/// The mathematical value of a `Shell`.
pub ghost struct ShellView {
    pub buffer: BufferView,
    pub recall: RecallView,
    pub blink: BlinkView,
    /// Rows the viewport can display.
    pub capacity: nat,
}

impl ShellView {
    /// The buffer's cursor and the recall pointer stay in bounds.
    pub open spec fn wf(self) -> bool {
        self.buffer.wf() && self.recall.wf()
    }
}

/// What one event does to the shell state. Every edit or navigation keypress
/// also forces the cursor visible; a key release arms the blink trigger; a
/// resize only updates the grid metadata.
pub open spec fn shell_step(v: ShellView, event: Event) -> ShellView {
    match event {
        Event::Resized(w, h) => ShellView {
            buffer: resize_spec(v.buffer, w as nat),
            capacity: h as nat,
            ..v
        },
        Event::ReceivedCharacter(c) => ShellView {
            buffer: insert_spec(v.buffer, c),
            blink: press_spec(v.blink),
            ..v
        },
        Event::Backspace => ShellView {
            buffer: backspace_spec(v.buffer),
            blink: press_spec(v.blink),
            ..v
        },
        Event::Enter => ShellView {
            buffer: commit_spec(v.buffer),
            recall: record_spec(v.recall, v.buffer.input),
            blink: press_spec(v.blink),
            ..v
        },
        Event::Left => ShellView {
            buffer: move_cursor_spec(v.buffer, -1),
            blink: press_spec(v.blink),
            ..v
        },
        Event::Right => ShellView {
            buffer: move_cursor_spec(v.buffer, 1),
            blink: press_spec(v.blink),
            ..v
        },
        Event::Previous => {
            let stepped = ShellView { recall: recall_previous_spec(v.recall), blink: press_spec(v.blink), ..v };
            if v.recall.pointer == 0 {
                stepped
            } else {
                ShellView {
                    buffer: replace_input_spec(v.buffer, v.recall.entries[v.recall.pointer - 1]),
                    ..stepped
                }
            }
        },
        Event::Next => {
            let stepped = ShellView { recall: recall_next_spec(v.recall), blink: press_spec(v.blink), ..v };
            if v.recall.entries.len() == 0 || v.recall.pointer + 1 >= v.recall.entries.len() {
                stepped
            } else {
                ShellView {
                    buffer: replace_input_spec(v.buffer, v.recall.entries[v.recall.pointer as int + 1]),
                    ..stepped
                }
            }
        },
        Event::Release => ShellView { blink: release_spec(v.blink), ..v },
    }
}

/// The state after a whole sequence of events, first event first.
pub open spec fn apply_events(v: ShellView, events: Seq<Event>) -> ShellView
    decreases events.len(),
{
    if events.len() == 0 {
        v
    } else {
        apply_events(shell_step(v, events[0]), events.skip(1))
    }
}

/// One event keeps the shell well-formed.
pub proof fn lemma_step_preserves_wf(v: ShellView, event: Event)
    requires
        v.wf(),
    ensures
        shell_step(v, event).wf(),
{
}

/// Across any sequence of events — inserts, backspaces, cursor moves,
/// commits, recalls, resizes — the edit cursor's offset stays within
/// `[0, input length]` and the recall pointer within `[0, entry count]` at
/// every step.
pub proof fn lemma_events_preserve_wf(v: ShellView, events: Seq<Event>)
    requires
        v.wf(),
    ensures
        apply_events(v, events).wf(),
        apply_events(v, events).buffer.cursor <= apply_events(v, events).buffer.input.len(),
    decreases events.len(),
{
    if events.len() > 0 {
        lemma_step_preserves_wf(v, events[0]);
        lemma_events_preserve_wf(shell_step(v, events[0]), events.skip(1));
    }
}

/// Whitespace for the purposes of command-line splitting.
pub open spec fn is_ws(c: char) -> bool {
    c == ' ' || c == '\t' || c == '\n' || c == '\r'
}

/// Splitting into whitespace-separated words, scanning left to right with
/// the word collected so far in `cur`.
pub open spec fn tokens_acc(s: Seq<char>, cur: Seq<char>) -> Seq<Seq<char>>
    decreases s.len(),
{
    if s.len() == 0 {
        if cur.len() == 0 {
            Seq::empty()
        } else {
            seq![cur]
        }
    } else if is_ws(s[0]) {
        if cur.len() == 0 {
            tokens_acc(s.skip(1), Seq::empty())
        } else {
            seq![cur] + tokens_acc(s.skip(1), Seq::empty())
        }
    } else {
        tokens_acc(s.skip(1), cur.push(s[0]))
    }
}

/// The whitespace-separated words of a command line, in order, without any
/// empty words.
pub open spec fn tokens(s: Seq<char>) -> Seq<Seq<char>> {
    tokens_acc(s, Seq::empty())
}

/// The arguments joined for `echo`: every argument followed by one space.
pub open spec fn join_args(args: Seq<Seq<char>>) -> Seq<char>
    decreases args.len(),
{
    if args.len() == 0 {
        Seq::empty()
    } else {
        args[0] + seq![' '] + join_args(args.skip(1))
    }
}

/// The prompt that opens every fresh input line.
pub open spec fn prompt_text() -> Seq<char> {
    "user:/$ "@
}

/// The fixed listing printed by the `ls` built-in.
pub open spec fn ls_text() -> Seq<char> {
    "bin    dev    usr\n"@
}

/// The output of a command line that the shell resolves itself: a blank
/// line yields just a fresh prompt, `echo` yields its arguments re-joined
/// with single spaces, `ls` yields a fixed listing. Anything else is `None`:
/// it belongs to the external interpreter.
pub open spec fn process_cmd_spec(input: Seq<char>) -> Option<Seq<Seq<char>>> {
    let ts = tokens(input);
    if ts.len() == 0 {
        Some(seq![prompt_text()])
    } else if ts[0] == "echo"@ {
        Some(seq![join_args(ts.skip(1)), prompt_text()])
    } else if ts[0] == "ls"@ {
        Some(seq![ls_text(), prompt_text()])
    } else {
        None
    }
}

/// Whitespace test matching `is_ws`.
fn is_ws_char(c: char) -> (r: bool)
    ensures
        r == is_ws(c),
{
    c == ' ' || c == '\t' || c == '\n' || c == '\r'
}

/// Split a command line into its whitespace-separated words.
pub fn tokenize(input: &str) -> (toks: Vec<String>)
    ensures
        views(toks@) == tokens(input@),
{
    let n: usize = input.unicode_len();
    let mut toks: Vec<String> = Vec::new();
    let mut cur = String::new();
    let mut i: usize = 0;
    proof {
        assert(input@.skip(0) =~= input@);
        assert(views(toks@) =~= Seq::<Seq<char>>::empty());
        assert(Seq::<Seq<char>>::empty() + tokens_acc(input@, Seq::empty()) =~= tokens_acc(
            input@,
            Seq::empty(),
        ));
    }
    while i < n
        invariant
            i <= n,
            n == input@.len(),
            tokens(input@) == views(toks@) + tokens_acc(input@.skip(i as int), cur@),
        decreases n - i,
    {
        let c = input.get_char(i);
        let ghost rest = input@.skip(i as int);
        proof {
            assert(rest[0] == input@[i as int]);
            assert(rest.skip(1) =~= input@.skip(i + 1));
        }
        if is_ws_char(c) {
            if cur.as_str().unicode_len() > 0 {
                let ghost toks_before = toks@;
                let ghost word = cur@;
                toks.push(cur);
                cur = String::new();
                proof {
                    assert(tokens_acc(rest, word) == seq![word] + tokens_acc(
                        input@.skip(i + 1),
                        Seq::<char>::empty(),
                    ));
                    assert(views(toks@) =~= views(toks_before).push(word));
                    assert(views(toks_before) + (seq![word] + tokens_acc(
                        input@.skip(i + 1),
                        Seq::<char>::empty(),
                    )) =~= views(toks@) + tokens_acc(input@.skip(i + 1), cur@));
                }
            } else {
                proof {
                    assert(cur@ =~= Seq::<char>::empty());
                    assert(tokens_acc(rest, cur@) == tokens_acc(input@.skip(i + 1), cur@));
                }
            }
        } else {
            let ghost cur_before = cur@;
            let cs = char_to_string(c);
            cur.append(cs.as_str());
            proof {
                assert(cur@ =~= cur_before.push(c));
                assert(tokens_acc(rest, cur_before) == tokens_acc(input@.skip(i + 1), cur@));
            }
        }
        i = i + 1;
    }
    if cur.as_str().unicode_len() > 0 {
        let ghost toks_before = toks@;
        let ghost word = cur@;
        toks.push(cur);
        proof {
            assert(input@.skip(n as int) =~= Seq::<char>::empty());
            assert(views(toks@) =~= views(toks_before).push(word));
            assert(views(toks_before) + seq![word] =~= views(toks@));
        }
    } else {
        proof {
            assert(input@.skip(n as int) =~= Seq::<char>::empty());
            assert(views(toks@) + Seq::<Seq<char>>::empty() =~= views(toks@));
        }
    }
    toks
}

/// The prompt that opens every fresh input line.
pub fn prompt() -> (p: String)
    ensures
        p@ == prompt_text(),
{
    String::from_str("user:/$ ")
}

/// Join the prompt onto the last output line, so that it opens the next
/// input; a lone prompt line if there is no output at all.
pub fn append_prompt(lines: &mut Vec<String>)
    ensures
        views(final(lines)@) == join_last(views(old(lines)@), prompt_text()),
{
    let p = prompt();
    let last = lines.pop();
    match last {
        Some(mut line) => {
            line.append(p.as_str());
            lines.push(line);
            proof {
                assert(views(lines@) =~= join_last(views(old(lines)@), prompt_text()));
            }
        },
        None => {
            lines.push(p);
            proof {
                assert(views(lines@) =~= join_last(views(old(lines)@), prompt_text()));
            }
        },
    }
}

/// The shell state: logical buffer, recall log, blink state and viewport
/// capacity.
pub struct Shell {
    buffer: LogicalBuffer,
    recall: RecallHistory,
    blink: Blink,
    capacity: usize,
}

impl View for Shell {
    type V = ShellView;

    closed spec fn view(&self) -> ShellView {
        ShellView {
            buffer: self.buffer@,
            recall: self.recall@,
            blink: self.blink@,
            capacity: self.capacity as nat,
        }
    }
}

impl Shell {
    /// A fresh shell on a grid of the given size: a single prompt line, an
    /// empty input, an empty recall log, and a blinking cursor.
    pub fn new(width: usize, capacity: usize, now_ms: u64) -> (s: Shell)
        ensures
            s@.buffer.history == seq![prompt_text()],
            s@.buffer.input == Seq::<char>::empty(),
            s@.buffer.cursor == 0,
            s@.buffer.width == width as nat,
            s@.capacity == capacity as nat,
            s@.recall.entries == Seq::<Seq<char>>::empty(),
            s@.recall.pointer == 0,
            s@.blink.state == BlinkState::Blinking,
            s@.blink.last_press == now_ms as nat,
            s@.wf(),
    {
        let mut buffer = LogicalBuffer::new(width);
        let p = prompt();
        buffer.append(p.as_str());
        let s = Shell { buffer, recall: RecallHistory::new(), blink: Blink::new(now_ms), capacity };
        proof {
            assert(s@.buffer.history =~= seq![prompt_text()]);
        }
        s
    }

    /// Consume one event. On `Enter` the committed input line is handed
    /// back, for the caller to execute; every other event yields `None`.
    /// The two length bounds are machine limits only.
    pub fn handle_event(&mut self, event: Event) -> (committed: Option<String>)
        requires
            old(self)@.wf(),
            event is ReceivedCharacter ==> old(self)@.buffer.input.len() < usize::MAX,
            event is Enter ==> old(self)@.recall.entries.len() < usize::MAX,
        ensures
            final(self)@ == shell_step(old(self)@, event),
            final(self)@.wf(),
            match committed {
                Some(text) => event is Enter && text@ == old(self)@.buffer.input,
                None => !(event is Enter),
            },
    {
        match event {
            Event::Resized(w, h) => {
                self.buffer.resize(w as usize);
                self.capacity = h as usize;
                None
            },
            Event::ReceivedCharacter(c) => {
                self.buffer.insert(c);
                self.blink.press();
                None
            },
            Event::Backspace => {
                self.buffer.backspace();
                self.blink.press();
                None
            },
            Event::Enter => {
                let text = self.buffer.commit();
                let snapshot = text.clone();
                self.recall.record(text);
                self.blink.press();
                Some(snapshot)
            },
            Event::Left => {
                self.buffer.move_cursor(-1);
                self.blink.press();
                None
            },
            Event::Right => {
                self.buffer.move_cursor(1);
                self.blink.press();
                None
            },
            Event::Previous => {
                let line = self.recall.recall_previous();
                match line {
                    Some(l) => {
                        self.buffer.replace_input(l);
                    },
                    None => {},
                }
                self.blink.press();
                None
            },
            Event::Next => {
                let line = self.recall.recall_next();
                match line {
                    Some(l) => {
                        self.buffer.replace_input(l);
                    },
                    None => {},
                }
                self.blink.press();
                None
            },
            Event::Release => {
                self.blink.release();
                None
            },
        }
    }

    /// What the open line's history becomes once the executed command's
    /// output arrives: the first output line joins the open line, the rest
    /// follow as lines of their own, and the last of them is the new open
    /// line.
    pub open spec fn push_output_spec(h: Seq<Seq<char>>, lines: Seq<Seq<char>>) -> Seq<
        Seq<char>,
    > {
        if lines.len() == 0 {
            h
        } else {
            join_last(h, lines[0]) + lines.skip(1)
        }
    }

    /// Append the executed command's output lines to the history. Input,
    /// cursor, recall and blink are untouched.
    pub fn push_output(&mut self, lines: &Vec<String>)
        requires
            old(self)@.wf(),
        ensures
            final(self)@ == (ShellView {
                buffer: BufferView {
                    history: Self::push_output_spec(old(self)@.buffer.history, views(lines@)),
                    ..old(self)@.buffer
                },
                ..old(self)@
            }),
            final(self)@.wf(),
    {
        if lines.len() == 0 {
            return;
        }
        let ghost h0 = self@.buffer.history;
        let ghost ls = views(lines@);
        self.buffer.append(lines[0].as_str());
        proof {
            assert(ls[0] == lines@[0]@);
            assert(self@.buffer.history + ls.subrange(1, 1) =~= self@.buffer.history);
        }
        let mut k: usize = 1;
        while k < lines.len()
            invariant
                1 <= k <= lines@.len(),
                ls == views(lines@),
                self@.buffer.history == join_last(h0, ls[0]) + ls.subrange(1, k as int),
                self@.buffer.input == old(self)@.buffer.input,
                self@.buffer.cursor == old(self)@.buffer.cursor,
                self@.buffer.width == old(self)@.buffer.width,
                self@.recall == old(self)@.recall,
                self@.blink == old(self)@.blink,
                self@.capacity == old(self)@.capacity,
                h0 == old(self)@.buffer.history,
                old(self)@.wf(),
            decreases lines@.len() - k,
        {
            let ghost before = self@.buffer.history;
            self.buffer.newline();
            self.buffer.append(lines[k].as_str());
            proof {
                assert(Seq::<char>::empty() + lines@[k as int]@ =~= lines@[k as int]@);
                assert(join_last(before.push(Seq::empty()), lines@[k as int]@) =~= before.push(
                    lines@[k as int]@,
                ));
                assert(before.push(ls[k as int]) =~= join_last(h0, ls[0]) + ls.subrange(
                    1,
                    k + 1,
                ));
            }
            k = k + 1;
        }
        proof {
            assert(ls.subrange(1, ls.len() as int) =~= ls.skip(1));
        }
    }

    /// Resolve a command line the shell understands itself. `None` means the
    /// line belongs to the external interpreter; the caller then finishes
    /// the interpreter's output with `append_prompt` before pushing it.
    pub fn process_cmd(&self, input: &str) -> (output: Option<Vec<String>>)
        ensures
            match output {
                Some(lines) => process_cmd_spec(input@) == Some(views(lines@)),
                None => process_cmd_spec(input@) is None,
            },
    {
        let toks = tokenize(input);
        if toks.len() == 0 {
            let mut out: Vec<String> = Vec::new();
            out.push(prompt());
            proof {
                assert(views(out@) =~= seq![prompt_text()]);
            }
            return Some(out);
        }
        proof {
            assert(views(toks@)[0] == toks@[0]@);
        }
        if str_eq(toks[0].as_str(), "echo") {
            let mut line = String::new();
            let mut k: usize = 1;
            proof {
                assert(Seq::<char>::empty() + join_args(views(toks@).skip(1)) =~= join_args(
                    views(toks@).skip(1),
                ));
            }
            while k < toks.len()
                invariant
                    1 <= k <= toks@.len(),
                    line@ + join_args(views(toks@).skip(k as int)) == join_args(
                        views(toks@).skip(1),
                    ),
                decreases toks@.len() - k,
            {
                line.append(toks[k].as_str());
                line.append(" ");
                proof {
                    let vs = views(toks@);
                    assert(vs.skip(k as int)[0] == toks@[k as int]@);
                    assert(vs.skip(k as int).skip(1) =~= vs.skip(k + 1));
                    reveal_strlit(" ");
                    assert(" "@ =~= seq![' ']);
                    assert(line@ + join_args(vs.skip(k + 1)) =~= join_args(vs.skip(1)));
                }
                k = k + 1;
            }
            proof {
                let vs = views(toks@);
                assert(vs.skip(vs.len() as int) =~= Seq::<Seq<char>>::empty());
                assert(line@ + Seq::<char>::empty() =~= line@);
            }
            let mut out: Vec<String> = Vec::new();
            out.push(line);
            out.push(prompt());
            proof {
                assert(views(out@) =~= seq![join_args(views(toks@).skip(1)), prompt_text()]);
            }
            Some(out)
        } else if str_eq(toks[0].as_str(), "ls") {
            let mut out: Vec<String> = Vec::new();
            out.push(String::from_str("bin    dev    usr\n"));
            out.push(prompt());
            proof {
                assert(views(out@) =~= seq![ls_text(), prompt_text()]);
            }
            Some(out)
        } else {
            None
        }
    }

    /// The rows currently visible on the grid: the history with the live
    /// input joined onto its open line, reflowed to the grid width, windowed
    /// to the viewport's tail.
    pub fn display_rows(&self) -> (rows: Vec<String>)
        requires
            self@.wf(),
        ensures
            ({
                let full = reflow_spec(
                    join_last(self@.buffer.history, self@.buffer.input),
                    self@.buffer.width,
                );
                views(rows@) == full.skip(window_start(full.len(), self@.capacity))
            }),
    {
        let joined = crate::textdisplay::Buffer::new(
            self.buffer.history().clone(),
            self.buffer.input().as_str(),
        );
        let full = joined.fit_in_screen(self.buffer.width());
        let window = select(&full, self.capacity);
        proof {
            let full_spec = reflow_spec(
                join_last(self@.buffer.history, self@.buffer.input),
                self@.buffer.width,
            );
            assert(views(window@) =~= full_spec.skip(
                window_start(full_spec.len(), self@.capacity),
            ));
        }
        window
    }

    /// The cursor's `(column, row)` cell in the visible window. The bounds
    /// required are machine limits only.
    pub fn cursor_cell(&self) -> (cell: (usize, usize))
        requires
            self@.wf(),
            self@.buffer.width + self@.buffer.cursor <= usize::MAX,
            self@.capacity + self@.buffer.cursor <= usize::MAX,
        ensures
            cell.0 == locate_spec(
                self@.buffer.history,
                self@.buffer.cursor,
                self@.buffer.width,
                self@.capacity,
            ).0,
            cell.1 == locate_spec(
                self@.buffer.history,
                self@.buffer.cursor,
                self@.buffer.width,
                self@.capacity,
            ).1,
    {
        locate(self.buffer.history(), self.buffer.cursor_offset(), self.buffer.width(), self.capacity)
    }

    /// Decide whether the cursor is drawn at `now_ms` and advance the blink
    /// machine; nothing else changes.
    pub fn tick(&mut self, now_ms: u64) -> (shown: bool)
        requires
            old(self)@.wf(),
        ensures
            final(self)@ == (ShellView {
                blink: crate::blink::tick_spec(old(self)@.blink, now_ms as nat).0,
                ..old(self)@
            }),
            shown == crate::blink::tick_spec(old(self)@.blink, now_ms as nat).1,
            final(self)@.wf(),
    {
        self.blink.tick(now_ms)
    }

    /// The logical buffer: history, live input, cursor and width.
    pub fn buffer(&self) -> (b: &LogicalBuffer)
        ensures
            b@ == self@.buffer,
    {
        &self.buffer
    }

    /// The recall log.
    pub fn recall(&self) -> (r: &RecallHistory)
        ensures
            r@ == self@.recall,
    {
        &self.recall
    }

    /// The viewport's row capacity.
    pub fn capacity(&self) -> (c: usize)
        ensures
            c as nat == self@.capacity,
    {
        self.capacity
    }
}

} // verus!
