//! The display-side buffer: the committed history with the live input
//! joined onto its open line, ready to be reflowed, plus the grid geometry
//! derived from pixel sizes.

use vstd::prelude::*;
use vstd::string::StringExecFns;
use crate::buffer::join_last;
use crate::reflow::reflow;
use crate::reflow::reflow_spec;
use crate::text::views;

verus! {

/// The logical lines to draw: history with the live input absorbed into the
/// open line, for display only. Never stored across updates; rebuilt from
/// the logical buffer after every mutation.
#[derive(Debug)]
pub struct Buffer {
    content: Vec<String>,
}

impl View for Buffer {
    type V = Seq<Seq<char>>;

    closed spec fn view(&self) -> Seq<Seq<char>> {
        views(self.content@)
    }
}

impl Buffer {
    /// Join the live input onto the last history line; a history of its own
    /// if there is none.
    pub fn new(history: Vec<String>, input: &str) -> (b: Buffer)
        ensures
            b@ == join_last(views(history@), input@),
    {
        let mut content = history;
        let last = content.pop();
        match last {
            Some(mut line) => {
                line.append(input);
                content.push(line);
                proof {
                    assert(views(content@) =~= join_last(views(history@), input@));
                }
            },
            None => {
                let mut line = String::new();
                line.append(input);
                content.push(line);
                proof {
                    assert(Seq::<char>::empty() + input@ =~= input@);
                    assert(views(content@) =~= join_last(views(history@), input@));
                }
            },
        }
        Buffer { content }
    }

    /// The display rows of this content on a grid of the given width: each
    /// line split into chunks of at most `line_width` characters; one
    /// unchanged row per line when the width is zero.
    pub fn fit_in_screen(&self, line_width: usize) -> (rows: Vec<String>)
        ensures
            views(rows@) == reflow_spec(self@, line_width as nat),
    {
        reflow(&self.content, line_width)
    }

    /// The logical lines held for display.
    pub fn content(&self) -> (lines: &Vec<String>)
        ensures
            views(lines@) == self@,
    {
        &self.content
    }
}

/// The character grid a pixel area offers when drawn with fixed-size glyphs:
/// cells per row and rows per screen.
pub fn grid_dims(width_px: u32, height_px: u32, glyph_w: u32, glyph_h: u32) -> (dims: (
    usize,
    usize,
))
    requires
        glyph_w > 0,
        glyph_h > 0,
    ensures
        dims.0 as nat == width_px as nat / glyph_w as nat,
        dims.1 as nat == height_px as nat / glyph_h as nat,
{
    ((width_px / glyph_w) as usize, (height_px / glyph_h) as usize)
}

} // verus!
