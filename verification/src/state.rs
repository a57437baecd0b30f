//! The events exchanged between the text field and the command processor,
//! and the tags of the components that exchange them.

use vstd::prelude::*;

verus! {

/// The two collaborating components.
#[derive(Debug, Clone)]
pub enum Component {
    TextField,
    Processor,
}

/// What the processor asks the text field to do.
#[derive(Debug, Clone)]
pub enum OutputEvent {
    /// Append text onto the open line.
    Print(String),
    /// The column where editable input starts on the open line.
    InputPos(u32),
    /// Open a fresh line.
    Newline,
}

/// What the text field reports to the processor.
#[derive(Debug, Clone)]
pub enum InputEvent {
    /// A line of user input was committed.
    UserText(String),
}

/// Either direction, as one event stream.
#[derive(Debug, Clone)]
pub enum Event {
    OutputEvent(OutputEvent),
    InputEvent(InputEvent),
}

} // verus!
