//! What the display model asks a display to do: text and filled rectangles.

use crate::label_text::LabelText;
use vstd::prelude::*;

verus! {

/// The colours in use. `Custom` holds the channels of a 5-6-5 bit colour.
#[derive(Clone, Copy, Debug, PartialEq, Eq, Structural)]
pub enum Color {
    Black,
    White,
    Red,
    Green,
    Cyan,
    Magenta,
    Custom { red: u8, green: u8, blue: u8 },
}

/// The two fonts in use, named by the size of a glyph in pixels.
#[derive(Clone, Copy, Debug, PartialEq, Eq, Structural)]
pub enum Font {
    Font12x16,
    Font24x32,
}

/// One call on the display.
#[derive(Debug)]
pub enum DrawCommand {
    /// Text whose top left corner is at `(x, y)`.
    Text { text: LabelText, x: i32, y: i32, font: Font, color: Color },
    /// A filled rectangle from its top left to its bottom right corner.
    Fill { left: i32, top: i32, right: i32, bottom: i32, color: Color },
}

/// A draw command as a value of the model.
pub enum Drawing {
    Text { text: Seq<char>, x: int, y: int, font: Font, color: Color },
    Fill { left: int, top: int, right: int, bottom: int, color: Color },
}

impl View for DrawCommand {
    type V = Drawing;

    open spec fn view(&self) -> Drawing {
        match *self {
            DrawCommand::Text { text, x, y, font, color } => Drawing::Text {
                text: text@,
                x: x as int,
                y: y as int,
                font,
                color,
            },
            DrawCommand::Fill { left, top, right, bottom, color } => Drawing::Fill {
                left: left as int,
                top: top as int,
                right: right as int,
                bottom: bottom as int,
                color,
            },
        }
    }
}

/// The drawings a list of commands stands for, in order.
pub open spec fn drawings(commands: Seq<DrawCommand>) -> Seq<Drawing> {
    commands.map_values(|command: DrawCommand| command@)
}

/// Appending a command appends its drawing.
pub proof fn lemma_drawings_push(commands: Seq<DrawCommand>, command: DrawCommand)
    ensures
        drawings(commands.push(command)) == drawings(commands).push(command@),
{
    assert(drawings(commands.push(command)) =~= drawings(commands).push(command@));
}

} // verus!
