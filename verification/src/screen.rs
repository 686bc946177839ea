//! The screen-buffer side of the console model: cursor position and errors.

use vstd::prelude::*;

verus! {

/// A cursor position inside the console screen buffer: `x` is the column and
/// `y` is the row, both zero-based. The console API measures both as signed
/// 16-bit quantities; a position is meaningful only when both are
/// non-negative and inside the buffer.
#[derive(Clone, Copy, Debug, PartialEq, Eq, Structural)]
pub struct ScreenPosition {
    pub x: i16,
    pub y: i16,
}

/// How a console operation can fail. The unverified shell that talks to the
/// real console decides per operation whether such a failure aborts the
/// process, is returned to its caller, or is swallowed.
#[derive(Clone, Copy, Debug, PartialEq, Eq, Structural)]
pub enum ConsoleError {
    /// The standard stream handle could not be obtained.
    InvalidHandle,
    /// The stream exists but is not attached to a console screen buffer
    /// (for example, it is redirected to a file).
    NotAConsole,
    /// A requested coordinate lies outside the screen buffer.
    OutOfBounds,
    /// The console does not support the requested code page.
    UnsupportedCodePage,
}

/// One cell of the screen buffer: the character shown there and the display
/// attribute (colour pair) it is shown with.
#[derive(Clone, Copy, Debug, PartialEq, Eq, Structural)]
pub struct Cell {
    pub ch: char,
    pub attr: u16,
}

/// One write that reached the output stream: the text and the cursor
/// position it was written at.
#[derive(Debug)]
pub struct WriteOp {
    pub x: i16,
    pub y: i16,
    pub text: String,
}

/// The mathematical value of a [`WriteOp`].
pub struct WriteView {
    pub x: i16,
    pub y: i16,
    pub text: Seq<char>,
}

impl View for WriteOp {
    type V = WriteView;

    open spec fn view(&self) -> WriteView {
        WriteView { x: self.x, y: self.y, text: self.text@ }
    }
}

} // verus!
