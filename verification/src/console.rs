//! The console model and its operations.
//!
//! [`ConsoleState`] stands for everything of the console that the adapter's
//! operations touch: the screen buffer with its cursor, the output mode and
//! code pages, the input queue, and the transcript of writes that reached
//! the output stream. Each operation says in its contract exactly when it
//! succeeds and what it does to the console; an unverified shell replays the
//! operations against the real console of the operating system.

use vstd::prelude::*;

use crate::input::{
    decode_key_events, decoded_chars, injected_record, make_injected_record, InputRecord,
    INPUT_BUFFER_LEN,
};
use crate::screen::{Cell, ConsoleError, ScreenPosition, WriteOp, WriteView};

verus! {

/// The console-mode flag that makes the console interpret ANSI/VT escape
/// sequences in written text.
pub const ENABLE_VIRTUAL_TERMINAL_PROCESSING: u32 = 0x0004;

/// The identifier of the UTF-8 code page.
pub const UTF8_CODE_PAGE: u32 = 65001;

/// The identifier of the OEM United States code page, a common console
/// default before UTF-8 is selected.
pub const DEFAULT_CODE_PAGE: u32 = 437;

/// The mathematical value of a [`ConsoleState`].
#[verifier::ext_equal]
pub struct ConsoleView {
    /// Whether the standard output handle can be obtained.
    pub out_handle_valid: bool,
    /// Whether the standard input handle can be obtained.
    pub in_handle_valid: bool,
    /// Whether standard output is attached to a console screen buffer.
    pub out_is_console: bool,
    /// Whether standard input is attached to a console input queue.
    pub in_is_console: bool,
    /// Whether the console supports switching to the UTF-8 code page.
    pub utf8_supported: bool,
    /// The width of the screen buffer in columns.
    pub width: i16,
    /// The height of the screen buffer in rows.
    pub height: i16,
    /// Where the cursor stands.
    pub cursor: ScreenPosition,
    /// The display attribute currently in effect.
    pub attributes: u16,
    /// The console output mode flags.
    pub mode: u32,
    /// The code page used for output.
    pub output_code_page: u32,
    /// The code page used for input.
    pub input_code_page: u32,
    /// The cells of the screen buffer, row by row.
    pub cells: Seq<Cell>,
    /// The input records waiting to be read.
    pub pending_input: Seq<InputRecord>,
    /// Every write that reached the output stream, oldest first.
    pub written: Seq<WriteView>,
}

impl ConsoleView {
    /// A well-formed console: the buffer has at least one column and one
    /// row, the cursor stands inside it, and there is one cell per
    /// coordinate pair.
    pub open spec fn wf(self) -> bool {
        &&& 0 < self.width
        &&& 0 < self.height
        &&& 0 <= self.cursor.x < self.width
        &&& 0 <= self.cursor.y < self.height
        &&& self.cells.len() == self.width * self.height
    }

    /// Operations on the screen buffer need the output handle and a real
    /// console behind it.
    pub open spec fn output_ready(self) -> bool {
        self.out_handle_valid && self.out_is_console
    }

    /// Reading input needs the input handle and a real console behind it.
    pub open spec fn input_ready(self) -> bool {
        self.in_handle_valid && self.in_is_console
    }

    /// Whether a coordinate pair lies inside the screen buffer.
    pub open spec fn in_bounds(self, x: i16, y: i16) -> bool {
        0 <= x < self.width && 0 <= y < self.height
    }

    /// The console with its cursor moved.
    pub open spec fn with_cursor(self, x: i16, y: i16) -> ConsoleView {
        ConsoleView { cursor: ScreenPosition { x, y }, ..self }
    }

    /// The console after text was written at the cursor and flushed: the
    /// write is recorded at the end of the transcript.
    pub open spec fn flushed_write(self, text: Seq<char>) -> ConsoleView {
        ConsoleView {
            written: self.written.push(
                WriteView { x: self.cursor.x, y: self.cursor.y, text },
            ),
            ..self
        }
    }

    /// A cell holding a space character with the current display attribute.
    pub open spec fn blank_cell(self) -> Cell {
        Cell { ch: ' ', attr: self.attributes }
    }

    /// The console after a clear: every cell blank, cursor at the origin.
    pub open spec fn cleared(self) -> ConsoleView {
        ConsoleView {
            cells: Seq::new(self.cells.len(), |i: int| self.blank_cell()),
            cursor: ScreenPosition { x: 0, y: 0 },
            ..self
        }
    }

    /// The console after virtual-terminal processing was requested: on a
    /// real console the mode gains the flag, on anything else nothing
    /// changes.
    pub open spec fn vt_enabled(self) -> ConsoleView {
        if self.out_is_console {
            ConsoleView { mode: self.mode | ENABLE_VIRTUAL_TERMINAL_PROCESSING, ..self }
        } else {
            self
        }
    }

    /// The console after both code pages were switched to UTF-8.
    pub open spec fn utf8_applied(self) -> ConsoleView {
        ConsoleView {
            output_code_page: UTF8_CODE_PAGE,
            input_code_page: UTF8_CODE_PAGE,
            ..self
        }
    }

    /// The input queue at the moment of a read, after the adapter injected
    /// its own key-down record at the back.
    pub open spec fn injected_queue(self) -> Seq<InputRecord> {
        self.pending_input.push(injected_record())
    }

    /// How many records one read drains: everything that waits, up to the
    /// size of the read buffer. At least one, since a record was injected.
    pub open spec fn read_batch_len(self) -> int {
        vstd::math::min(INPUT_BUFFER_LEN as int, self.injected_queue().len() as int)
    }

    /// The characters a read returns: the drained batch decoded, except its
    /// last record.
    pub open spec fn read_chars(self) -> Seq<char> {
        decoded_chars(self.injected_queue().take(self.read_batch_len() - 1))
    }

    /// The console after a read: the drained records have left the queue.
    pub open spec fn input_drained(self) -> ConsoleView {
        ConsoleView {
            pending_input: self.injected_queue().skip(self.read_batch_len()),
            ..self
        }
    }
}

/// A console, with the screen buffer of its output stream and the queue of
/// its input stream.
pub struct ConsoleState {
    pub out_handle_valid: bool,
    pub in_handle_valid: bool,
    pub out_is_console: bool,
    pub in_is_console: bool,
    pub utf8_supported: bool,
    pub width: i16,
    pub height: i16,
    pub cursor: ScreenPosition,
    pub attributes: u16,
    pub mode: u32,
    pub output_code_page: u32,
    pub input_code_page: u32,
    pub cells: Vec<Cell>,
    pub pending_input: Vec<InputRecord>,
    pub written: Vec<WriteOp>,
}

impl View for ConsoleState {
    type V = ConsoleView;

    open spec fn view(&self) -> ConsoleView {
        ConsoleView {
            out_handle_valid: self.out_handle_valid,
            in_handle_valid: self.in_handle_valid,
            out_is_console: self.out_is_console,
            in_is_console: self.in_is_console,
            utf8_supported: self.utf8_supported,
            width: self.width,
            height: self.height,
            cursor: self.cursor,
            attributes: self.attributes,
            mode: self.mode,
            output_code_page: self.output_code_page,
            input_code_page: self.input_code_page,
            cells: self.cells@,
            pending_input: self.pending_input@,
            written: self.written@.map_values(|w: WriteOp| w@),
        }
    }
}

impl ConsoleState {
    /// The view of a console fresh from [`ConsoleState::new`]: an
    /// interactive console of the given size, blank, with the cursor at the
    /// origin and the default code pages.
    pub open spec fn initial(width: i16, height: i16, attributes: u16) -> ConsoleView {
        ConsoleView {
            out_handle_valid: true,
            in_handle_valid: true,
            out_is_console: true,
            in_is_console: true,
            utf8_supported: true,
            width,
            height,
            cursor: ScreenPosition { x: 0, y: 0 },
            attributes,
            mode: 0,
            output_code_page: DEFAULT_CODE_PAGE,
            input_code_page: DEFAULT_CODE_PAGE,
            cells: Seq::new((width * height) as nat, |i: int| Cell { ch: ' ', attr: attributes }),
            pending_input: Seq::empty(),
            written: Seq::empty(),
        }
    }

    /// A fresh interactive console of the given size: blank cells, cursor
    /// at the origin, no pending input, nothing written yet.
    pub fn new(width: i16, height: i16, attributes: u16) -> (s: ConsoleState)
        requires
            0 < width,
            0 < height,
        ensures
            s@ == Self::initial(width, height, attributes),
            s@.wf(),
    {
        proof {
            assert(width * height <= 32767 * 32767) by (nonlinear_arith)
                requires 0 < width < 32768 && 0 < height < 32768;
            assert(0 < width * height) by (nonlinear_arith)
                requires 0 < width && 0 < height;
        }
        let total: usize = (width as usize) * (height as usize);
        let blank = Cell { ch: ' ', attr: attributes };
        let mut cells: Vec<Cell> = Vec::new();
        while cells.len() < total
            invariant
                cells@.len() <= total,
                forall|i: int| 0 <= i < cells@.len() ==> cells@[i] == blank,
            decreases total - cells@.len(),
        {
            cells.push(blank);
        }
        let s = ConsoleState {
            out_handle_valid: true,
            in_handle_valid: true,
            out_is_console: true,
            in_is_console: true,
            utf8_supported: true,
            width,
            height,
            cursor: ScreenPosition { x: 0, y: 0 },
            attributes,
            mode: 0,
            output_code_page: DEFAULT_CODE_PAGE,
            input_code_page: DEFAULT_CODE_PAGE,
            cells,
            pending_input: Vec::new(),
            written: Vec::new(),
        };
        proof {
            assert(s@ =~= Self::initial(width, height, attributes));
        }
        s
    }

    /// Queries the cursor position of the screen buffer. The only operation
    /// whose failure the unverified shell reports to its caller instead of
    /// aborting.
    pub fn get_cursor(&self) -> (r: Result<ScreenPosition, ConsoleError>)
        ensures
            r is Ok <==> self@.output_ready(),
            r matches Ok(p) ==> p == self@.cursor,
            !self@.out_handle_valid ==> r == Err::<ScreenPosition, ConsoleError>(
                ConsoleError::InvalidHandle,
            ),
            self@.out_handle_valid && !self@.out_is_console ==> r
                == Err::<ScreenPosition, ConsoleError>(ConsoleError::NotAConsole),
    {
        if !self.out_handle_valid {
            return Err(ConsoleError::InvalidHandle);
        }
        if !self.out_is_console {
            return Err(ConsoleError::NotAConsole);
        }
        Ok(self.cursor)
    }

    /// Moves the cursor to the given coordinates. Fails on an unavailable
    /// handle, on a stream that is no console, and on coordinates outside
    /// the screen buffer; the unverified shell aborts the process on any of
    /// these.
    pub fn set_cursor(&mut self, x: i16, y: i16) -> (r: Result<(), ConsoleError>)
        requires
            old(self)@.wf(),
        ensures
            final(self)@.wf(),
            r is Ok <==> old(self)@.output_ready() && old(self)@.in_bounds(x, y),
            r is Ok ==> final(self)@ == old(self)@.with_cursor(x, y),
            r is Err ==> final(self)@ == old(self)@,
            !old(self)@.out_handle_valid ==> r == Err::<(), ConsoleError>(
                ConsoleError::InvalidHandle,
            ),
            old(self)@.out_handle_valid && !old(self)@.out_is_console ==> r == Err::<
                (),
                ConsoleError,
            >(ConsoleError::NotAConsole),
            old(self)@.output_ready() && !old(self)@.in_bounds(x, y) ==> r == Err::<
                (),
                ConsoleError,
            >(ConsoleError::OutOfBounds),
    {
        if !self.out_handle_valid {
            return Err(ConsoleError::InvalidHandle);
        }
        if !self.out_is_console {
            return Err(ConsoleError::NotAConsole);
        }
        if x < 0 || x >= self.width || y < 0 || y >= self.height {
            return Err(ConsoleError::OutOfBounds);
        }
        self.cursor = ScreenPosition { x, y };
        proof {
            assert(self@ =~= old(self)@.with_cursor(x, y));
        }
        Ok(())
    }

    /// Moves the cursor to the given coordinates, writes the text there and
    /// flushes the output stream, so the write is on record when the call
    /// returns. Fails exactly as [`ConsoleState::set_cursor`] does; the
    /// unverified shell aborts the process on any failure.
    pub fn update_screen(&mut self, x: i16, y: i16, c: String) -> (r: Result<(), ConsoleError>)
        requires
            old(self)@.wf(),
        ensures
            final(self)@.wf(),
            r is Ok <==> old(self)@.output_ready() && old(self)@.in_bounds(x, y),
            r is Ok ==> final(self)@ == old(self)@.with_cursor(x, y).flushed_write(c@),
            r is Err ==> final(self)@ == old(self)@,
            !old(self)@.out_handle_valid ==> r == Err::<(), ConsoleError>(
                ConsoleError::InvalidHandle,
            ),
            old(self)@.out_handle_valid && !old(self)@.out_is_console ==> r == Err::<
                (),
                ConsoleError,
            >(ConsoleError::NotAConsole),
            old(self)@.output_ready() && !old(self)@.in_bounds(x, y) ==> r == Err::<
                (),
                ConsoleError,
            >(ConsoleError::OutOfBounds),
    {
        match self.set_cursor(x, y) {
            Err(e) => Err(e),
            Ok(()) => {
                let op = WriteOp { x, y, text: c };
                self.written.push(op);
                proof {
                    assert(self@.written =~= old(self)@.with_cursor(x, y).flushed_write(
                        c@,
                    ).written);
                    assert(self@ =~= old(self)@.with_cursor(x, y).flushed_write(c@));
                }
                Ok(())
            },
        }
    }

    /// How many cells the screen buffer holds: its width times its height,
    /// as the console reports them.
    pub fn cell_count(&self) -> (n: u32)
        requires
            self@.wf(),
        ensures
            n == self@.width * self@.height,
            n == self@.cells.len(),
    {
        proof {
            assert(0 <= self@.width * self@.height <= u32::MAX) by (nonlinear_arith)
                requires 0 < self@.width < 32768 && 0 < self@.height < 32768;
        }
        (self.width as u32) * (self.height as u32)
    }

    /// Fills every cell of the screen buffer with a space character shown
    /// with the current display attribute, and puts the cursor back at the
    /// origin. Fails on an unavailable handle and on a stream that is no
    /// console; the unverified shell aborts the process on either.
    pub fn clear_console_windows(&mut self) -> (r: Result<(), ConsoleError>)
        requires
            old(self)@.wf(),
        ensures
            final(self)@.wf(),
            r is Ok <==> old(self)@.output_ready(),
            r is Ok ==> final(self)@ == old(self)@.cleared(),
            r is Err ==> final(self)@ == old(self)@,
            !old(self)@.out_handle_valid ==> r == Err::<(), ConsoleError>(
                ConsoleError::InvalidHandle,
            ),
            old(self)@.out_handle_valid && !old(self)@.out_is_console ==> r == Err::<
                (),
                ConsoleError,
            >(ConsoleError::NotAConsole),
    {
        if !self.out_handle_valid {
            return Err(ConsoleError::InvalidHandle);
        }
        if !self.out_is_console {
            return Err(ConsoleError::NotAConsole);
        }
        let console_size = self.cell_count();
        let blank = Cell { ch: ' ', attr: self.attributes };
        let mut cells: Vec<Cell> = Vec::new();
        while cells.len() < console_size as usize
            invariant
                cells@.len() <= console_size,
                forall|i: int| 0 <= i < cells@.len() ==> cells@[i] == blank,
            decreases console_size - cells@.len(),
        {
            cells.push(blank);
        }
        self.cells = cells;
        self.cursor = ScreenPosition { x: 0, y: 0 };
        proof {
            assert(self@.cells =~= old(self)@.cleared().cells);
            assert(self@ =~= old(self)@.cleared());
        }
        Ok(())
    }

    /// Switches the input and the output code page of the console to UTF-8.
    /// Fails when the console does not support that code page; the
    /// unverified shell aborts the process then.
    pub fn set_console_utf8(&mut self) -> (r: Result<(), ConsoleError>)
        ensures
            r is Ok <==> old(self)@.utf8_supported,
            r is Ok ==> final(self)@ == old(self)@.utf8_applied(),
            r is Err ==> final(self)@ == old(self)@ && r == Err::<(), ConsoleError>(
                ConsoleError::UnsupportedCodePage,
            ),
            old(self)@.wf() ==> final(self)@.wf(),
    {
        if !self.utf8_supported {
            return Err(ConsoleError::UnsupportedCodePage);
        }
        self.output_code_page = UTF8_CODE_PAGE;
        self.input_code_page = UTF8_CODE_PAGE;
        proof {
            assert(self@ =~= old(self)@.utf8_applied());
        }
        Ok(())
    }

    /// Turns on the interpretation of ANSI/VT escape sequences for the
    /// output stream. Best effort: on a stream that is no console (say,
    /// output redirected to a file) it changes nothing and still succeeds.
    /// Only an unavailable handle is an error; the unverified shell aborts
    /// the process on it.
    pub fn enable_virtual_terminal_processing(&mut self) -> (r: Result<(), ConsoleError>)
        ensures
            r is Ok <==> old(self)@.out_handle_valid,
            r is Ok ==> final(self)@ == old(self)@.vt_enabled(),
            r is Err ==> final(self)@ == old(self)@ && r == Err::<(), ConsoleError>(
                ConsoleError::InvalidHandle,
            ),
            old(self)@.wf() ==> final(self)@.wf(),
    {
        if !self.out_handle_valid {
            return Err(ConsoleError::InvalidHandle);
        }
        if !self.out_is_console {
            // The mode query fails off a real console: silently do nothing.
            return Ok(());
        }
        self.mode = self.mode | ENABLE_VIRTUAL_TERMINAL_PROCESSING;
        proof {
            assert(self@ =~= old(self)@.vt_enabled());
        }
        Ok(())
    }

    /// Reads one batch of input records and decodes it to text. To keep the
    /// read from blocking, the adapter first injects one key-down record of
    /// its own at the back of the queue; the batch is everything that then
    /// waits, up to the size of the read buffer, and its last record is left
    /// out of the result. Fails on an unavailable handle and on a stream
    /// that is no console; the unverified shell aborts the process on either.
    pub fn get_user_input(&mut self) -> (r: Result<String, ConsoleError>)
        ensures
            r is Ok <==> old(self)@.input_ready(),
            r matches Ok(s) ==> s@ == old(self)@.read_chars() && final(self)@ == old(
                self,
            )@.input_drained(),
            r is Err ==> final(self)@ == old(self)@,
            !old(self)@.in_handle_valid ==> r == Err::<String, ConsoleError>(
                ConsoleError::InvalidHandle,
            ),
            old(self)@.in_handle_valid && !old(self)@.in_is_console ==> r == Err::<
                String,
                ConsoleError,
            >(ConsoleError::NotAConsole),
            old(self)@.wf() ==> final(self)@.wf(),
    {
        if !self.in_handle_valid {
            return Err(ConsoleError::InvalidHandle);
        }
        if !self.in_is_console {
            return Err(ConsoleError::NotAConsole);
        }
        self.pending_input.push(make_injected_record());
        let queue_len = self.pending_input.len();
        let read_count = if queue_len > INPUT_BUFFER_LEN {
            INPUT_BUFFER_LEN
        } else {
            queue_len
        };
        let s = decode_key_events(&self.pending_input, read_count);
        let ghost queue = self.pending_input@;
        let mut remaining: Vec<InputRecord> = Vec::new();
        let mut i: usize = read_count;
        while i < queue_len
            invariant
                read_count <= i <= queue_len,
                queue_len == queue.len(),
                self.pending_input@ == queue,
                remaining@ =~= queue.subrange(read_count as int, i as int),
            decreases queue_len - i,
        {
            let record = self.pending_input[i];
            remaining.push(record);
            i = i + 1;
        }
        self.pending_input = remaining;
        proof {
            assert(queue == old(self)@.injected_queue());
            assert(read_count as int == old(self)@.read_batch_len());
            assert(self.pending_input@ =~= queue.skip(read_count as int));
            assert(self@ =~= old(self)@.input_drained());
        }
        Ok(s)
    }
}

} // verus!
