//! Laws of the console model: what holds of every console, not just of the
//! examples the tests try.

use vstd::prelude::*;

use crate::console::{
    ConsoleView, ENABLE_VIRTUAL_TERMINAL_PROCESSING, UTF8_CODE_PAGE,
};
use crate::input::{decoded_chars, InputRecord, INPUT_BUFFER_LEN};
use crate::screen::{Cell, ScreenPosition, WriteView};

verus! {

/// Law: moving the cursor to coordinates inside the screen buffer and then
/// querying it returns exactly those coordinates, and the console stays
/// well-formed and ready for the query.
pub proof fn lemma_set_then_get_cursor(v: ConsoleView, x: i16, y: i16)
    requires
        v.wf(),
        v.output_ready(),
        v.in_bounds(x, y),
    ensures
        v.with_cursor(x, y).wf(),
        v.with_cursor(x, y).output_ready(),
        v.with_cursor(x, y).cursor == (ScreenPosition { x, y }),
{
}

/// Law: updating the screen records the write with the cursor already moved
/// to the requested coordinates, and flushes it at once: when the operation
/// returns, the write stands at the end of the output transcript, carrying
/// exactly the requested position and text.
pub proof fn lemma_update_screen_writes_at_cursor(v: ConsoleView, x: i16, y: i16, text: Seq<char>)
    requires
        v.wf(),
        v.output_ready(),
        v.in_bounds(x, y),
    ensures
        v.with_cursor(x, y).flushed_write(text).cursor == (ScreenPosition { x, y }),
        v.with_cursor(x, y).flushed_write(text).written == v.written.push(
            WriteView { x, y, text },
        ),
        v.with_cursor(x, y).flushed_write(text).written.last() == (WriteView { x, y, text }),
{
}

/// Law: a read finding no real keyboard activity returns the empty string:
/// the key-down record the adapter injects for itself is excluded from the
/// result, and the queue is empty again afterwards.
pub proof fn lemma_read_without_activity_is_empty(v: ConsoleView)
    requires
        v.pending_input.len() == 0,
    ensures
        v.read_chars() == Seq::<char>::empty(),
        v.input_drained().pending_input == Seq::<InputRecord>::empty(),
{
    assert(v.injected_queue().len() == 1);
    assert(v.read_batch_len() == 1);
    assert(v.injected_queue().take(0) =~= Seq::<InputRecord>::empty());
    assert(v.input_drained().pending_input =~= Seq::<InputRecord>::empty());
}

/// Law: as long as fewer records wait than the read buffer holds, a read
/// decodes exactly the records that were waiting — the injected record is
/// the last of the batch and is excluded — and drains the queue whole.
pub proof fn lemma_injected_record_excluded(v: ConsoleView)
    requires
        v.pending_input.len() < INPUT_BUFFER_LEN,
    ensures
        v.read_chars() == decoded_chars(v.pending_input),
        v.input_drained().pending_input == Seq::<InputRecord>::empty(),
{
    let queue = v.injected_queue();
    assert(v.read_batch_len() == queue.len());
    assert(queue.take(queue.len() - 1) =~= v.pending_input);
    assert(v.input_drained().pending_input =~= Seq::<InputRecord>::empty());
}

/// Law: clearing leaves every cell of the screen buffer holding a space
/// character shown with the attribute that was in effect before the clear,
/// puts the cursor back at the origin, and keeps the console well-formed.
pub proof fn lemma_clear_blanks_every_cell(v: ConsoleView)
    requires
        v.wf(),
    ensures
        v.cleared().wf(),
        v.cleared().cells.len() == v.cells.len(),
        forall|i: int|
            0 <= i < v.cleared().cells.len() ==> v.cleared().cells[i] == (Cell {
                ch: ' ',
                attr: v.attributes,
            }),
        v.cleared().cursor == (ScreenPosition { x: 0, y: 0 }),
{
}

/// Law: requesting virtual-terminal processing on a stream that is not a
/// console changes nothing at all — the operation is a silent no-op there,
/// never a failure. (That the call also returns `Ok` whenever the handle
/// can be obtained is part of its contract.)
pub proof fn lemma_vt_on_redirected_stream_is_noop(v: ConsoleView)
    requires
        !v.out_is_console,
    ensures
        v.vt_enabled() == v,
{
}

/// Law: on a real console, requesting virtual-terminal processing ORs the
/// processing flag into the output mode and touches nothing else.
pub proof fn lemma_vt_sets_processing_flag(v: ConsoleView)
    requires
        v.out_is_console,
    ensures
        v.vt_enabled().mode == v.mode | ENABLE_VIRTUAL_TERMINAL_PROCESSING,
        v.vt_enabled() == (ConsoleView { mode: v.vt_enabled().mode, ..v }),
{
}

/// Law: once both code pages are switched to UTF-8, text written to the
/// screen is recorded character for character — multi-byte characters
/// included — at the requested position.
pub proof fn lemma_utf8_write_round_trip(v: ConsoleView, x: i16, y: i16, text: Seq<char>)
    requires
        v.wf(),
        v.output_ready(),
        v.in_bounds(x, y),
    ensures
        v.utf8_applied().output_code_page == UTF8_CODE_PAGE,
        v.utf8_applied().input_code_page == UTF8_CODE_PAGE,
        v.utf8_applied().with_cursor(x, y).flushed_write(text).written.last() == (WriteView {
            x,
            y,
            text,
        }),
{
}

} // verus!
