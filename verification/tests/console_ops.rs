use console_adapter::console::{
    ConsoleState, DEFAULT_CODE_PAGE, ENABLE_VIRTUAL_TERMINAL_PROCESSING, UTF8_CODE_PAGE,
};
use console_adapter::screen::{Cell, ConsoleError, ScreenPosition};

#[test]
fn cursor_round_trip() {
    let mut c = ConsoleState::new(80, 25, 7);
    assert_eq!(c.set_cursor(10, 5), Ok(()));
    assert_eq!(c.get_cursor(), Ok(ScreenPosition { x: 10, y: 5 }));
}

#[test]
fn cursor_round_trip_at_edges() {
    let mut c = ConsoleState::new(80, 25, 7);
    assert_eq!(c.set_cursor(0, 0), Ok(()));
    assert_eq!(c.get_cursor(), Ok(ScreenPosition { x: 0, y: 0 }));
    assert_eq!(c.set_cursor(79, 24), Ok(()));
    assert_eq!(c.get_cursor(), Ok(ScreenPosition { x: 79, y: 24 }));
}

#[test]
fn set_cursor_out_of_bounds_is_rejected() {
    let mut c = ConsoleState::new(80, 25, 7);
    assert_eq!(c.set_cursor(80, 0), Err(ConsoleError::OutOfBounds));
    assert_eq!(c.set_cursor(0, 25), Err(ConsoleError::OutOfBounds));
    assert_eq!(c.set_cursor(-1, 0), Err(ConsoleError::OutOfBounds));
    assert_eq!(c.set_cursor(0, -1), Err(ConsoleError::OutOfBounds));
    // The failed moves left the cursor where it was.
    assert_eq!(c.get_cursor(), Ok(ScreenPosition { x: 0, y: 0 }));
}

#[test]
fn get_cursor_reports_stream_errors() {
    let mut c = ConsoleState::new(80, 25, 7);
    c.out_is_console = false;
    assert_eq!(c.get_cursor(), Err(ConsoleError::NotAConsole));
    c.out_handle_valid = false;
    assert_eq!(c.get_cursor(), Err(ConsoleError::InvalidHandle));
}

#[test]
fn update_screen_moves_cursor_and_records_write() {
    let mut c = ConsoleState::new(80, 25, 7);
    assert_eq!(c.update_screen(3, 2, String::from("hi")), Ok(()));
    assert_eq!(c.get_cursor(), Ok(ScreenPosition { x: 3, y: 2 }));
    assert_eq!(c.written.len(), 1);
    assert_eq!(c.written[0].x, 3);
    assert_eq!(c.written[0].y, 2);
    assert_eq!(c.written[0].text, "hi");
}

#[test]
fn update_screen_fails_like_set_cursor() {
    let mut c = ConsoleState::new(80, 25, 7);
    assert_eq!(
        c.update_screen(99, 0, String::from("x")),
        Err(ConsoleError::OutOfBounds)
    );
    assert!(c.written.is_empty());
    c.out_is_console = false;
    assert_eq!(
        c.update_screen(1, 1, String::from("x")),
        Err(ConsoleError::NotAConsole)
    );
    assert!(c.written.is_empty());
}

#[test]
fn clear_blanks_every_cell_and_resets_cursor() {
    let mut c = ConsoleState::new(4, 3, 112);
    // Scribble over the buffer by hand, as if earlier output had filled it.
    for (i, cell) in c.cells.iter_mut().enumerate() {
        cell.ch = 'x';
        cell.attr = i as u16;
    }
    c.cursor = ScreenPosition { x: 3, y: 2 };
    assert_eq!(c.clear_console_windows(), Ok(()));
    assert_eq!(c.cells.len(), 12);
    for cell in &c.cells {
        assert_eq!(*cell, Cell { ch: ' ', attr: 112 });
    }
    assert_eq!(c.get_cursor(), Ok(ScreenPosition { x: 0, y: 0 }));
}

#[test]
fn clear_fails_off_a_console() {
    let mut c = ConsoleState::new(4, 3, 7);
    c.cells[5].ch = 'q';
    c.out_is_console = false;
    assert_eq!(c.clear_console_windows(), Err(ConsoleError::NotAConsole));
    assert_eq!(c.cells[5].ch, 'q');
    c.out_handle_valid = false;
    assert_eq!(c.clear_console_windows(), Err(ConsoleError::InvalidHandle));
}

#[test]
fn set_console_utf8_switches_both_code_pages() {
    let mut c = ConsoleState::new(80, 25, 7);
    assert_eq!(c.output_code_page, DEFAULT_CODE_PAGE);
    assert_eq!(c.input_code_page, DEFAULT_CODE_PAGE);
    assert_eq!(c.set_console_utf8(), Ok(()));
    assert_eq!(c.output_code_page, UTF8_CODE_PAGE);
    assert_eq!(c.input_code_page, UTF8_CODE_PAGE);
}

#[test]
fn set_console_utf8_fails_when_unsupported() {
    let mut c = ConsoleState::new(80, 25, 7);
    c.utf8_supported = false;
    assert_eq!(c.set_console_utf8(), Err(ConsoleError::UnsupportedCodePage));
    assert_eq!(c.output_code_page, DEFAULT_CODE_PAGE);
    assert_eq!(c.input_code_page, DEFAULT_CODE_PAGE);
}

#[test]
fn enable_vt_sets_the_flag_on_a_console() {
    let mut c = ConsoleState::new(80, 25, 7);
    c.mode = 0x0003;
    assert_eq!(c.enable_virtual_terminal_processing(), Ok(()));
    assert_eq!(c.mode, 0x0003 | ENABLE_VIRTUAL_TERMINAL_PROCESSING);
    // Enabling twice keeps the same mode: the flag is ORed in.
    assert_eq!(c.enable_virtual_terminal_processing(), Ok(()));
    assert_eq!(c.mode, 0x0007);
}

#[test]
fn enable_vt_is_silent_on_a_redirected_stream() {
    let mut c = ConsoleState::new(80, 25, 7);
    c.out_is_console = false;
    c.mode = 0x0003;
    // No abort, no error, no change.
    assert_eq!(c.enable_virtual_terminal_processing(), Ok(()));
    assert_eq!(c.mode, 0x0003);
}

#[test]
fn enable_vt_fails_only_on_an_invalid_handle() {
    let mut c = ConsoleState::new(80, 25, 7);
    c.out_handle_valid = false;
    assert_eq!(
        c.enable_virtual_terminal_processing(),
        Err(ConsoleError::InvalidHandle)
    );
}

#[test]
fn utf8_text_is_recorded_verbatim() {
    let mut c = ConsoleState::new(80, 25, 7);
    assert_eq!(c.set_console_utf8(), Ok(()));
    let text = "héllo ☃ Змея";
    assert_eq!(c.update_screen(0, 0, String::from(text)), Ok(()));
    assert_eq!(c.written[0].text, text);
}
