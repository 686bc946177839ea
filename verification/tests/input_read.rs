use console_adapter::console::ConsoleState;
use console_adapter::input::{
    decode_key_events, make_injected_record, InputRecord, INJECTED_CODE_UNIT, INPUT_BUFFER_LEN,
    KEY_EVENT,
};
use console_adapter::screen::ConsoleError;

fn key_down(c: char) -> InputRecord {
    InputRecord {
        event_type: KEY_EVENT,
        key_down: true,
        repeat_count: 1,
        virtual_key_code: 0,
        virtual_scan_code: 0,
        unicode_char: c as u16,
        control_key_state: 0,
    }
}

fn key_up(c: char) -> InputRecord {
    InputRecord {
        key_down: false,
        ..key_down(c)
    }
}

#[test]
fn injected_record_is_a_plus_key_press() {
    let r = make_injected_record();
    assert_eq!(r.event_type, KEY_EVENT);
    assert!(r.key_down);
    assert_eq!(r.repeat_count, 1);
    assert_eq!(r.unicode_char, INJECTED_CODE_UNIT);
    assert_eq!(r.unicode_char, '+' as u16);
}

#[test]
fn decode_handles_an_empty_batch() {
    // A read that returned no records must decode to nothing, not fail.
    let records = vec![key_down('a'), key_down('b')];
    assert_eq!(decode_key_events(&records, 0), "");
}

#[test]
fn decode_excludes_the_last_record() {
    let records = vec![key_down('a'), key_down('b')];
    assert_eq!(decode_key_events(&records, 2), "a");
    assert_eq!(decode_key_events(&records, 1), "");
}

#[test]
fn decode_keeps_only_key_down_events() {
    let mouse = InputRecord {
        event_type: 2,
        ..key_down('m')
    };
    let records = vec![
        key_down('a'),
        key_up('b'),
        mouse,
        key_down('c'),
        make_injected_record(),
    ];
    assert_eq!(decode_key_events(&records, 5), "ac");
}

#[test]
fn decode_skips_surrogate_code_units() {
    let mut bad = key_down('x');
    bad.unicode_char = 0xD800;
    let records = vec![key_down('a'), bad, key_down('b'), make_injected_record()];
    assert_eq!(decode_key_events(&records, 4), "ab");
}

#[test]
fn read_without_activity_returns_the_empty_string() {
    let mut c = ConsoleState::new(80, 25, 7);
    assert_eq!(c.get_user_input(), Ok(String::new()));
    assert!(c.pending_input.is_empty());
}

#[test]
fn read_returns_pending_keys_without_the_injected_one() {
    let mut c = ConsoleState::new(80, 25, 7);
    c.pending_input.push(key_down('h'));
    c.pending_input.push(key_up('h'));
    c.pending_input.push(key_down('i'));
    assert_eq!(c.get_user_input(), Ok(String::from("hi")));
    assert!(c.pending_input.is_empty());
}

#[test]
fn read_drains_at_most_one_buffer_of_records() {
    let mut c = ConsoleState::new(80, 25, 7);
    for i in 0..40u16 {
        let mut r = key_down('0');
        r.unicode_char = 'A' as u16 + i;
        c.pending_input.push(r);
    }
    // With the injected record the queue holds 41; one read drains 32 and
    // decodes the first 31 of them.
    let expected: String = (0..31u16)
        .map(|i| char::from_u32(('A' as u16 + i) as u32).unwrap())
        .collect();
    assert_eq!(c.get_user_input(), Ok(expected));
    // Eight real records and the injected one are still queued.
    assert_eq!(c.pending_input.len(), 40 + 1 - INPUT_BUFFER_LEN);
    assert_eq!(c.pending_input.last(), Some(&make_injected_record()));
}

#[test]
fn read_reports_stream_errors() {
    let mut c = ConsoleState::new(80, 25, 7);
    c.in_is_console = false;
    assert_eq!(c.get_user_input(), Err(ConsoleError::NotAConsole));
    c.in_handle_valid = false;
    assert_eq!(c.get_user_input(), Err(ConsoleError::InvalidHandle));
    assert!(c.pending_input.is_empty());
}
