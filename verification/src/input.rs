//! Console input records and the decoding of key events into text.
//!
//! A read drains a batch of raw input records from the console input queue.
//! To keep the read from blocking when no key has been pressed, the adapter
//! first injects one synthetic key-down record of its own; the decoder then
//! drops the last record of the batch, so that the injected record never
//! appears in the result.

use vstd::prelude::*;

verus! {

/// The event-type tag that marks an input record as a keyboard event.
pub const KEY_EVENT: u16 = 1;

/// How many raw input records one read drains at most.
pub const INPUT_BUFFER_LEN: usize = 32;

/// The code unit carried by the key-down record that the adapter injects
/// before every read, the character `'+'`.
pub const INJECTED_CODE_UNIT: u16 = 43;

/// One record of the console input queue, reduced to the fields the adapter
/// reads: the event-type tag and, for keyboard events, the key-event payload.
#[derive(Clone, Copy, Debug, PartialEq, Eq, Structural)]
pub struct InputRecord {
    /// Which kind of event this record carries; `KEY_EVENT` for keyboard.
    pub event_type: u16,
    /// True while the key is pressed, false on release.
    pub key_down: bool,
    /// How many times the key press repeats.
    pub repeat_count: u16,
    /// The virtual-key code of the key.
    pub virtual_key_code: u16,
    /// The hardware scan code of the key.
    pub virtual_scan_code: u16,
    /// The UTF-16 code unit of the character the key produces.
    pub unicode_char: u16,
    /// The state of the modifier keys when the event was recorded.
    pub control_key_state: u32,
}

/// A 16-bit code unit that is not by itself a Unicode scalar value.
pub open spec fn is_surrogate_code_unit(u: u16) -> bool {
    0xD800 <= u <= 0xDFFF
}

/// The character whose code point is the given code unit. Meaningful only
/// when the unit is not a surrogate.
pub open spec fn char_of_unit(u: u16) -> char {
    (u as u32) as char
}

/// The key-down record that the adapter injects before every read.
pub open spec fn injected_record() -> InputRecord {
    InputRecord {
        event_type: KEY_EVENT,
        key_down: true,
        repeat_count: 1,
        virtual_key_code: 0,
        virtual_scan_code: 0,
        unicode_char: INJECTED_CODE_UNIT,
        control_key_state: 0,
    }
}

/// Whether a record contributes a character to the decoded text: it must be
/// a keyboard event, for a pressed key, whose code unit is a Unicode scalar
/// value.
pub open spec fn yields_char(r: InputRecord) -> bool {
    r.event_type == KEY_EVENT && r.key_down && !is_surrogate_code_unit(r.unicode_char)
}

/// The characters that a sequence of input records decodes to, in order.
pub open spec fn decoded_chars(records: Seq<InputRecord>) -> Seq<char>
    decreases records.len(),
{
    if records.len() == 0 {
        Seq::empty()
    } else if yields_char(records.last()) {
        decoded_chars(records.drop_last()).push(char_of_unit(records.last().unicode_char))
    } else {
        decoded_chars(records.drop_last())
    }
}

/// Relies on `char::from_u32`: it returns `Some` exactly when the argument
/// is a Unicode scalar value, and the returned character has the argument as
/// its code point. A 16-bit code unit is a scalar value unless it is a
/// surrogate.
#[verifier::external_body]
fn char_from_code_unit(u: u16) -> (r: Option<char>)
    ensures
        r is Some <==> !is_surrogate_code_unit(u),
        r matches Some(c) ==> c == char_of_unit(u) && c as u32 == u as u32,
{
    char::from_u32(u as u32)
}

/// Relies on `String::push`: it appends the given character to the end of
/// the string.
#[verifier::external_body]
fn push_char(s: &mut String, c: char)
    ensures
        final(s)@ == old(s)@.push(c),
{
    s.push(c);
}

/// Builds the key-down record that the adapter injects before every read.
pub fn make_injected_record() -> (r: InputRecord)
    ensures
        r == injected_record(),
{
    InputRecord {
        event_type: KEY_EVENT,
        key_down: true,
        repeat_count: 1,
        virtual_key_code: 0,
        virtual_scan_code: 0,
        unicode_char: INJECTED_CODE_UNIT,
        control_key_state: 0,
    }
}

/// Decodes the first `read_count` records of a drained batch, leaving out
/// the last of them: a read always ends with the record the adapter itself
/// injected. A batch of no records decodes to the empty string rather than
/// failing.
pub fn decode_key_events(records: &Vec<InputRecord>, read_count: usize) -> (s: String)
    requires
        read_count <= records@.len(),
    ensures
        read_count == 0 ==> s@ == Seq::<char>::empty(),
        read_count > 0 ==> s@ == decoded_chars(records@.take(read_count - 1)),
{
    let mut s = String::new();
    if read_count == 0 {
        return s;
    }
    let end = read_count - 1;
    let mut i: usize = 0;
    while i < end
        invariant
            i <= end,
            end < records@.len(),
            s@ == decoded_chars(records@.take(i as int)),
        decreases end - i,
    {
        let record = records[i];
        if record.event_type == KEY_EVENT {
            if record.key_down {
                if let Some(ch) = char_from_code_unit(record.unicode_char) {
                    push_char(&mut s, ch);
                }
            }
        }
        proof {
            let taken = records@.take(i + 1);
            assert(taken.drop_last() =~= records@.take(i as int));
            assert(taken.last() == records@[i as int]);
        }
        i = i + 1;
    }
    s
}

} // verus!
