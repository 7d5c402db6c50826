//! The local configuration record and the verified key-by-key editing
//! behind the interactive prompts that create it: a masked password line
//! and a digits-only number line.

use vstd::prelude::*;
use crate::cli_monitor::Key;
use crate::strutil::{is_digit, is_digit_seq, pop_char, push_char};

verus! {

/// The local configuration, loaded once at startup.
#[derive(Clone, Debug)]
pub struct Config {
    pub login: String,
    pub password: String,
    pub enviorment: String,
    pub refresh_interval_in_secs: u64,
    pub ip: String,
    pub porta: String,
    pub request_timeout_in_secs: u64,
}

/// One key of the masked password prompt: characters append, Backspace
/// removes the last character, Enter finishes the line, anything else
/// changes nothing.
pub fn masked_input_step(password: &mut String, key: &Key) -> (done: bool)
    ensures
        done == (key is Enter),
        key matches Key::Char(c) ==> final(password)@ == old(password)@.push(*c),
        key is Backspace && old(password)@.len() > 0 ==> final(password)@ == old(
            password,
        )@.drop_last(),
        key is Backspace && old(password)@.len() == 0 ==> final(password)@ == old(password)@,
        !(key is Char || key is Backspace) ==> final(password)@ == old(password)@,
{
    match key {
        Key::Enter => true,
        Key::Char(c) => {
            push_char(password, *c);
            false
        },
        Key::Backspace => {
            let _ = pop_char(password);
            false
        },
        _ => false,
    }
}

/// One key of the digits-only number prompt: decimal digits append, any
/// other character is ignored, Backspace removes the last digit, Enter
/// finishes the line. The buffer only ever holds digits.
pub fn numeric_input_step(numbers: &mut String, key: &Key) -> (done: bool)
    requires
        is_digit_seq(old(numbers)@),
    ensures
        is_digit_seq(final(numbers)@),
        done == (key is Enter),
        key matches Key::Char(c) ==> (if is_digit(*c) {
            final(numbers)@ == old(numbers)@.push(*c)
        } else {
            final(numbers)@ == old(numbers)@
        }),
        key is Backspace && old(numbers)@.len() > 0 ==> final(numbers)@ == old(
            numbers,
        )@.drop_last(),
        key is Backspace && old(numbers)@.len() == 0 ==> final(numbers)@ == old(numbers)@,
        !(key is Char || key is Backspace) ==> final(numbers)@ == old(numbers)@,
{
    match key {
        Key::Enter => true,
        Key::Char(c) => {
            if *c >= '0' && *c <= '9' {
                push_char(numbers, *c);
                proof {
                    assert forall|i: int| 0 <= i < numbers@.len() implies is_digit(
                        #[trigger] numbers@[i],
                    ) by {
                        if i < old(numbers)@.len() {
                            assert(numbers@[i] == old(numbers)@[i]);
                        }
                    }
                }
            }
            false
        },
        Key::Backspace => {
            let _ = pop_char(numbers);
            proof {
                assert forall|i: int| 0 <= i < numbers@.len() implies is_digit(
                    #[trigger] numbers@[i],
                ) by {
                    assert(numbers@[i] == old(numbers)@[i]);
                }
            }
            false
        },
        _ => false,
    }
}

} // verus!
