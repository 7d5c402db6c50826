//! Per-modal key handling: the single-step delete confirmation, the
//! read-only detail view, and the compose-message editor with its input
//! buffer.

use vstd::prelude::*;
use crate::cli_monitor::Key;
use crate::strutil::{pop_char, push_char};

verus! {

/// Outcome of one key inside the compose-message modal.
pub enum ComposeStep {
    Stay,
    Close,
    Send(String),
}

/// One key of the delete-confirmation modal. The modal is single-step: the
/// confirming key answers yes, any other key declines; either way the
/// caller closes the modal.
pub fn confirm_del_modal(key: &Key) -> (confirm: bool)
    ensures
        confirm == (key matches Key::Char(c) && *c == 's'),
{
    match key {
        Key::Char(c) => *c == 's',
        _ => false,
    }
}

/// One key of the read-only detail modal: every key closes it.
pub fn more_info_keys(key: &Key) -> (stay_open: bool)
    ensures
        !stay_open,
{
    false
}

/// A buffer after characters are typed at its end.
pub open spec fn buffer_after_typing(b: Seq<char>, cs: Seq<char>) -> Seq<char> {
    b + cs
}

/// A buffer after some number of backspaces; backspacing an empty buffer
/// changes nothing.
pub open spec fn buffer_after_backspaces(b: Seq<char>, n: nat) -> Seq<char>
    decreases n,
{
    if n == 0 {
        b
    } else if b.len() == 0 {
        b
    } else {
        buffer_after_backspaces(b.drop_last(), (n - 1) as nat)
    }
}

/// One key of the compose-message modal: characters append to the buffer,
/// Backspace removes the last character, Enter hands the whole buffer out
/// to be sent and clears it, Escape clears it and closes without sending,
/// and any other key changes nothing.
pub fn message_keys(key: &Key, input_buffer: &mut String) -> (r: ComposeStep)
    ensures
        key matches Key::Char(c) ==> final(input_buffer)@ == buffer_after_typing(
            old(input_buffer)@,
            seq![*c],
        ) && r is Stay,
        key is Backspace ==> final(input_buffer)@ == buffer_after_backspaces(
            old(input_buffer)@,
            1,
        ) && r is Stay,
        key is Enter ==> final(input_buffer)@.len() == 0 && (r matches ComposeStep::Send(m)
            && m@ == old(input_buffer)@),
        key is Esc ==> final(input_buffer)@.len() == 0 && r is Close,
        !(key is Char || key is Backspace || key is Enter || key is Esc) ==> final(input_buffer)@
            == old(input_buffer)@ && r is Stay,
{
    match key {
        Key::Char(c) => {
            push_char(input_buffer, *c);
            proof {
                assert(input_buffer@ =~= buffer_after_typing(old(input_buffer)@, seq![*c]));
            }
            ComposeStep::Stay
        },
        Key::Backspace => {
            let _ = pop_char(input_buffer);
            proof {
                reveal_with_fuel(buffer_after_backspaces, 2);
            }
            ComposeStep::Stay
        },
        Key::Enter => {
            let text = input_buffer.clone();
            *input_buffer = String::new();
            ComposeStep::Send(text)
        },
        Key::Esc => {
            *input_buffer = String::new();
            ComposeStep::Close
        },
        _ => ComposeStep::Stay,
    }
}

/// Backspacing as many times as a buffer is long always empties it.
pub proof fn lemma_backspaces_drain(b: Seq<char>)
    ensures
        buffer_after_backspaces(b, b.len()) == Seq::<char>::empty(),
    decreases b.len(),
{
    if b.len() == 0 {
        assert(b =~= Seq::<char>::empty());
    } else {
        lemma_backspaces_drain(b.drop_last());
    }
}

/// Typing any characters into an empty buffer and then pressing Backspace
/// as many times yields an empty buffer again.
pub proof fn lemma_compose_round_trip(cs: Seq<char>)
    ensures
        buffer_after_backspaces(buffer_after_typing(Seq::<char>::empty(), cs), cs.len())
            == Seq::<char>::empty(),
{
    assert(buffer_after_typing(Seq::<char>::empty(), cs) =~= cs);
    lemma_backspaces_drain(cs);
}

} // verus!
