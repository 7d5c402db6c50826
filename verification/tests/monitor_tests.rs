//! Scenario tests of the interaction state machine: navigation and
//! wraparound, marks and multi-select, the three modals, the error banner,
//! and how fetch and send outcomes are applied.

use cli_monitor::api_service::{Entry, MessageResponse};
use cli_monitor::cli_monitor::{
    apply_refresh, apply_send_result, row_highlight, selected_hashs_to_vec, tick_action,
    user_key_input, Action, CliMonitor, Key, Modal, MonitorError, RowHighlight, TimerEvent,
};
use cli_monitor::errors::APIError;

fn mk_entry(id: &str) -> Entry {
    Entry {
        id: id.to_string(),
        ..Default::default()
    }
}

fn mk_entries(n: usize) -> Vec<Entry> {
    (0..n).map(|i| mk_entry(&format!("S{}", i))).collect()
}

fn press(
    m: &mut CliMonitor,
    entries: &Vec<Entry>,
    page: &mut u32,
    buf: &mut String,
    key: Key,
) -> (bool, Action) {
    user_key_input(m, entries, page, buf, &key)
}

#[test]
fn down_wraps_after_last_row() {
    // page=0, 10 records, cursor=0; nine presses of Down reach 9, one more wraps to 0.
    let entries = mk_entries(10);
    let mut m = CliMonitor::new();
    let mut page = 0u32;
    let mut buf = String::new();
    for _ in 0..9 {
        press(&mut m, &entries, &mut page, &mut buf, Key::Down);
    }
    assert_eq!(m.selected, 9);
    press(&mut m, &entries, &mut page, &mut buf, Key::Down);
    assert_eq!(m.selected, 0);
}

#[test]
fn up_wraps_to_last_row() {
    let entries = mk_entries(4);
    let mut m = CliMonitor::new();
    let mut page = 0u32;
    let mut buf = String::new();
    press(&mut m, &entries, &mut page, &mut buf, Key::Up);
    assert_eq!(m.selected, 3);
    press(&mut m, &entries, &mut page, &mut buf, Key::Up);
    assert_eq!(m.selected, 2);
}

#[test]
fn navigation_on_empty_page_is_safe() {
    let entries: Vec<Entry> = Vec::new();
    let mut m = CliMonitor::new();
    let mut page = 0u32;
    let mut buf = String::new();
    press(&mut m, &entries, &mut page, &mut buf, Key::Down);
    press(&mut m, &entries, &mut page, &mut buf, Key::Up);
    press(&mut m, &entries, &mut page, &mut buf, Key::Char('e'));
    press(&mut m, &entries, &mut page, &mut buf, Key::Char('M'));
    press(&mut m, &entries, &mut page, &mut buf, Key::Char('d'));
    assert_eq!(m.selected, 0);
    assert!(!m.on_modal);
}

#[test]
fn quit_key_reports_quit() {
    let entries = mk_entries(1);
    let mut m = CliMonitor::new();
    let mut page = 0u32;
    let mut buf = String::new();
    let (quit, _) = press(&mut m, &entries, &mut page, &mut buf, Key::Char('q'));
    assert!(quit);
}

#[test]
fn page_keys_change_page_and_refresh() {
    let entries = mk_entries(2);
    let mut m = CliMonitor::new();
    let mut page = 0u32;
    let mut buf = String::new();
    // Left at page 0 stays and asks nothing.
    let (_, a0) = press(&mut m, &entries, &mut page, &mut buf, Key::Left);
    assert_eq!(page, 0);
    assert!(matches!(a0, Action::Idle));
    let (_, a1) = press(&mut m, &entries, &mut page, &mut buf, Key::Right);
    assert_eq!(page, 1);
    assert!(matches!(a1, Action::Refresh));
    let (_, a2) = press(&mut m, &entries, &mut page, &mut buf, Key::Left);
    assert_eq!(page, 0);
    assert!(matches!(a2, Action::Refresh));
    // Manual refresh.
    let (_, a3) = press(&mut m, &entries, &mut page, &mut buf, Key::Char('a'));
    assert!(matches!(a3, Action::Refresh));
}

#[test]
fn page_wraps_to_zero_at_overflow() {
    let entries = mk_entries(1);
    let mut m = CliMonitor::new();
    let mut page = u32::MAX;
    let mut buf = String::new();
    press(&mut m, &entries, &mut page, &mut buf, Key::Right);
    assert_eq!(page, 0);
}

#[test]
fn effective_targets_cursor_when_no_marks() {
    let entries = mk_entries(3);
    let mut m = CliMonitor::new();
    let mut page = 0u32;
    let mut buf = String::new();
    assert_eq!(selected_hashs_to_vec(&m, &entries), vec!["S0".to_string()]);
    press(&mut m, &entries, &mut page, &mut buf, Key::Down);
    assert_eq!(selected_hashs_to_vec(&m, &entries), vec!["S1".to_string()]);
}

#[test]
fn effective_targets_marks_when_any() {
    let entries = mk_entries(3);
    let mut m = CliMonitor::new();
    let mut page = 0u32;
    let mut buf = String::new();
    press(&mut m, &entries, &mut page, &mut buf, Key::Char('e'));
    press(&mut m, &entries, &mut page, &mut buf, Key::Down);
    press(&mut m, &entries, &mut page, &mut buf, Key::Char('e'));
    press(&mut m, &entries, &mut page, &mut buf, Key::Down);
    // Cursor is on S2, but the marks win.
    let targets = selected_hashs_to_vec(&m, &entries);
    assert_eq!(targets, vec!["S0".to_string(), "S1".to_string()]);
}

#[test]
fn toggle_mark_twice_unmarks() {
    let entries = mk_entries(2);
    let mut m = CliMonitor::new();
    let mut page = 0u32;
    let mut buf = String::new();
    press(&mut m, &entries, &mut page, &mut buf, Key::Char('e'));
    assert_eq!(m.item_hash_set, vec!["S0".to_string()]);
    press(&mut m, &entries, &mut page, &mut buf, Key::Char('e'));
    assert!(m.item_hash_set.is_empty());
}

#[test]
fn clear_marks_key_clears_all() {
    let entries = mk_entries(3);
    let mut m = CliMonitor::new();
    let mut page = 0u32;
    let mut buf = String::new();
    press(&mut m, &entries, &mut page, &mut buf, Key::Char('e'));
    press(&mut m, &entries, &mut page, &mut buf, Key::Down);
    press(&mut m, &entries, &mut page, &mut buf, Key::Char('e'));
    press(&mut m, &entries, &mut page, &mut buf, Key::Char('E'));
    assert!(m.item_hash_set.is_empty());
}

#[test]
fn multi_select_enter_marks_cursor_row() {
    // Entering multi-select with marks empty and cursor at row 1 leaves marks = {"S1"}.
    let entries = mk_entries(3);
    let mut m = CliMonitor::new();
    let mut page = 0u32;
    let mut buf = String::new();
    press(&mut m, &entries, &mut page, &mut buf, Key::Down);
    press(&mut m, &entries, &mut page, &mut buf, Key::Tab);
    assert!(m.is_adding_selected);
    assert_eq!(m.item_hash_set, vec!["S1".to_string()]);
}

#[test]
fn multi_select_exit_clears_all_marks() {
    let entries = mk_entries(3);
    let mut m = CliMonitor::new();
    let mut page = 0u32;
    let mut buf = String::new();
    press(&mut m, &entries, &mut page, &mut buf, Key::Char('e'));
    press(&mut m, &entries, &mut page, &mut buf, Key::Tab);
    assert!(m.is_adding_selected);
    assert!(!m.item_hash_set.is_empty());
    press(&mut m, &entries, &mut page, &mut buf, Key::Tab);
    assert!(!m.is_adding_selected);
    assert!(m.item_hash_set.is_empty());
}

#[test]
fn multi_select_movement_toggles_row_being_left() {
    // Navigation is coupled to selection: while multi-select is active,
    // every move toggles the mark of the row the cursor leaves.
    let entries = mk_entries(3);
    let mut m = CliMonitor::new();
    let mut page = 0u32;
    let mut buf = String::new();
    press(&mut m, &entries, &mut page, &mut buf, Key::Tab);
    assert_eq!(m.item_hash_set, vec!["S0".to_string()]);
    // Leaving S0 toggles it off again.
    press(&mut m, &entries, &mut page, &mut buf, Key::Down);
    assert!(m.item_hash_set.is_empty());
    // Leaving S1 toggles it on.
    press(&mut m, &entries, &mut page, &mut buf, Key::Down);
    assert_eq!(m.item_hash_set, vec!["S1".to_string()]);
}

#[test]
fn delete_confirm_targets_cursor_row() {
    // marks={}, cursor on "S1": d then the confirming key deletes exactly {"S1"}.
    let entries = vec![mk_entry("S1"), mk_entry("S2")];
    let mut m = CliMonitor::new();
    let mut page = 0u32;
    let mut buf = String::new();
    press(&mut m, &entries, &mut page, &mut buf, Key::Char('d'));
    assert!(m.on_modal);
    assert!(matches!(m.current_modal, Modal::Delete));
    let (quit, action) = press(&mut m, &entries, &mut page, &mut buf, Key::Char('s'));
    assert!(!quit);
    match action {
        Action::Delete(ids) => assert_eq!(ids, vec!["S1".to_string()]),
        _ => panic!("expected a delete action"),
    }
    assert!(!m.on_modal);
    assert!(matches!(m.current_modal, Modal::Closed));
}

#[test]
fn delete_decline_closes_and_still_refreshes() {
    let entries = vec![mk_entry("S1")];
    let mut m = CliMonitor::new();
    let mut page = 0u32;
    let mut buf = String::new();
    press(&mut m, &entries, &mut page, &mut buf, Key::Char('d'));
    let (_, action) = press(&mut m, &entries, &mut page, &mut buf, Key::Char('n'));
    assert!(matches!(action, Action::Refresh));
    assert!(!m.on_modal);
}

#[test]
fn detail_modal_any_key_closes() {
    let entries = mk_entries(1);
    let mut m = CliMonitor::new();
    let mut page = 0u32;
    let mut buf = String::new();
    press(&mut m, &entries, &mut page, &mut buf, Key::Char('M'));
    assert!(m.on_modal);
    assert!(matches!(m.current_modal, Modal::Info));
    let (_, action) = press(&mut m, &entries, &mut page, &mut buf, Key::Char('x'));
    assert!(!m.on_modal);
    assert!(matches!(action, Action::Refresh));
}

#[test]
fn compose_typing_and_backspaces_round_trip() {
    // Typing n characters then pressing Backspace n times yields an empty buffer.
    let entries = mk_entries(1);
    let mut m = CliMonitor::new();
    let mut page = 0u32;
    let mut buf = String::new();
    press(&mut m, &entries, &mut page, &mut buf, Key::Char('m'));
    assert!(matches!(m.current_modal, Modal::SendMsg));
    press(&mut m, &entries, &mut page, &mut buf, Key::Char('a'));
    press(&mut m, &entries, &mut page, &mut buf, Key::Char('b'));
    press(&mut m, &entries, &mut page, &mut buf, Key::Char('c'));
    assert_eq!(buf, "abc");
    press(&mut m, &entries, &mut page, &mut buf, Key::Backspace);
    assert_eq!(buf, "ab");
    press(&mut m, &entries, &mut page, &mut buf, Key::Backspace);
    press(&mut m, &entries, &mut page, &mut buf, Key::Backspace);
    assert_eq!(buf, "");
    assert!(m.on_modal);
}

#[test]
fn compose_escape_clears_and_closes_without_send() {
    let entries = mk_entries(1);
    let mut m = CliMonitor::new();
    let mut page = 0u32;
    let mut buf = String::new();
    press(&mut m, &entries, &mut page, &mut buf, Key::Char('m'));
    press(&mut m, &entries, &mut page, &mut buf, Key::Char('x'));
    press(&mut m, &entries, &mut page, &mut buf, Key::Char('y'));
    let (_, action) = press(&mut m, &entries, &mut page, &mut buf, Key::Esc);
    assert_eq!(buf, "");
    assert!(!m.on_modal);
    assert!(matches!(action, Action::Refresh));
}

#[test]
fn compose_enter_sends_buffer_to_targets() {
    let entries = vec![mk_entry("S7")];
    let mut m = CliMonitor::new();
    let mut page = 0u32;
    let mut buf = String::new();
    press(&mut m, &entries, &mut page, &mut buf, Key::Char('m'));
    press(&mut m, &entries, &mut page, &mut buf, Key::Char('h'));
    press(&mut m, &entries, &mut page, &mut buf, Key::Char('i'));
    let (_, action) = press(&mut m, &entries, &mut page, &mut buf, Key::Enter);
    match action {
        Action::Send(ids, text) => {
            assert_eq!(ids, vec!["S7".to_string()]);
            assert_eq!(text, "hi");
        },
        _ => panic!("expected a send action"),
    }
    assert_eq!(buf, "");
    assert!(!m.on_modal);
    assert!(matches!(m.current_modal, Modal::Closed));
}

#[test]
fn send_reply_message_raises_banner() {
    // A send answered with {level:1, message:"quota exceeded"} shows that
    // banner; the buffer is empty and the workflow is closed.
    let entries = mk_entries(1);
    let mut m = CliMonitor::new();
    let mut page = 0u32;
    let mut buf = String::new();
    press(&mut m, &entries, &mut page, &mut buf, Key::Char('m'));
    press(&mut m, &entries, &mut page, &mut buf, Key::Char('z'));
    press(&mut m, &entries, &mut page, &mut buf, Key::Enter);
    apply_send_result(
        &mut m,
        Ok(MessageResponse {
            level: 1,
            message: Some("quota exceeded".to_string()),
            data: None,
        }),
    );
    assert!(m.is_on_error);
    match &m.error {
        MonitorError::SendMsgError(s) => assert_eq!(s, "quota exceeded"),
        _ => panic!("expected a send-message banner"),
    }
    assert_eq!(buf, "");
    assert!(!m.on_modal);
    assert!(matches!(m.current_modal, Modal::Closed));
}

#[test]
fn silent_send_reply_raises_no_banner() {
    let mut m = CliMonitor::new();
    apply_send_result(
        &mut m,
        Ok(MessageResponse {
            level: 0,
            message: None,
            data: None,
        }),
    );
    assert!(!m.is_on_error);
    apply_send_result(
        &mut m,
        Ok(MessageResponse {
            level: 0,
            message: Some(String::new()),
            data: None,
        }),
    );
    assert!(!m.is_on_error);
}

#[test]
fn failed_send_raises_banner_with_taxonomy_message() {
    let mut m = CliMonitor::new();
    apply_send_result(&mut m, Err(APIError::RequestError("boom".to_string())));
    assert!(m.is_on_error);
    match &m.error {
        MonitorError::SendMsgError(s) => {
            assert_eq!(s, "Erro ao tentar fazer request boom")
        },
        _ => panic!("expected a send-message banner"),
    }
}

#[test]
fn banner_suspends_keys_until_acknowledged() {
    let entries = mk_entries(2);
    let mut m = CliMonitor::new();
    let mut page = 0u32;
    let mut buf = String::new();
    apply_send_result(&mut m, Err(APIError::RequestError("x".to_string())));
    assert!(m.is_on_error);
    // A normal key does nothing while the banner is up.
    let (_, a) = press(&mut m, &entries, &mut page, &mut buf, Key::Down);
    assert_eq!(m.selected, 0);
    assert!(matches!(a, Action::Idle));
    assert!(m.is_on_error);
    // Enter acknowledges.
    press(&mut m, &entries, &mut page, &mut buf, Key::Enter);
    assert!(!m.is_on_error);
    assert!(matches!(m.error, MonitorError::Inactive));
    // Keys work again.
    press(&mut m, &entries, &mut page, &mut buf, Key::Down);
    assert_eq!(m.selected, 1);
}

#[test]
fn failed_refresh_keeps_records_and_cursor() {
    // A failed refresh leaves the displayed records and cursor unchanged
    // and raises exactly one banner.
    let mut entries = mk_entries(3);
    let mut m = CliMonitor::new();
    let mut page = 0u32;
    let mut buf = String::new();
    press(&mut m, &entries, &mut page, &mut buf, Key::Down);
    press(&mut m, &entries, &mut page, &mut buf, Key::Down);
    assert_eq!(m.selected, 2);
    apply_refresh(
        &mut m,
        &mut entries,
        Err(APIError::ParsingError("bad body".to_string())),
    );
    assert_eq!(entries.len(), 3);
    assert_eq!(entries[0].id, "S0");
    assert_eq!(entries[2].id, "S2");
    assert_eq!(m.selected, 2);
    assert!(m.is_on_error);
    match &m.error {
        MonitorError::RefreshError(s) => {
            assert_eq!(s, "Erro ao tentar parsear para json bad body")
        },
        _ => panic!("expected a refresh banner"),
    }
}

#[test]
fn successful_refresh_replaces_and_clamps_cursor() {
    let mut entries = mk_entries(10);
    let mut m = CliMonitor::new();
    let mut page = 0u32;
    let mut buf = String::new();
    for _ in 0..9 {
        press(&mut m, &entries, &mut page, &mut buf, Key::Down);
    }
    assert_eq!(m.selected, 9);
    apply_refresh(&mut m, &mut entries, Ok(mk_entries(3)));
    assert_eq!(entries.len(), 3);
    assert_eq!(m.selected, 0);
    assert!(!m.is_on_error);
    // A cursor that still fits is kept.
    press(&mut m, &entries, &mut page, &mut buf, Key::Down);
    apply_refresh(&mut m, &mut entries, Ok(mk_entries(5)));
    assert_eq!(m.selected, 1);
}

#[test]
fn marks_survive_refresh() {
    let mut entries = mk_entries(3);
    let mut m = CliMonitor::new();
    let mut page = 0u32;
    let mut buf = String::new();
    press(&mut m, &entries, &mut page, &mut buf, Key::Char('e'));
    apply_refresh(&mut m, &mut entries, Ok(mk_entries(2)));
    assert_eq!(m.item_hash_set, vec!["S0".to_string()]);
}

#[test]
fn tick_actions_map_to_refresh_and_renewal() {
    assert!(matches!(tick_action(&TimerEvent::Refresh), Action::Refresh));
    assert!(matches!(
        tick_action(&TimerEvent::Every30Min),
        Action::RenewToken
    ));
}

#[test]
fn row_highlight_prefers_cursor_then_marks() {
    let entries = mk_entries(3);
    let mut m = CliMonitor::new();
    let mut page = 0u32;
    let mut buf = String::new();
    press(&mut m, &entries, &mut page, &mut buf, Key::Char('e'));
    press(&mut m, &entries, &mut page, &mut buf, Key::Down);
    // Cursor on row 1; row 0 marked.
    assert!(matches!(
        row_highlight(&m, 1, &entries[1].id),
        RowHighlight::Cursor
    ));
    assert!(matches!(
        row_highlight(&m, 0, &entries[0].id),
        RowHighlight::Marked
    ));
    assert!(matches!(
        row_highlight(&m, 2, &entries[2].id),
        RowHighlight::Plain
    ));
}
