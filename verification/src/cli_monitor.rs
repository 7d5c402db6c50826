//! The monitor's interaction state: cursor, persistent marks, multi-select
//! mode, the open modal and the error banner, together with the pure
//! decision function that turns one keyboard event into the next state and
//! the remote action the caller must perform.

use vstd::prelude::*;
use crate::api_service::{server_message, Entry, MessageResponse};
use crate::errors::APIError;
use crate::modal::{
    buffer_after_backspaces,
    buffer_after_typing,
    confirm_del_modal,
    message_keys,
    more_info_keys,
    ComposeStep,
};
use crate::strutil::string_views;

verus! {

/// A keyboard event, reduced to what the state machine distinguishes.
pub enum Key {
    Char(char),
    Up,
    Down,
    Left,
    Right,
    Tab,
    Enter,
    Backspace,
    Esc,
    Other,
}

/// The remote call, if any, the caller must perform after a dispatch.
/// `Delete` and `Send` are each followed by a refresh of the current page,
/// whatever their outcome.
pub enum Action {
    Idle,
    Refresh,
    RenewToken,
    Delete(Vec<String>),
    Send(Vec<String>, String),
}

/// A tick from one of the two background timers.
#[derive(Clone, Copy, Debug)]
pub enum TimerEvent {
    Refresh,
    Every30Min,
}

/// Which modal interaction, if any, currently captures the keyboard.
#[derive(Clone, Copy, Debug)]
pub enum Modal {
    Closed,
    Delete,
    Info,
    SendMsg,
}

/// The error banner: at most one active user-visible message.
#[derive(Debug)]
pub enum MonitorError {
    Inactive,
    SendMsgError(String),
    RefreshError(String),
}

/// The whole interaction state of the dashboard.
pub struct CliMonitor {
    pub selected: usize,
    pub on_modal: bool,
    pub current_modal: Modal,
    pub error: MonitorError,
    pub is_on_error: bool,
    pub is_adding_selected: bool,
    pub item_hash_set: Vec<String>,
}

/// Cursor position after one step down, wrapping at the end of the page.
pub open spec fn next_cursor(sel: nat, len: nat) -> nat {
    if len == 0 {
        sel
    } else if sel + 1 < len {
        sel + 1
    } else {
        0
    }
}

/// Cursor position after one step up, wrapping at the top of the page.
pub open spec fn prev_cursor(sel: nat, len: nat) -> nat {
    if len == 0 {
        sel
    } else if sel > 0 {
        (sel - 1) as nat
    } else {
        (len - 1) as nat
    }
}

/// A mark set with one identifier toggled.
pub open spec fn toggle_spec(s: Set<Seq<char>>, x: Seq<char>) -> Set<Seq<char>> {
    if s.contains(x) {
        s.remove(x)
    } else {
        s.insert(x)
    }
}

impl CliMonitor {
    /// The marked identifiers, in insertion order.
    pub open spec fn marks_seq(&self) -> Seq<Seq<char>> {
        string_views(self.item_hash_set@)
    }

    /// The set of marked identifiers.
    pub open spec fn marks(&self) -> Set<Seq<char>> {
        self.marks_seq().to_set()
    }

    /// No identifier is marked twice.
    pub open spec fn marks_unique(&self) -> bool {
        self.marks_seq().no_duplicates()
    }

    /// The cursor stays inside the loaded page; it rests at zero when the
    /// page is empty.
    pub open spec fn cursor_ok(&self, n: nat) -> bool {
        if n == 0 {
            self.selected == 0
        } else {
            (self.selected as nat) < n
        }
    }

    /// Well-formedness that does not depend on the loaded page.
    pub open spec fn wf(&self) -> bool {
        &&& self.marks_unique()
        &&& (self.on_modal ==> !(self.current_modal is Closed))
    }

    /// The full invariant against a page of `n` rows.
    pub open spec fn inv(&self, n: nat) -> bool {
        self.wf() && self.cursor_ok(n)
    }

    /// All fields besides the mark list agree.
    pub open spec fn same_but_marks(&self, other: &CliMonitor) -> bool {
        &&& self.selected == other.selected
        &&& self.on_modal == other.on_modal
        &&& self.current_modal == other.current_modal
        &&& self.error == other.error
        &&& self.is_on_error == other.is_on_error
        &&& self.is_adding_selected == other.is_adding_selected
    }

    /// A fresh monitor: cursor at the top, nothing marked, no modal, no
    /// banner.
    pub fn new() -> (r: Self)
        ensures
            r.selected == 0,
            !r.on_modal,
            r.current_modal is Closed,
            r.error is Inactive,
            !r.is_on_error,
            !r.is_adding_selected,
            r.item_hash_set@.len() == 0,
            r.marks() == Set::<Seq<char>>::empty(),
            r.wf(),
    {
        let r = Self {
            selected: 0,
            on_modal: false,
            current_modal: Modal::Closed,
            error: MonitorError::Inactive,
            is_on_error: false,
            is_adding_selected: false,
            item_hash_set: Vec::new(),
        };
        proof {
            assert(r.marks_seq() =~= Seq::<Seq<char>>::empty());
            assert(r.marks() =~= Set::<Seq<char>>::empty());
        }
        r
    }

    /// Opens a modal; the rest of the state is untouched.
    pub fn set_modal(&mut self, modal: Modal)
        requires
            !(modal is Closed),
        ensures
            final(self).on_modal,
            final(self).current_modal == modal,
            final(self).selected == old(self).selected,
            final(self).error == old(self).error,
            final(self).is_on_error == old(self).is_on_error,
            final(self).is_adding_selected == old(self).is_adding_selected,
            final(self).item_hash_set == old(self).item_hash_set,
    {
        self.on_modal = true;
        self.current_modal = modal;
    }

    /// The position of an identifier in the mark list, if it is marked.
    fn find_mark(&self, id: &String) -> (r: Option<usize>)
        ensures
            r matches Some(i) ==> i < self.item_hash_set@.len() && self.marks_seq()[i as int]
                == id@,
            r is None ==> !self.marks_seq().contains(id@),
    {
        let n = self.item_hash_set.len();
        let mut i: usize = 0;
        while i < n
            invariant
                i <= n == self.item_hash_set@.len(),
                forall|k: int| 0 <= k < i ==> self.marks_seq()[k] != id@,
            decreases n - i,
        {
            if self.item_hash_set[i] == *id {
                return Some(i);
            }
            i += 1;
        }
        None
    }

    /// Whether an identifier is currently marked.
    pub fn has_mark(&self, id: &String) -> (r: bool)
        ensures
            r == self.marks().contains(id@),
    {
        match self.find_mark(id) {
            Some(i) => {
                proof {
                    assert(self.marks_seq()[i as int] == id@);
                    assert(self.marks_seq().contains(id@));
                }
                true
            },
            Option::None => false,
        }
    }

    /// Marks an identifier if it is unmarked, and unmarks it otherwise.
    pub fn toggle_mark(&mut self, id: &String)
        requires
            old(self).marks_unique(),
        ensures
            final(self).marks_unique(),
            final(self).marks() == toggle_spec(old(self).marks(), id@),
            old(self).marks().contains(id@) ==> final(self).marks_seq().len() == old(
                self,
            ).marks_seq().len() - 1,
            !old(self).marks().contains(id@) ==> final(self).marks_seq().len() == old(
                self,
            ).marks_seq().len() + 1,
            final(self).same_but_marks(old(self)),
    {
        let ghost v0 = self.marks_seq();
        match self.find_mark(id) {
            Some(i) => {
                self.item_hash_set.remove(i);
                proof {
                    assert(self.marks_seq() =~= v0.remove(i as int));
                    lemma_remove_to_set(v0, i as int);
                    assert(v0.contains(id@));
                    assert(self.marks() =~= toggle_spec(old(self).marks(), id@));
                }
            },
            Option::None => {
                self.item_hash_set.push(id.clone());
                proof {
                    assert(self.marks_seq() =~= v0.push(id@));
                    lemma_push_to_set(v0, id@);
                    assert(!v0.contains(id@));
                    assert(self.marks() =~= toggle_spec(old(self).marks(), id@));
                    assert(self.marks_seq().no_duplicates());
                }
            },
        }
    }

    /// Marks an identifier; marking a marked identifier changes nothing.
    fn add_mark(&mut self, id: &String)
        requires
            old(self).marks_unique(),
        ensures
            final(self).marks_unique(),
            final(self).marks() == old(self).marks().insert(id@),
            final(self).marks_seq().len() > 0,
            final(self).same_but_marks(old(self)),
    {
        let ghost v0 = self.marks_seq();
        match self.find_mark(id) {
            Some(i) => {
                proof {
                    assert(v0.contains(id@));
                    assert(v0.to_set().contains(id@));
                    assert(self.marks() =~= old(self).marks().insert(id@));
                }
            },
            Option::None => {
                self.item_hash_set.push(id.clone());
                proof {
                    assert(self.marks_seq() =~= v0.push(id@));
                    lemma_push_to_set(v0, id@);
                    assert(self.marks_seq().no_duplicates());
                }
            },
        }
    }

    /// Unmarks everything; the rest of the state is untouched.
    pub fn clear_marks(&mut self)
        ensures
            final(self).item_hash_set@.len() == 0,
            final(self).marks() == Set::<Seq<char>>::empty(),
            final(self).marks_unique(),
            final(self).same_but_marks(old(self)),
    {
        self.item_hash_set.clear();
        proof {
            assert(self.marks_seq() =~= Seq::<Seq<char>>::empty());
            assert(self.marks() =~= Set::<Seq<char>>::empty());
        }
    }

    /// Enters multi-select mode, marking the cursor-selected row; on an
    /// empty page only the mode changes.
    pub fn enter_multi_select(&mut self, entries: &Vec<Entry>)
        requires
            old(self).inv(entries@.len()),
            !old(self).is_adding_selected,
        ensures
            final(self).inv(entries@.len()),
            final(self).is_adding_selected,
            entries@.len() > 0 ==> final(self).marks() == old(self).marks().insert(
                entries@[old(self).selected as int].id@,
            ),
            entries@.len() > 0 && old(self).marks_seq().len() == 0 ==> final(self).marks()
                == set![entries@[old(self).selected as int].id@],
            entries@.len() > 0 ==> final(self).marks_seq().len() > 0,
            entries@.len() == 0 ==> final(self).item_hash_set == old(self).item_hash_set,
            final(self).selected == old(self).selected,
            final(self).on_modal == old(self).on_modal,
            final(self).current_modal == old(self).current_modal,
            final(self).error == old(self).error,
            final(self).is_on_error == old(self).is_on_error,
    {
        if entries.len() > 0 {
            let id = entries[self.selected].id.clone();
            self.add_mark(&id);
            proof {
                if old(self).marks_seq().len() == 0 {
                    assert(old(self).marks() =~= Set::<Seq<char>>::empty());
                    assert(old(self).marks().insert(id@) =~= set![
                        entries@[old(self).selected as int].id@,
                    ]);
                }
            }
        }
        self.is_adding_selected = true;
    }

    /// Leaves multi-select mode; all marks are cleared, whatever they were.
    pub fn exit_multi_select(&mut self)
        ensures
            !final(self).is_adding_selected,
            final(self).marks() == Set::<Seq<char>>::empty(),
            final(self).marks_seq().len() == 0,
            final(self).marks_unique(),
            final(self).selected == old(self).selected,
            final(self).on_modal == old(self).on_modal,
            final(self).current_modal == old(self).current_modal,
            final(self).error == old(self).error,
            final(self).is_on_error == old(self).is_on_error,
    {
        self.clear_marks();
        self.is_adding_selected = false;
    }

    /// Moves the cursor one row down, wrapping at the end of the page; in
    /// multi-select mode the row being left has its mark toggled. On an
    /// empty page nothing changes.
    pub fn cursor_down(&mut self, entries: &Vec<Entry>)
        requires
            old(self).inv(entries@.len()),
        ensures
            final(self).inv(entries@.len()),
            final(self).selected == next_cursor(old(self).selected as nat, entries@.len()),
            final(self).on_modal == old(self).on_modal,
            final(self).current_modal == old(self).current_modal,
            final(self).error == old(self).error,
            final(self).is_on_error == old(self).is_on_error,
            final(self).is_adding_selected == old(self).is_adding_selected,
            entries@.len() > 0 && old(self).is_adding_selected ==> final(self).marks()
                == toggle_spec(old(self).marks(), entries@[old(self).selected as int].id@),
            !(entries@.len() > 0 && old(self).is_adding_selected) ==> final(self).item_hash_set
                == old(self).item_hash_set,
    {
        if entries.len() == 0 {
            return ;
        }
        let left = entries[self.selected].id.clone();
        self.selected = if self.selected + 1 < entries.len() {
            self.selected + 1
        } else {
            0
        };
        if self.is_adding_selected {
            self.toggle_mark(&left);
        }
    }

    /// Moves the cursor one row up, wrapping at the top of the page; in
    /// multi-select mode the row being left has its mark toggled. On an
    /// empty page nothing changes.
    pub fn cursor_up(&mut self, entries: &Vec<Entry>)
        requires
            old(self).inv(entries@.len()),
        ensures
            final(self).inv(entries@.len()),
            final(self).selected == prev_cursor(old(self).selected as nat, entries@.len()),
            final(self).on_modal == old(self).on_modal,
            final(self).current_modal == old(self).current_modal,
            final(self).error == old(self).error,
            final(self).is_on_error == old(self).is_on_error,
            final(self).is_adding_selected == old(self).is_adding_selected,
            entries@.len() > 0 && old(self).is_adding_selected ==> final(self).marks()
                == toggle_spec(old(self).marks(), entries@[old(self).selected as int].id@),
            !(entries@.len() > 0 && old(self).is_adding_selected) ==> final(self).item_hash_set
                == old(self).item_hash_set,
    {
        if entries.len() == 0 {
            return ;
        }
        let left = entries[self.selected].id.clone();
        self.selected = if self.selected > 0 {
            self.selected - 1
        } else {
            entries.len() - 1
        };
        if self.is_adding_selected {
            self.toggle_mark(&left);
        }
    }
}

/// Appending an element to a sequence inserts it into the element set, and
/// keeps the sequence duplicate-free when it was absent.
proof fn lemma_push_to_set<A>(v: Seq<A>, x: A)
    ensures
        v.push(x).to_set() =~= v.to_set().insert(x),
        v.no_duplicates() && !v.contains(x) ==> v.push(x).no_duplicates(),
{
    assert forall|y: A| #[trigger] v.push(x).to_set().contains(y) implies v.to_set().insert(
        x,
    ).contains(y) by {
        let i = choose|i: int| 0 <= i < v.push(x).len() && v.push(x)[i] == y;
        if i < v.len() {
            assert(v[i] == y);
        }
    }
    assert forall|y: A| #[trigger] v.to_set().insert(x).contains(y) implies v.push(
        x,
    ).to_set().contains(y) by {
        if y == x {
            assert(v.push(x)[v.len() as int] == y);
        } else {
            let i = choose|i: int| 0 <= i < v.len() && v[i] == y;
            assert(v.push(x)[i] == y);
        }
    }
}

/// Removing the element at one position of a duplicate-free sequence
/// removes exactly that element from the element set.
proof fn lemma_remove_to_set<A>(v: Seq<A>, i: int)
    requires
        0 <= i < v.len(),
        v.no_duplicates(),
    ensures
        v.remove(i).to_set() =~= v.to_set().remove(v[i]),
        v.remove(i).no_duplicates(),
{
    assert forall|y: A| #[trigger] v.remove(i).to_set().contains(y) implies v.to_set().remove(
        v[i],
    ).contains(y) by {
        let k = choose|k: int| 0 <= k < v.remove(i).len() && v.remove(i)[k] == y;
        if k < i {
            assert(v[k] == y);
        } else {
            assert(v[k + 1] == y);
        }
    }
    assert forall|y: A| #[trigger] v.to_set().remove(v[i]).contains(y) implies v.remove(
        i,
    ).to_set().contains(y) by {
        let k = choose|k: int| 0 <= k < v.len() && v[k] == y;
        if k < i {
            assert(v.remove(i)[k] == y);
        } else {
            assert(k != i);
            assert(v.remove(i)[k - 1] == y);
        }
    }
    assert forall|p: int, q: int|
        0 <= p < v.remove(i).len() && 0 <= q < v.remove(i).len() && p != q implies v.remove(i)[p]
        != v.remove(i)[q] by {
        let p0 = if p < i {
            p
        } else {
            p + 1
        };
        let q0 = if q < i {
            q
        } else {
            q + 1
        };
        assert(v.remove(i)[p] == v[p0]);
        assert(v.remove(i)[q] == v[q0]);
    }
}

/// The identifiers an action applies to: the marks when any exist, else the
/// cursor-selected row's identifier alone.
pub open spec fn effective_targets(m: CliMonitor, entries: Seq<Entry>) -> Seq<Seq<char>> {
    if m.marks_seq().len() > 0 {
        m.marks_seq()
    } else {
        seq![entries[m.selected as int].id@]
    }
}

/// The set of identifiers an action applies to.
pub open spec fn effective_target_set(m: CliMonitor, entries: Seq<Entry>) -> Set<Seq<char>> {
    effective_targets(m, entries).to_set()
}

/// The identifiers the next bulk action applies to, as a list: the marks in
/// insertion order when any exist, else the cursor-selected row's
/// identifier alone.
pub fn selected_hashs_to_vec(monitor: &CliMonitor, entries: &Vec<Entry>) -> (r: Vec<String>)
    requires
        monitor.item_hash_set@.len() > 0 || (entries@.len() > 0 && (monitor.selected as nat)
            < entries@.len()),
    ensures
        string_views(r@) == effective_targets(*monitor, entries@),
        r@.len() > 0,
{
    let mut hash_vec: Vec<String> = Vec::new();
    let n = monitor.item_hash_set.len();
    let mut i: usize = 0;
    while i < n
        invariant
            i <= n == monitor.item_hash_set@.len(),
            hash_vec@ == monitor.item_hash_set@.take(i as int),
        decreases n - i,
    {
        hash_vec.push(monitor.item_hash_set[i].clone());
        proof {
            assert(hash_vec@ =~= monitor.item_hash_set@.take(i + 1));
        }
        i += 1;
    }
    proof {
        assert(hash_vec@ =~= monitor.item_hash_set@);
    }
    if hash_vec.len() == 0 {
        hash_vec.push(entries[monitor.selected].id.clone());
        proof {
            assert(string_views(hash_vec@) =~= seq![entries@[monitor.selected as int].id@]);
        }
    } else {
        proof {
            assert(string_views(hash_vec@) =~= monitor.marks_seq());
        }
    }
    hash_vec
}

/// The target list is exactly the mark set when marks exist, else exactly
/// the singleton of the cursor-selected row's identifier — for every
/// combination of mark set and cursor.
pub proof fn lemma_effective_target_set(m: CliMonitor, entries: Seq<Entry>)
    ensures
        m.marks_seq().len() > 0 ==> effective_target_set(m, entries) == m.marks(),
        m.marks_seq().len() == 0 ==> effective_target_set(m, entries) == set![
            entries[m.selected as int].id@,
        ],
{
    if m.marks_seq().len() == 0 {
        let x = entries[m.selected as int].id@;
        assert(seq![x][0] == x);
        assert(seq![x].to_set() =~= set![x]);
    }
}

/// Whether a bulk action has a target: some mark, or some row under the
/// cursor.
pub open spec fn can_target(m: CliMonitor, entries: Seq<Entry>) -> bool {
    m.marks_seq().len() > 0 || entries.len() > 0
}

/// Keys that acknowledge the error banner.
pub open spec fn is_ack_key(key: Key) -> bool {
    (key matches Key::Char(c) && c == 'q') || key is Esc || key is Enter
}

/// The modal, selection and banner machinery agrees between two states.
pub open spec fn same_core(a: &CliMonitor, b: &CliMonitor) -> bool {
    &&& a.on_modal == b.on_modal
    &&& a.current_modal == b.current_modal
    &&& a.is_adding_selected == b.is_adding_selected
    &&& a.item_hash_set == b.item_hash_set
}

/// One cursor move, down or up, with the multi-select auto-toggle of the
/// row being left.
pub open spec fn moved_ok(m0: CliMonitor, m1: CliMonitor, entries: Seq<Entry>, down: bool) -> bool {
    &&& m1.selected == (if down {
        next_cursor(m0.selected as nat, entries.len())
    } else {
        prev_cursor(m0.selected as nat, entries.len())
    })
    &&& m1.on_modal == m0.on_modal
    &&& m1.current_modal == m0.current_modal
    &&& m1.error == m0.error
    &&& m1.is_on_error == m0.is_on_error
    &&& m1.is_adding_selected == m0.is_adding_selected
    &&& (if entries.len() > 0 && m0.is_adding_selected {
        m1.marks() == toggle_spec(m0.marks(), entries[m0.selected as int].id@)
    } else {
        m1.item_hash_set == m0.item_hash_set
    })
}

/// A modal was opened; everything else is untouched.
pub open spec fn opened_modal(m0: CliMonitor, m1: CliMonitor, modal: Modal) -> bool {
    &&& m1.on_modal
    &&& m1.current_modal == modal
    &&& m1.selected == m0.selected
    &&& m1.error == m0.error
    &&& m1.is_on_error == m0.is_on_error
    &&& m1.is_adding_selected == m0.is_adding_selected
    &&& m1.item_hash_set == m0.item_hash_set
}

/// The mark of one identifier was toggled; everything else is untouched.
pub open spec fn marks_toggled(m0: CliMonitor, m1: CliMonitor, id: Seq<char>) -> bool {
    &&& m1.marks() == toggle_spec(m0.marks(), id)
    &&& m1.same_but_marks(&m0)
}

/// Every mark was dropped; everything else is untouched.
pub open spec fn marks_cleared(m0: CliMonitor, m1: CliMonitor) -> bool {
    &&& m1.item_hash_set@.len() == 0
    &&& m1.same_but_marks(&m0)
}

/// Multi-select mode was toggled: entering marks the cursor row, leaving
/// clears every mark, whatever it held — the asymmetry is the documented
/// interaction contract.
pub open spec fn multi_select_toggled(m0: CliMonitor, m1: CliMonitor, entries: Seq<Entry>) -> bool {
    &&& m1.selected == m0.selected
    &&& m1.on_modal == m0.on_modal
    &&& m1.current_modal == m0.current_modal
    &&& m1.error == m0.error
    &&& m1.is_on_error == m0.is_on_error
    &&& (if m0.is_adding_selected {
        !m1.is_adding_selected && m1.marks_seq().len() == 0
    } else {
        &&& m1.is_adding_selected
        &&& (entries.len() > 0 ==> m1.marks() == m0.marks().insert(
            entries[m0.selected as int].id@,
        ))
        &&& (entries.len() == 0 ==> m1.item_hash_set == m0.item_hash_set)
    })
}

/// One dispatched key while a modal is open. The delete confirmation is
/// single-step; the detail view closes on any key; the compose editor
/// follows `message_keys`. Marks, cursor and banner are untouched, and
/// every modal key is followed by a refresh, a delete-then-refresh, or a
/// send-then-refresh.
pub open spec fn modal_route_ok(
    m0: CliMonitor,
    m1: CliMonitor,
    entries: Seq<Entry>,
    b0: Seq<char>,
    b1: Seq<char>,
    key: Key,
    quit: bool,
    a: Action,
) -> bool {
    &&& !quit
    &&& m1.selected == m0.selected
    &&& m1.is_adding_selected == m0.is_adding_selected
    &&& m1.item_hash_set == m0.item_hash_set
    &&& m1.error == m0.error
    &&& m1.is_on_error == m0.is_on_error
    &&& match m0.current_modal {
        Modal::Delete => {
            &&& b1 == b0
            &&& !m1.on_modal
            &&& m1.current_modal is Closed
            &&& (if (key matches Key::Char(c) && c == 's') && can_target(m0, entries) {
                a matches Action::Delete(ids) && string_views(ids@) == effective_targets(
                    m0,
                    entries,
                )
            } else {
                a is Refresh
            })
        },
        Modal::Info => {
            &&& b1 == b0
            &&& !m1.on_modal
            &&& m1.current_modal is Closed
            &&& a is Refresh
        },
        Modal::SendMsg => match key {
            Key::Char(c) => m1.on_modal && m1.current_modal is SendMsg && b1
                == buffer_after_typing(b0, seq![c]) && a is Refresh,
            Key::Backspace => m1.on_modal && m1.current_modal is SendMsg && b1
                == buffer_after_backspaces(b0, 1) && a is Refresh,
            Key::Enter => {
                &&& !m1.on_modal
                &&& m1.current_modal is Closed
                &&& b1.len() == 0
                &&& (if can_target(m0, entries) {
                    a matches Action::Send(ids, text) && string_views(ids@) == effective_targets(
                        m0,
                        entries,
                    ) && text@ == b0
                } else {
                    a is Refresh
                })
            },
            Key::Esc => !m1.on_modal && m1.current_modal is Closed && b1.len() == 0 && a
                is Refresh,
            _ => m1.on_modal && m1.current_modal is SendMsg && b1 == b0 && a is Refresh,
        },
        Modal::Closed => true,
    }
}

/// One dispatched key while the error banner is up: an acknowledging key
/// clears it, any other key does nothing; no remote action either way.
pub open spec fn banner_route_ok(
    m0: CliMonitor,
    m1: CliMonitor,
    b0: Seq<char>,
    b1: Seq<char>,
    key: Key,
    quit: bool,
    a: Action,
) -> bool {
    &&& !quit
    &&& a is Idle
    &&& b1 == b0
    &&& (if is_ack_key(key) {
        &&& !m1.is_on_error
        &&& m1.error is Inactive
        &&& !m1.on_modal
        &&& m1.current_modal == m0.current_modal
        &&& m1.selected == m0.selected
        &&& m1.is_adding_selected == m0.is_adding_selected
        &&& m1.item_hash_set == m0.item_hash_set
    } else {
        m1 == m0
    })
}

/// One dispatched key with no modal and no banner: quit, navigation with
/// wraparound, page changes, manual refresh, mark editing, multi-select
/// toggling, and the three modal-opening keys, each guarded so that an
/// empty page never indexes a row.
pub open spec fn normal_route_ok(
    m0: CliMonitor,
    m1: CliMonitor,
    entries: Seq<Entry>,
    p0: u32,
    p1: u32,
    b0: Seq<char>,
    b1: Seq<char>,
    key: Key,
    quit: bool,
    a: Action,
) -> bool {
    &&& b1 == b0
    &&& match key {
        Key::Char(c) => {
            &&& p1 == p0
            &&& (if c == 'q' {
                quit && m1 == m0 && a is Idle
            } else if c == 'a' {
                !quit && m1 == m0 && a is Refresh
            } else if c == 'd' {
                !quit && a is Idle && (if can_target(m0, entries) {
                    opened_modal(m0, m1, Modal::Delete)
                } else {
                    m1 == m0
                })
            } else if c == 'm' {
                !quit && a is Idle && (if can_target(m0, entries) {
                    opened_modal(m0, m1, Modal::SendMsg)
                } else {
                    m1 == m0
                })
            } else if c == 'M' {
                !quit && a is Idle && (if entries.len() > 0 {
                    opened_modal(m0, m1, Modal::Info)
                } else {
                    m1 == m0
                })
            } else if c == 'e' {
                !quit && a is Idle && (if entries.len() > 0 {
                    marks_toggled(m0, m1, entries[m0.selected as int].id@)
                } else {
                    m1 == m0
                })
            } else if c == 'E' {
                !quit && a is Idle && marks_cleared(m0, m1)
            } else {
                !quit && m1 == m0 && a is Idle
            })
        },
        Key::Down => !quit && p1 == p0 && a is Idle && moved_ok(m0, m1, entries, true),
        Key::Up => !quit && p1 == p0 && a is Idle && moved_ok(m0, m1, entries, false),
        Key::Right => !quit && m1 == m0 && a is Refresh && p1 == (if p0 < u32::MAX {
            p0 + 1
        } else {
            0
        }),
        Key::Left => !quit && m1 == m0 && (if p0 > 0 {
            p1 == p0 - 1 && a is Refresh
        } else {
            p1 == p0 && a is Idle
        }),
        Key::Tab => !quit && p1 == p0 && a is Idle && multi_select_toggled(m0, m1, entries),
        _ => !quit && m1 == m0 && p1 == p0 && a is Idle,
    }
}

/// Dispatches one keyboard event: to the open modal first, else to the
/// error banner, else to the normal navigation and action handlers — three
/// mutually exclusive routes in that fixed priority order. Returns whether
/// the operator asked to quit, and the remote action the caller must
/// perform next.
pub fn user_key_input(
    monitor: &mut CliMonitor,
    entries: &Vec<Entry>,
    page: &mut u32,
    input_buffer: &mut String,
    key: &Key,
) -> (r: (bool, Action))
    requires
        old(monitor).inv(entries@.len()),
    ensures
        final(monitor).inv(entries@.len()),
        old(monitor).on_modal ==> modal_route_ok(
            *old(monitor),
            *final(monitor),
            entries@,
            old(input_buffer)@,
            final(input_buffer)@,
            *key,
            r.0,
            r.1,
        ) && *final(page) == *old(page),
        !old(monitor).on_modal && old(monitor).is_on_error ==> banner_route_ok(
            *old(monitor),
            *final(monitor),
            old(input_buffer)@,
            final(input_buffer)@,
            *key,
            r.0,
            r.1,
        ) && *final(page) == *old(page),
        !old(monitor).on_modal && !old(monitor).is_on_error ==> normal_route_ok(
            *old(monitor),
            *final(monitor),
            entries@,
            *old(page),
            *final(page),
            old(input_buffer)@,
            final(input_buffer)@,
            *key,
            r.0,
            r.1,
        ),
{
    if monitor.on_modal {
        let mut action = Action::Refresh;
        match monitor.current_modal {
            Modal::Delete => {
                let confirm = confirm_del_modal(key);
                if confirm && (monitor.item_hash_set.len() > 0 || entries.len() > 0) {
                    let items = selected_hashs_to_vec(monitor, entries);
                    action = Action::Delete(items);
                }
                monitor.on_modal = false;
                monitor.current_modal = Modal::Closed;
            },
            Modal::Info => {
                let stay = more_info_keys(key);
                monitor.on_modal = stay;
                monitor.current_modal = Modal::Closed;
            },
            Modal::SendMsg => {
                match message_keys(key, input_buffer) {
                    ComposeStep::Stay => {},
                    ComposeStep::Close => {
                        monitor.on_modal = false;
                        monitor.current_modal = Modal::Closed;
                    },
                    ComposeStep::Send(text) => {
                        monitor.on_modal = false;
                        monitor.current_modal = Modal::Closed;
                        if monitor.item_hash_set.len() > 0 || entries.len() > 0 {
                            let items = selected_hashs_to_vec(monitor, entries);
                            action = Action::Send(items, text);
                        }
                    },
                }
            },
            Modal::Closed => {},
        }
        (false, action)
    } else if monitor.is_on_error {
        let ack = match key {
            Key::Char(c) => *c == 'q',
            Key::Esc => true,
            Key::Enter => true,
            _ => false,
        };
        if ack {
            monitor.is_on_error = false;
            monitor.on_modal = false;
            monitor.error = MonitorError::Inactive;
        }
        (false, Action::Idle)
    } else {
        match key {
            Key::Char(c) => {
                if *c == 'q' {
                    (true, Action::Idle)
                } else if *c == 'a' {
                    (false, Action::Refresh)
                } else if *c == 'd' {
                    if monitor.item_hash_set.len() > 0 || entries.len() > 0 {
                        monitor.set_modal(Modal::Delete);
                    }
                    (false, Action::Idle)
                } else if *c == 'm' {
                    if monitor.item_hash_set.len() > 0 || entries.len() > 0 {
                        monitor.set_modal(Modal::SendMsg);
                    }
                    (false, Action::Idle)
                } else if *c == 'M' {
                    if entries.len() > 0 {
                        monitor.set_modal(Modal::Info);
                    }
                    (false, Action::Idle)
                } else if *c == 'e' {
                    if entries.len() > 0 {
                        let id = entries[monitor.selected].id.clone();
                        monitor.toggle_mark(&id);
                    }
                    (false, Action::Idle)
                } else if *c == 'E' {
                    monitor.clear_marks();
                    (false, Action::Idle)
                } else {
                    (false, Action::Idle)
                }
            },
            Key::Down => {
                monitor.cursor_down(entries);
                (false, Action::Idle)
            },
            Key::Up => {
                monitor.cursor_up(entries);
                (false, Action::Idle)
            },
            Key::Right => {
                if *page < u32::MAX {
                    *page = *page + 1;
                } else {
                    *page = 0;
                }
                (false, Action::Refresh)
            },
            Key::Left => {
                if *page > 0 {
                    *page = *page - 1;
                    (false, Action::Refresh)
                } else {
                    (false, Action::Idle)
                }
            },
            Key::Tab => {
                if monitor.is_adding_selected {
                    monitor.exit_multi_select();
                } else {
                    monitor.enter_multi_select(entries);
                }
                (false, Action::Idle)
            },
            _ => (false, Action::Idle),
        }
    }
}

/// The send-failure banner was raised with a message; marks, cursor and
/// modal machinery are untouched.
pub open spec fn banner_raised(m0: CliMonitor, m1: CliMonitor, msg: Seq<char>) -> bool {
    &&& m1.is_on_error
    &&& (m1.error matches MonitorError::SendMsgError(s) && s@ == msg)
    &&& m1.selected == m0.selected
    &&& same_core(&m1, &m0)
}

/// Applies the outcome of a message send: a non-empty server message, and
/// any transport or parse failure, raises the error banner; a silent
/// success changes nothing.
pub fn apply_send_result(monitor: &mut CliMonitor, resp: Result<MessageResponse, APIError>)
    ensures
        resp matches Ok(m) ==> (if server_message(m).len() == 0 {
            *final(monitor) == *old(monitor)
        } else {
            banner_raised(*old(monitor), *final(monitor), server_message(m))
        }),
        resp matches Err(e) ==> banner_raised(*old(monitor), *final(monitor), e.spec_message()),
{
    match resp {
        Ok(m) => match m.message {
            Some(msg) => {
                if !msg.as_str().is_empty() {
                    monitor.error = MonitorError::SendMsgError(msg);
                    monitor.is_on_error = true;
                }
            },
            Option::None => {},
        },
        Err(e) => {
            let text = e.message();
            monitor.error = MonitorError::SendMsgError(text);
            monitor.is_on_error = true;
        },
    }
}

/// Applies the outcome of a page fetch: a fresh page replaces the entries
/// wholesale and the cursor is clamped into it; a failure leaves the
/// entries and the cursor untouched and raises the banner, so that a
/// failed refresh never blanks the screen.
pub fn apply_refresh(
    monitor: &mut CliMonitor,
    entries: &mut Vec<Entry>,
    fetched: Result<Vec<Entry>, APIError>,
)
    requires
        old(monitor).inv(old(entries)@.len()),
    ensures
        final(monitor).inv(final(entries)@.len()),
        fetched matches Ok(v) ==> ({
            &&& final(entries)@ == v@
            &&& final(monitor).selected == (if (old(monitor).selected as nat) < v@.len() {
                old(monitor).selected as nat
            } else {
                0
            })
            &&& final(monitor).error == old(monitor).error
            &&& final(monitor).is_on_error == old(monitor).is_on_error
            &&& same_core(final(monitor), old(monitor))
        }),
        fetched matches Err(e) ==> ({
            &&& *final(entries) == *old(entries)
            &&& final(monitor).selected == old(monitor).selected
            &&& final(monitor).is_on_error
            &&& (final(monitor).error matches MonitorError::RefreshError(s) && s@
                == e.spec_message())
            &&& same_core(final(monitor), old(monitor))
        }),
{
    match fetched {
        Ok(v) => {
            *entries = v;
            if !(monitor.selected < entries.len()) {
                monitor.selected = 0;
            }
        },
        Err(e) => {
            let text = e.message();
            monitor.error = MonitorError::RefreshError(text);
            monitor.is_on_error = true;
        },
    }
}

/// The action a background tick demands: a page refresh, or a renewal of
/// the session token.
pub fn tick_action(event: &TimerEvent) -> (a: Action)
    ensures
        event is Refresh ==> a is Refresh,
        event is Every30Min ==> a is RenewToken,
{
    match event {
        TimerEvent::Refresh => Action::Refresh,
        TimerEvent::Every30Min => Action::RenewToken,
    }
}

/// How one table row is styled: the cursor row is highlighted, a marked
/// row is tinted, every other row is plain.
pub enum RowHighlight {
    Cursor,
    Marked,
    Plain,
}

/// The styling decision for the row at `index` holding identifier `id`.
pub fn row_highlight(monitor: &CliMonitor, index: usize, id: &String) -> (r: RowHighlight)
    ensures
        index == monitor.selected ==> r is Cursor,
        index != monitor.selected && monitor.marks().contains(id@) ==> r is Marked,
        index != monitor.selected && !monitor.marks().contains(id@) ==> r is Plain,
{
    if index == monitor.selected {
        RowHighlight::Cursor
    } else if monitor.has_mark(id) {
        RowHighlight::Marked
    } else {
        RowHighlight::Plain
    }
}

/// The cursor after a sequence of down (`true`) and up (`false`) moves.
pub open spec fn cursor_after_moves(sel: nat, len: nat, moves: Seq<bool>) -> nat
    decreases moves.len(),
{
    if moves.len() == 0 {
        sel
    } else {
        let s1 = if moves[0] {
            next_cursor(sel, len)
        } else {
            prev_cursor(sel, len)
        };
        cursor_after_moves(s1, len, moves.drop_first())
    }
}

/// After any sequence of up and down moves the cursor is still a valid
/// index into a non-empty page, and still rests at zero on an empty page.
pub proof fn lemma_cursor_in_range_after_moves(sel: nat, len: nat, moves: Seq<bool>)
    requires
        len > 0 ==> sel < len,
        len == 0 ==> sel == 0,
    ensures
        len > 0 ==> cursor_after_moves(sel, len, moves) < len,
        len == 0 ==> cursor_after_moves(sel, len, moves) == 0,
    decreases moves.len(),
{
    if moves.len() > 0 {
        let s1 = if moves[0] {
            next_cursor(sel, len)
        } else {
            prev_cursor(sel, len)
        };
        lemma_cursor_in_range_after_moves(s1, len, moves.drop_first());
    }
}

} // verus!
