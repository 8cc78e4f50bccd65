//! The selectable-list navigation state machine: an ordered list of items, a
//! cursor, and a transition function from key events to cursor moves and an
//! emitted "select" payload.

use vstd::prelude::*;

verus! {

/// One selectable row: its position among its siblings at construction time
/// and its display label (an action name).
pub struct ListItem {
    pub id: usize,
    pub text: String,
}

impl ListItem {
    /// A row with the given position and label.
    pub fn new(id: usize, text: String) -> (r: Self)
        ensures
            r.id == id,
            r.text == text,
    {
        ListItem { id, text }
    }
}

/// An abstract key symbol. Which physical keys map to which symbol is the
/// host's concern.
#[derive(Clone, Copy, Debug, PartialEq, Eq, Structural)]
pub enum NavKey {
    /// Move the cursor towards the end of the list.
    Down,
    /// Move the cursor towards the start of the list.
    Up,
    /// Select the item under the cursor.
    Confirm,
    /// Any other input: a no-op.
    Other,
}

/// Where the cursor lands after one downward move, for a list of length
/// `len`. With wraparound the move past the last item lands on the first;
/// without it the cursor clamps at the last item.
pub open spec fn step_down(sel: int, len: int, wrap: bool) -> int {
    if sel + 1 < len {
        sel + 1
    } else if wrap {
        0
    } else {
        sel
    }
}

/// Where the cursor lands after one upward move, for a list of length `len`.
/// With wraparound the move before the first item lands on the last; without
/// it the cursor clamps at the first item.
pub open spec fn step_up(sel: int, len: int, wrap: bool) -> int {
    if sel > 0 {
        sel - 1
    } else if wrap {
        len - 1
    } else {
        0
    }
}

/// The navigation state: the list, the cursor, and the wraparound policy.
pub struct ListBoxState {
    pub items: Vec<ListItem>,
    pub selected: usize,
    pub wrap: bool,
}

impl ListBoxState {
    /// The cursor denotes an existing item whenever the list is non-empty.
    pub open spec fn wf(self) -> bool {
        self.items@.len() == 0 || self.selected < self.items@.len()
    }

    /// A list seeded from an ordered snapshot of names: item `i` carries id
    /// `i` and the `i`-th name, the cursor starts on the first item.
    pub fn new(names: Vec<String>, wrap: bool) -> (r: Self)
        ensures
            r.wf(),
            r.items@.len() == names@.len(),
            forall|i: int| 0 <= i < names@.len() ==> r.items@[i].id == i,
            forall|i: int| 0 <= i < names@.len() ==> r.items@[i].text == names@[i],
            r.selected == 0,
            r.wrap == wrap,
    {
        let n = names.len();
        let mut items: Vec<ListItem> = Vec::new();
        let mut i: usize = 0;
        while i < n
            invariant
                n == names@.len(),
                i <= n,
                items@.len() == i,
                forall|k: int| 0 <= k < i ==> items@[k].id == k,
                forall|k: int| 0 <= k < i ==> items@[k].text == names@[k],
            decreases n - i,
        {
            items.push(ListItem::new(i, names[i].clone()));
            i += 1;
        }
        ListBoxState { items, selected: 0, wrap }
    }

    /// Feeds one key event to the state machine. The list itself and the
    /// wraparound policy never change; on an empty list every key is a no-op.
    /// `Down` and `Up` move the cursor one step; `Confirm` leaves the state
    /// unchanged and returns the selected item's label as the "select"
    /// payload — the only case in which a payload is returned.
    pub fn on_key(&mut self, key: NavKey) -> (r: Option<String>)
        requires
            old(self).wf(),
        ensures
            final(self).wf(),
            final(self).items@ == old(self).items@,
            final(self).wrap == old(self).wrap,
            r is Some <==> (key is Confirm && old(self).items@.len() > 0),
            old(self).items@.len() == 0 ==> *final(self) == *old(self),
            old(self).items@.len() > 0 ==> match key {
                NavKey::Down => final(self).selected == step_down(
                    old(self).selected as int,
                    old(self).items@.len() as int,
                    old(self).wrap,
                ),
                NavKey::Up => final(self).selected == step_up(
                    old(self).selected as int,
                    old(self).items@.len() as int,
                    old(self).wrap,
                ),
                NavKey::Confirm => *final(self) == *old(self) && (r matches Some(p)
                    && p == old(self).items@[old(self).selected as int].text),
                NavKey::Other => *final(self) == *old(self),
            },
    {
        let len = self.items.len();
        if len == 0 {
            return None;
        }
        match key {
            NavKey::Down => {
                if self.selected + 1 < len {
                    self.selected = self.selected + 1;
                } else if self.wrap {
                    self.selected = 0;
                }
                None
            }
            NavKey::Up => {
                if self.selected > 0 {
                    self.selected = self.selected - 1;
                } else if self.wrap {
                    self.selected = len - 1;
                }
                None
            }
            NavKey::Confirm => Some(self.items[self.selected].text.clone()),
            NavKey::Other => None,
        }
    }
}

impl Default for ListBoxState {
    /// An empty list with wraparound enabled and the cursor at the start.
    fn default() -> (r: Self)
        ensures
            r.wf(),
            r.items@.len() == 0,
            r.selected == 0,
            r.wrap == true,
    {
        ListBoxState { items: Vec::new(), selected: 0, wrap: true }
    }
}

/// The cursor after `n` consecutive downward moves with wraparound enabled.
pub open spec fn down_steps(sel: int, len: int, n: nat) -> int
    decreases n,
{
    if n == 0 {
        sel
    } else {
        step_down(down_steps(sel, len, (n - 1) as nat), len, true)
    }
}

/// The cursor after `n` consecutive upward moves with wraparound enabled.
pub open spec fn up_steps(sel: int, len: int, n: nat) -> int
    decreases n,
{
    if n == 0 {
        sel
    } else {
        step_up(up_steps(sel, len, (n - 1) as nat), len, true)
    }
}

proof fn lemma_down_prefix(len: int, n: nat)
    requires
        0 < len,
        n <= len,
    ensures
        down_steps(0, len, n) == if n == len { 0int } else { n as int },
    decreases n,
{
    if n > 0 {
        lemma_down_prefix(len, (n - 1) as nat);
    }
}

proof fn lemma_up_prefix(len: int, n: nat)
    requires
        0 < len,
        n <= len,
    ensures
        up_steps(0, len, n) == if n == 0 || n == len { 0int } else { len - n },
    decreases n,
{
    if n > 0 {
        lemma_up_prefix(len, (n - 1) as nat);
    }
}

/// For a non-empty list of `len` items with wraparound enabled: starting at
/// the first item, `len` consecutive downward moves return to the first item,
/// and so do `len` consecutive upward moves.
pub proof fn lemma_wraparound_cycle(len: int)
    requires
        0 < len,
    ensures
        down_steps(0, len, len as nat) == 0,
        up_steps(0, len, len as nat) == 0,
{
    lemma_down_prefix(len, len as nat);
    lemma_up_prefix(len, len as nat);
}

} // verus!
