//! A list of conversations with an optional selected index, moved by the
//! arrow keys and committed with Enter.

use vstd::prelude::*;
use crate::conversation::ListEntry;
use crate::observer::Event;

verus! {

/// The selection after a move up in a list of `n` items. An empty list
/// keeps its selection; no selection becomes the first item; the first item
/// stays; any other index steps back by one, clamped into the list.
pub open spec fn moved_up(selected: Option<usize>, n: nat) -> Option<usize> {
    if n == 0 {
        selected
    } else {
        match selected {
            None => Some(0),
            Some(i) => if i == 0 {
                Some(0)
            } else if i - 1 < n {
                Some((i - 1) as usize)
            } else {
                Some((n - 1) as usize)
            },
        }
    }
}

/// The selection after a move down in a list of `n` items. An empty list
/// keeps its selection; no selection becomes the first item; any index
/// steps forward by one, clamped to the last item.
pub open spec fn moved_down(selected: Option<usize>, n: nat) -> Option<usize> {
    if n == 0 {
        selected
    } else {
        match selected {
            None => Some(0),
            Some(i) => if i + 1 < n {
                Some((i + 1) as usize)
            } else {
                Some((n - 1) as usize)
            },
        }
    }
}

/// The selection after a sequence of moves, `true` standing for a move up
/// and `false` for a move down.
pub open spec fn after_moves(selected: Option<usize>, n: nat, ups: Seq<bool>) -> Option<usize>
    decreases ups.len(),
{
    if ups.len() == 0 {
        selected
    } else {
        let before = after_moves(selected, n, ups.drop_last());
        if ups.last() {
            moved_up(before, n)
        } else {
            moved_down(before, n)
        }
    }
}

/// A selection that names an item of a list of `n` items, or nothing.
pub open spec fn selection_in_bounds(selected: Option<usize>, n: nat) -> bool {
    selected matches Some(i) ==> i < n
}

/// Whatever the moves, an empty list has no selection, and a non-empty list
/// has, after at least one move, a selected index inside it; a selection
/// inside the list stays inside.
pub proof fn lemma_moves_stay_in_bounds(selected: Option<usize>, n: nat, ups: Seq<bool>)
    requires
        n <= usize::MAX,
        n == 0 ==> selected is None,
    ensures
        n == 0 ==> after_moves(selected, n, ups) is None,
        n > 0 && ups.len() > 0 ==> (after_moves(selected, n, ups) matches Some(i) && i < n),
        selection_in_bounds(selected, n) ==> selection_in_bounds(after_moves(selected, n, ups), n),
    decreases ups.len(),
{
    if ups.len() > 0 {
        lemma_moves_stay_in_bounds(selected, n, ups.drop_last());
    }
}

/// Moving up from the first item and moving down from the last item change
/// nothing.
pub proof fn lemma_moves_at_the_ends(n: nat)
    requires
        0 < n <= usize::MAX,
    ensures
        moved_up(Some(0), n) == Some(0usize),
        moved_down(Some((n - 1) as usize), n) == Some((n - 1) as usize),
{
}

/// A list of items with an optional selected index. The index may point
/// past the end after the items are replaced; every use checks it again.
pub struct ConversationList<T> {
    pub conversation_list: Vec<T>,
    pub selected: Option<usize>,
}

impl<T> ConversationList<T> {
    /// An empty list has no selection.
    pub open spec fn wf(&self) -> bool {
        self.conversation_list@.len() == 0 ==> self.selected is None
    }

    /// A list with the given items and nothing selected.
    pub fn new(items: Vec<T>) -> (r: Self)
        ensures
            r.conversation_list == items,
            r.selected is None,
            r.wf(),
    {
        ConversationList { conversation_list: items, selected: None }
    }

    /// The number of items.
    pub fn len(&self) -> (r: usize)
        ensures
            r == self.conversation_list@.len(),
    {
        self.conversation_list.len()
    }

    /// Moves the selection one item up.
    pub fn move_up(&mut self)
        ensures
            final(self).conversation_list == old(self).conversation_list,
            final(self).selected == moved_up(
                old(self).selected,
                old(self).conversation_list@.len(),
            ),
            old(self).wf() ==> final(self).wf(),
    {
        let n = self.conversation_list.len();
        if n == 0 {
            return ;
        }
        match self.selected {
            None => {
                self.selected = Some(0);
            },
            Some(i) => {
                if i == 0 {
                } else if i - 1 < n {
                    self.selected = Some(i - 1);
                } else {
                    self.selected = Some(n - 1);
                }
            },
        }
    }

    /// Moves the selection one item down.
    pub fn move_down(&mut self)
        ensures
            final(self).conversation_list == old(self).conversation_list,
            final(self).selected == moved_down(
                old(self).selected,
                old(self).conversation_list@.len(),
            ),
            old(self).wf() ==> final(self).wf(),
    {
        let n = self.conversation_list.len();
        if n == 0 {
            return ;
        }
        match self.selected {
            None => {
                self.selected = Some(0);
            },
            Some(i) => {
                if i < n - 1 {
                    self.selected = Some(i + 1);
                } else {
                    self.selected = Some(n - 1);
                }
            },
        }
    }

    /// Drops the selection.
    pub fn clear_selection(&mut self)
        ensures
            final(self).conversation_list == old(self).conversation_list,
            final(self).selected is None,
            final(self).wf(),
    {
        self.selected = None;
    }

    /// Replaces the items wholesale. The selection is cleared when the new
    /// list is empty and otherwise kept as it was.
    pub fn replace_items(&mut self, items: Vec<T>)
        ensures
            final(self).conversation_list == items,
            final(self).selected == (if items@.len() == 0 {
                None
            } else {
                old(self).selected
            }),
            final(self).wf(),
    {
        if items.len() == 0 {
            self.selected = None;
        }
        self.conversation_list = items;
    }

    /// The selected index, where it names an item of the list.
    pub fn valid_selection(&self) -> (r: Option<usize>)
        ensures
            r == (if self.selected matches Some(i) && i < self.conversation_list@.len() {
                self.selected
            } else {
                None
            }),
    {
        match self.selected {
            Some(i) => if i < self.conversation_list.len() {
                Some(i)
            } else {
                None
            },
            None => None,
        }
    }
}

impl<T: ListEntry> ConversationList<T> {
    /// `r` is what a commit emits: a change to the selected item's key and
    /// label where the selection names an item, and nothing otherwise.
    pub open spec fn commits(&self, r: Option<Event>) -> bool {
        &&& (r is Some) == (self.selected matches Some(i) && i < self.conversation_list@.len())
        &&& r matches Some(Event::ChangeConversation { id, name }) ==> (self.selected matches Some(
            i,
        ) && id@ == self.conversation_list@[i as int].key_view() && name@
            == self.conversation_list@[i as int].label_view())
    }

    /// Commits the selection: the selected item's key and label as a change
    /// of conversation. Nothing is emitted when nothing is selected or the
    /// selected index lies past the end of the list.
    pub fn commit(&self) -> (r: Option<Event>)
        ensures
            self.commits(r),
    {
        match self.valid_selection() {
            Some(i) => {
                let item = &self.conversation_list[i];
                Some(Event::ChangeConversation { id: item.key(), name: item.label() })
            },
            None => None,
        }
    }

    /// The key of the selected item, where the selection names one.
    pub fn get_conversation_id(&self) -> (r: Option<String>)
        ensures
            (r is Some) == (self.selected matches Some(i) && i < self.conversation_list@.len()),
            r matches Some(id) ==> (self.selected matches Some(i) && id@
                == self.conversation_list@[i as int].key_view()),
    {
        match self.valid_selection() {
            Some(i) => Some(self.conversation_list[i].key()),
            None => None,
        }
    }
}

/// A commit on an empty list, or on a list with nothing selected, emits
/// no change of conversation.
pub proof fn lemma_commit_needs_selection<T: ListEntry>(l: ConversationList<T>, r: Option<Event>)
    requires
        l.commits(r),
        l.conversation_list@.len() == 0 || l.selected is None,
    ensures
        r is None,
{
}

} // verus!
