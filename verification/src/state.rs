//! Pure state of the interactive browser: the two lists, which of them is
//! in view, a case-insensitive filter, and a selection that moves over the
//! filtered rows.  Selection is held as a position in the current list.

use vstd::prelude::*;
use vstd::view::View as _;
use crate::clock::now_millis;
use crate::config::Config;
use crate::error::CoreError;
use crate::item::{Item, Status, clone_items};
use crate::orchestrate::{StatusUpdateResult, spec_update_status, update_item_status_at};
use crate::textops::{lower_of, lowercase, seq_contains, str_contains};

verus! {

/// Which list is on screen.
#[derive(Debug, Clone, Copy, PartialEq, Eq, Structural)]
pub enum View {
    Inbox,
    Archive,
}

/// The browser state.
#[derive(Debug)]
pub struct AppState {
    pub inbox_items: Vec<Item>,
    pub archive_items: Vec<Item>,
    pub selected: Option<usize>,
    pub current_view: View,
    pub filter: Option<String>,
}

/// An item passes the filter when there is none, or when its name or its
/// author contains the filter text, all compared case-folded.
pub open spec fn spec_matches_filter(filter: Option<String>, item: Item) -> bool {
    match filter {
        None => true,
        Some(f) => seq_contains(lower_of(item.name@), lower_of(f@)) || seq_contains(
            lower_of(item.author@),
            lower_of(f@),
        ),
    }
}

/// The positions, in order, of the items that pass the filter.
pub open spec fn spec_visible_indices(items: Seq<Item>, filter: Option<String>) -> Seq<usize>
    decreases items.len(),
{
    if items.len() == 0 {
        Seq::empty()
    } else {
        let rest = spec_visible_indices(items.drop_last(), filter);
        if spec_matches_filter(filter, items.last()) {
            rest.push((items.len() - 1) as usize)
        } else {
            rest
        }
    }
}

/// First position of a value in a list of positions.
pub open spec fn spec_first_pos(v: Seq<usize>, x: usize) -> Option<int>
    decreases v.len(),
{
    if v.len() == 0 {
        None
    } else if v[0] == x {
        Some(0int)
    } else {
        match spec_first_pos(v.drop_first(), x) {
            Some(p) => Some(p + 1),
            None => None,
        }
    }
}

/// The first position found is in range, holds the value, and nothing
/// before it does; when none is found, the value does not occur.
pub proof fn lemma_spec_first_pos(v: Seq<usize>, x: usize)
    ensures
        match spec_first_pos(v, x) {
            Some(p) => 0 <= p < v.len() && v[p] == x && (forall|j: int| 0 <= j < p ==> v[j] != x),
            None => forall|j: int| 0 <= j < v.len() ==> v[j] != x,
        },
    decreases v.len(),
{
    if v.len() > 0 && v[0] != x {
        let rest = v.drop_first();
        lemma_spec_first_pos(rest, x);
        assert(forall|j: int| 0 < j < v.len() ==> v[j] == rest[j - 1]);
    }
}

/// A row index clamped into a window of the given length.
pub open spec fn spec_clamped_index(p: int, offset: int, len: int) -> int {
    let q = p + offset;
    if q < 0 {
        0
    } else if q > len - 1 {
        len - 1
    } else {
        q
    }
}

/// Where a selection lands after moving by `offset` over the visible
/// rows: nowhere on an empty view; onto the first row from no selection
/// or from one no longer visible; otherwise `offset` rows further,
/// clamped to the ends.
pub open spec fn spec_moved_selection(
    visible: Seq<usize>,
    selected: Option<usize>,
    offset: int,
) -> Option<usize> {
    if visible.len() == 0 {
        None
    } else {
        match selected {
            None => Some(visible[0]),
            Some(cur) => match spec_first_pos(visible, cur) {
                Some(p) => Some(visible[spec_clamped_index(p, offset, visible.len() as int)]),
                None => Some(visible[0]),
            },
        }
    }
}

/// The first visible row, if any row is visible.
pub open spec fn spec_first_or_none(v: Seq<usize>) -> Option<usize> {
    if v.len() == 0 {
        None
    } else {
        Some(v[0])
    }
}

/// Where a preferred row number lands over the visible rows: nowhere on
/// an empty view, else at the preferred row clamped to the last one.
pub open spec fn spec_reselect(visible: Seq<usize>, preferred: Option<usize>) -> Option<usize> {
    if visible.len() == 0 {
        None
    } else {
        let want = match preferred {
            Some(p) => p as int,
            None => 0int,
        };
        let idx = if want > visible.len() - 1 {
            visible.len() - 1
        } else {
            want
        };
        Some(visible[idx])
    }
}

/// The positions of the items of `items` that pass `filter`, in order.
fn visible_of(items: &Vec<Item>, filter: &Option<String>) -> (r: Vec<usize>)
    ensures
        r@ == spec_visible_indices(items@, *filter),
{
    let n = items.len();
    let mut out: Vec<usize> = Vec::new();
    let mut i: usize = 0;
    proof {
        assert(items@.subrange(0, 0) =~= Seq::<Item>::empty());
    }
    while i < n
        invariant
            n == items@.len(),
            0 <= i <= n,
            out@ == spec_visible_indices(items@.subrange(0, i as int), *filter),
        decreases n - i,
    {
        let keep = match filter {
            None => true,
            Some(f) => {
                let fl = lowercase(f.as_str());
                let nl = lowercase(items[i].name.as_str());
                let al = lowercase(items[i].author.as_str());
                str_contains(nl.as_str(), fl.as_str()) || str_contains(al.as_str(), fl.as_str())
            }
        };
        proof {
            let prefix = items@.subrange(0, i as int);
            let prefix2 = items@.subrange(0, i + 1);
            assert(prefix2.drop_last() =~= prefix);
            assert(prefix2.last() == items@[i as int]);
        }
        if keep {
            out.push(i);
        }
        i = i + 1;
    }
    proof {
        assert(items@.subrange(0, n as int) =~= items@);
    }
    out
}

/// First position of a value in a list of positions.
fn find_pos(v: &Vec<usize>, x: usize) -> (r: Option<usize>)
    ensures
        match spec_first_pos(v@, x) {
            Some(p) => r == Some(p as usize),
            None => r is None,
        },
{
    let n = v.len();
    let mut i: usize = 0;
    while i < n
        invariant
            n == v@.len(),
            0 <= i <= n,
            forall|j: int| 0 <= j < i ==> v@[j] != x,
        decreases n - i,
    {
        if v[i] == x {
            proof {
                lemma_spec_first_pos(v@, x);
                if spec_first_pos(v@, x) is None {
                    assert(v@[i as int] != x);
                }
                match spec_first_pos(v@, x) {
                    Some(p) => {
                        if p < i {
                            assert(v@[p] == x);
                        }
                        if p > i {
                            assert(v@[i as int] != x);
                        }
                    }
                    None => {}
                }
            }
            return Some(i);
        }
        i = i + 1;
    }
    proof {
        lemma_spec_first_pos(v@, x);
    }
    None
}

impl AppState {
    /// The list in view.
    pub open spec fn spec_current_items(self) -> Seq<Item> {
        match self.current_view {
            View::Inbox => self.inbox_items@,
            View::Archive => self.archive_items@,
        }
    }

    /// The visible rows of the list in view.
    pub open spec fn spec_visible(self) -> Seq<usize> {
        spec_visible_indices(self.spec_current_items(), self.filter)
    }

    /// Everything but the selection stands as it was.
    pub open spec fn spec_same_but_selection(pre: AppState, post: AppState) -> bool {
        &&& post.inbox_items == pre.inbox_items
        &&& post.archive_items == pre.archive_items
        &&& post.current_view == pre.current_view
        &&& post.filter == pre.filter
    }

    /// An empty state: both lists empty, inbox in view, no filter, no
    /// selection.
    pub fn new() -> (r: AppState)
        ensures
            r.inbox_items@ =~= Seq::<Item>::empty(),
            r.archive_items@ =~= Seq::<Item>::empty(),
            r.selected is None,
            r.current_view is Inbox,
            r.filter is None,
    {
        AppState {
            inbox_items: Vec::new(),
            archive_items: Vec::new(),
            selected: None,
            current_view: View::Inbox,
            filter: None,
        }
    }

    /// Installs the inbox list and selects its first item, if any.
    pub fn load_inbox_items(&mut self, items: Vec<Item>)
        ensures
            final(self).inbox_items == items,
            final(self).archive_items == old(self).archive_items,
            final(self).selected == (if items@.len() > 0 {
                Some(0usize)
            } else {
                None::<usize>
            }),
            final(self).current_view == old(self).current_view,
            final(self).filter == old(self).filter,
    {
        let empty = items.is_empty();
        self.inbox_items = items;
        self.selected = if empty {
            None
        } else {
            Some(0)
        };
    }

    /// Installs the archive list.
    pub fn load_archive_items(&mut self, items: Vec<Item>)
        ensures
            final(self).archive_items == items,
            final(self).inbox_items == old(self).inbox_items,
            final(self).selected == old(self).selected,
            final(self).current_view == old(self).current_view,
            final(self).filter == old(self).filter,
    {
        self.archive_items = items;
    }

    /// The list in view.
    pub fn current_items(&self) -> (r: &Vec<Item>)
        ensures
            r@ == self.spec_current_items(),
    {
        match self.current_view {
            View::Inbox => &self.inbox_items,
            View::Archive => &self.archive_items,
        }
    }

    /// The selected item of the list in view, if the selection points at
    /// one.
    pub fn selected_item(&self) -> (r: Option<&Item>)
        ensures
            self.selected matches Some(i) ==> (if (i as int) < self.spec_current_items().len() {
                r matches Some(it) && *it == self.spec_current_items()[i as int]
            } else {
                r is None
            }),
            self.selected is None ==> r is None,
    {
        match self.selected {
            Some(i) => {
                let items = self.current_items();
                if i < items.len() {
                    Some(&items[i])
                } else {
                    None
                }
            }
            None => None,
        }
    }

    /// Whether an item passes the current filter.
    pub fn matches_filter(&self, item: &Item) -> (r: bool)
        ensures
            r == spec_matches_filter(self.filter, *item),
    {
        match &self.filter {
            None => true,
            Some(f) => {
                let fl = lowercase(f.as_str());
                let nl = lowercase(item.name.as_str());
                let al = lowercase(item.author.as_str());
                str_contains(nl.as_str(), fl.as_str()) || str_contains(al.as_str(), fl.as_str())
            }
        }
    }

    /// The positions of the visible rows of the list in view.
    pub fn visible_items(&self) -> (r: Vec<usize>)
        ensures
            r@ == self.spec_visible(),
    {
        match self.current_view {
            View::Inbox => visible_of(&self.inbox_items, &self.filter),
            View::Archive => visible_of(&self.archive_items, &self.filter),
        }
    }

    /// Moves the selection over the visible rows: forward or backward by
    /// `amount`, clamped to the ends; an empty view clears it; no
    /// selection, or one no longer visible, lands on the first row.
    fn step_selection(&mut self, forward: bool, amount: usize)
        ensures
            AppState::spec_same_but_selection(*old(self), *final(self)),
            final(self).selected == spec_moved_selection(
                old(self).spec_visible(),
                old(self).selected,
                if forward {
                    amount as int
                } else {
                    -(amount as int)
                },
            ),
    {
        let vis = self.visible_items();
        let len = vis.len();
        if len == 0 {
            self.selected = None;
            return ;
        }
        match self.selected {
            None => {
                self.selected = Some(vis[0]);
            }
            Some(cur) => {
                match find_pos(&vis, cur) {
                    Some(p) => {
                        proof {
                            lemma_spec_first_pos(vis@, cur);
                        }
                        let np: usize = if forward {
                            if amount > len - 1 - p {
                                len - 1
                            } else {
                                p + amount
                            }
                        } else {
                            if p >= amount {
                                p - amount
                            } else {
                                0
                            }
                        };
                        self.selected = Some(vis[np]);
                    }
                    None => {
                        self.selected = Some(vis[0]);
                    }
                }
            }
        }
    }

    /// Selects the next visible row, staying on the last one.
    pub fn next_item(&mut self)
        ensures
            AppState::spec_same_but_selection(*old(self), *final(self)),
            final(self).selected == spec_moved_selection(
                old(self).spec_visible(),
                old(self).selected,
                1,
            ),
    {
        self.step_selection(true, 1);
    }

    /// Selects the previous visible row, staying on the first one.
    pub fn previous_item(&mut self)
        ensures
            AppState::spec_same_but_selection(*old(self), *final(self)),
            final(self).selected == spec_moved_selection(
                old(self).spec_visible(),
                old(self).selected,
                -1,
            ),
    {
        self.step_selection(false, 1);
    }

    /// Selects the row one page further, clamped to the last one.
    pub fn next_page(&mut self, page_size: usize)
        ensures
            AppState::spec_same_but_selection(*old(self), *final(self)),
            final(self).selected == spec_moved_selection(
                old(self).spec_visible(),
                old(self).selected,
                page_size as int,
            ),
    {
        self.step_selection(true, page_size);
    }

    /// Selects the row one page back, clamped to the first one.
    pub fn previous_page(&mut self, page_size: usize)
        ensures
            AppState::spec_same_but_selection(*old(self), *final(self)),
            final(self).selected == spec_moved_selection(
                old(self).spec_visible(),
                old(self).selected,
                -(page_size as int),
            ),
    {
        self.step_selection(false, page_size);
    }

    /// Selects the first visible row, or nothing on an empty view.
    pub fn jump_to_first(&mut self)
        ensures
            AppState::spec_same_but_selection(*old(self), *final(self)),
            final(self).selected == spec_first_or_none(old(self).spec_visible()),
    {
        let vis = self.visible_items();
        self.selected = if vis.len() > 0 {
            Some(vis[0])
        } else {
            None
        };
    }

    /// Selects the last visible row, or nothing on an empty view.
    pub fn jump_to_last(&mut self)
        ensures
            AppState::spec_same_but_selection(*old(self), *final(self)),
            final(self).selected == (if old(self).spec_visible().len() > 0 {
                Some(old(self).spec_visible().last())
            } else {
                None::<usize>
            }),
    {
        let vis = self.visible_items();
        self.selected = if vis.len() > 0 {
            Some(vis[vis.len() - 1])
        } else {
            None
        };
    }

    /// Appends an item to the archive list.
    pub fn add_item_to_archive(&mut self, item: Item)
        ensures
            final(self).archive_items@ == old(self).archive_items@.push(item),
            final(self).inbox_items == old(self).inbox_items,
            final(self).selected == old(self).selected,
            final(self).current_view == old(self).current_view,
            final(self).filter == old(self).filter,
    {
        self.archive_items.push(item);
    }

    /// The inbox list.
    pub fn get_inbox_items(&self) -> (r: &Vec<Item>)
        ensures
            r == &self.inbox_items,
    {
        &self.inbox_items
    }

    /// The archive list.
    pub fn get_archive_items(&self) -> (r: &Vec<Item>)
        ensures
            r == &self.archive_items,
    {
        &self.archive_items
    }

    /// Installs a filter.  A selection still visible under it stays; one
    /// filtered out, or no selection, lands on the first visible row.
    pub fn set_filter(&mut self, filter: Option<String>)
        ensures
            final(self).filter == filter,
            final(self).inbox_items == old(self).inbox_items,
            final(self).archive_items == old(self).archive_items,
            final(self).current_view == old(self).current_view,
            final(self).selected == (match old(self).selected {
                Some(i) => if spec_first_pos(final(self).spec_visible(), i) is Some {
                    Some(i)
                } else {
                    spec_first_or_none(final(self).spec_visible())
                },
                None => spec_first_or_none(final(self).spec_visible()),
            }),
    {
        self.filter = filter;
        let vis = self.visible_items();
        match self.selected {
            Some(i) => {
                match find_pos(&vis, i) {
                    Some(_) => {}
                    None => {
                        self.selected = if vis.len() > 0 {
                            Some(vis[0])
                        } else {
                            None
                        };
                    }
                }
            }
            None => {
                self.selected = if vis.len() > 0 {
                    Some(vis[0])
                } else {
                    None
                };
            }
        }
    }

    /// The row number of the selection among the visible rows.
    pub fn selected_table_row(&self) -> (r: Option<usize>)
        ensures
            self.selected matches Some(i) ==> match spec_first_pos(self.spec_visible(), i) {
                Some(p) => r == Some(p as usize),
                None => r is None,
            },
            self.selected is None ==> r is None,
    {
        match self.selected {
            Some(i) => {
                let vis = self.visible_items();
                find_pos(&vis, i)
            }
            None => None,
        }
    }

    /// Selects the visible row nearest a preferred row number, or nothing
    /// on an empty view.
    pub fn reselect_visible_row(&mut self, preferred_row: Option<usize>)
        ensures
            AppState::spec_same_but_selection(*old(self), *final(self)),
            final(self).selected == spec_reselect(old(self).spec_visible(), preferred_row),
    {
        let vis = self.visible_items();
        let len = vis.len();
        if len == 0 {
            self.selected = None;
            return ;
        }
        let want: usize = match preferred_row {
            Some(p) => p,
            None => 0,
        };
        let idx: usize = if want > len - 1 {
            len - 1
        } else {
            want
        };
        self.selected = Some(vis[idx]);
    }

    /// Swaps the selected item with its predecessor in the list in view;
    /// the selection follows the item.  Fails on no selection, an
    /// out-of-range one, or the topmost row.
    pub fn move_item_up(&mut self) -> (r: Result<(), CoreError>)
        ensures
            match old(self).selected {
                None => r == Err::<(), CoreError>(CoreError::ItemNotFound) && *final(self) == *old(
                    self,
                ),
                Some(i) => {
                    let items = old(self).spec_current_items();
                    if i as int >= items.len() {
                        r == Err::<(), CoreError>(CoreError::ItemNotFound) && *final(self) == *old(
                            self,
                        )
                    } else if i == 0 {
                        (r matches Err(CoreError::ValidationError(m)) && m@ == "Already at top"@)
                            && *final(self) == *old(self)
                    } else {
                        &&& r is Ok
                        &&& final(self).spec_current_items() == items.update(
                            i - 1,
                            items[i as int],
                        ).update(i as int, items[i - 1])
                        &&& (old(self).current_view is Inbox ==> final(self).archive_items == old(
                            self,
                        ).archive_items)
                        &&& (old(self).current_view is Archive ==> final(self).inbox_items == old(
                            self,
                        ).inbox_items)
                        &&& final(self).selected == Some((i - 1) as usize)
                        &&& final(self).current_view == old(self).current_view
                        &&& final(self).filter == old(self).filter
                    }
                },
            },
    {
        let i = match self.selected {
            Some(i) => i,
            None => {
                return Err(CoreError::ItemNotFound);
            }
        };
        let len = match self.current_view {
            View::Inbox => self.inbox_items.len(),
            View::Archive => self.archive_items.len(),
        };
        if i >= len {
            return Err(CoreError::ItemNotFound);
        }
        if i == 0 {
            return Err(CoreError::ValidationError(String::from_str("Already at top")));
        }
        match self.current_view {
            View::Inbox => {
                let a = self.inbox_items[i - 1].clone();
                let b = self.inbox_items[i].clone();
                self.inbox_items[i - 1] = b;
                self.inbox_items[i] = a;
            }
            View::Archive => {
                let a = self.archive_items[i - 1].clone();
                let b = self.archive_items[i].clone();
                self.archive_items[i - 1] = b;
                self.archive_items[i] = a;
            }
        }
        self.selected = Some(i - 1);
        Ok(())
    }

    /// Swaps the selected item with its successor in the list in view;
    /// the selection follows the item.  Fails on no selection, an
    /// out-of-range one, or the bottommost row.
    pub fn move_item_down(&mut self) -> (r: Result<(), CoreError>)
        ensures
            match old(self).selected {
                None => r == Err::<(), CoreError>(CoreError::ItemNotFound) && *final(self) == *old(
                    self,
                ),
                Some(i) => {
                    let items = old(self).spec_current_items();
                    if i as int >= items.len() {
                        r == Err::<(), CoreError>(CoreError::ItemNotFound) && *final(self) == *old(
                            self,
                        )
                    } else if i as int == items.len() - 1 {
                        (r matches Err(CoreError::ValidationError(m)) && m@
                            == "Already at bottom"@) && *final(self) == *old(self)
                    } else {
                        &&& r is Ok
                        &&& final(self).spec_current_items() == items.update(
                            i as int,
                            items[i + 1],
                        ).update(i + 1, items[i as int])
                        &&& (old(self).current_view is Inbox ==> final(self).archive_items == old(
                            self,
                        ).archive_items)
                        &&& (old(self).current_view is Archive ==> final(self).inbox_items == old(
                            self,
                        ).inbox_items)
                        &&& final(self).selected == Some((i + 1) as usize)
                        &&& final(self).current_view == old(self).current_view
                        &&& final(self).filter == old(self).filter
                    }
                },
            },
    {
        let i = match self.selected {
            Some(i) => i,
            None => {
                return Err(CoreError::ItemNotFound);
            }
        };
        let len = match self.current_view {
            View::Inbox => self.inbox_items.len(),
            View::Archive => self.archive_items.len(),
        };
        if i >= len {
            return Err(CoreError::ItemNotFound);
        }
        if i == len - 1 {
            return Err(CoreError::ValidationError(String::from_str("Already at bottom")));
        }
        match self.current_view {
            View::Inbox => {
                let a = self.inbox_items[i].clone();
                let b = self.inbox_items[i + 1].clone();
                self.inbox_items[i] = b;
                self.inbox_items[i + 1] = a;
            }
            View::Archive => {
                let a = self.archive_items[i].clone();
                let b = self.archive_items[i + 1].clone();
                self.archive_items[i] = b;
                self.archive_items[i + 1] = a;
            }
        }
        self.selected = Some(i + 1);
        Ok(())
    }

    /// The display id of the selection: its position plus one in the
    /// inbox view, or past the whole inbox in the archive view; nothing
    /// when there is no selection, it is out of range, or the id cannot
    /// be represented.
    pub open spec fn spec_display_id(self) -> Option<int> {
        match self.selected {
            Some(i) => match self.current_view {
                View::Inbox => if (i as int) < self.inbox_items@.len() {
                    Some(i as int + 1)
                } else {
                    None
                },
                View::Archive => if (i as int) < self.archive_items@.len()
                    && self.inbox_items@.len() + i + 1 <= usize::MAX {
                    Some(self.inbox_items@.len() as int + i + 1)
                } else {
                    None
                },
            },
            None => None,
        }
    }

    /// What a status change of the selection does, given the id it
    /// resolved to and the clock reading: the operation of
    /// `spec_update_status` decides; on success the two lists are
    /// replaced, and when the change moved the selected item across
    /// lists, the selection lands on the nearest visible row of its old
    /// row number; on failure nothing changes.
    pub open spec fn spec_changed_selected(
        pre: AppState,
        post: AppState,
        new_status: Status,
        config: Config,
        now: i64,
        id: int,
        r: Result<StatusUpdateResult, CoreError>,
    ) -> bool {
        match spec_update_status(id, new_status, pre.inbox_items@, pre.archive_items@, config, now) {
            Ok(v) => {
                if v.item_found {
                    &&& r matches Ok(res) && res@ == v
                    &&& post.inbox_items@ == v.inbox_items
                    &&& post.archive_items@ == v.archive_items
                    &&& post.current_view == pre.current_view
                    &&& post.filter == pre.filter
                    &&& {
                        let crossed = match pre.current_view {
                            View::Archive => v.moved_to_inbox,
                            View::Inbox => v.moved_to_archive.len() > 0,
                        };
                        let prev_row = match pre.selected {
                            Some(i) => match spec_first_pos(pre.spec_visible(), i) {
                                Some(p) => Some(p as usize),
                                None => None,
                            },
                            None => None,
                        };
                        if crossed {
                            post.selected == spec_reselect(post.spec_visible(), prev_row)
                        } else {
                            post.selected == pre.selected
                        }
                    }
                } else {
                    r == Err::<StatusUpdateResult, CoreError>(CoreError::ItemNotFound) && post
                        == pre
                }
            },
            Err(e) => r == Err::<StatusUpdateResult, CoreError>(e) && post == pre,
        }
    }

    /// Changes the status of the selected item at clock reading `now`
    /// through the orchestration layer and installs the resulting lists;
    /// a move across the lists re-seats the selection on the old row
    /// number.
    #[verifier::rlimit(50)]
    pub fn change_selected_status_at(&mut self, new_status: Status, config: &Config, now: i64) -> (r: Result<
        StatusUpdateResult,
        CoreError,
    >)
        ensures
            old(self).spec_display_id() is None ==> r == Err::<StatusUpdateResult, CoreError>(
                CoreError::ItemNotFound,
            ) && *final(self) == *old(self),
            old(self).spec_display_id() matches Some(id) ==> AppState::spec_changed_selected(
                *old(self),
                *final(self),
                new_status,
                *config,
                now,
                id,
                r,
            ),
    {
        let id_opt: Option<usize> = match self.selected {
            Some(i) => match self.current_view {
                View::Inbox => if i < self.inbox_items.len() {
                    Some(i + 1)
                } else {
                    None
                },
                View::Archive => if i < self.archive_items.len() && i + 1 <= usize::MAX
                    - self.inbox_items.len() {
                    Some(self.inbox_items.len() + i + 1)
                } else {
                    None
                },
            },
            None => None,
        };
        match id_opt {
            None => {
                proof {
                    assert(old(self).spec_display_id() is None);
                }
                Err(CoreError::ItemNotFound)
            }
            Some(id) => {
                proof {
                    assert(old(self).spec_display_id() == Some(id as int));
                }
                let prev_row = self.selected_table_row();
                let ghost pre = *self;
                let inbox_copy = clone_items(&self.inbox_items);
                let archive_copy = clone_items(&self.archive_items);
                let out = update_item_status_at(
                    id,
                    new_status,
                    inbox_copy,
                    archive_copy,
                    config,
                    now,
                );
                match out {
                    Err(e) => {
                        proof {
                            assert(AppState::spec_changed_selected(
                                *old(self),
                                *self,
                                new_status,
                                *config,
                                now,
                                id as int,
                                Err(e),
                            ));
                        }
                        Err(e)
                    }
                    Ok(res) => {
                        if res.item_found {
                            self.inbox_items = clone_items(&res.inbox_items);
                            self.archive_items = clone_items(&res.archive_items);
                            let crossed = match self.current_view {
                                View::Archive => res.moved_to_inbox,
                                View::Inbox => res.moved_to_archive.len() > 0,
                            };
                            if crossed {
                                self.reselect_visible_row(prev_row);
                            }
                            proof {
                                assert(AppState::spec_changed_selected(
                                    *old(self),
                                    *self,
                                    new_status,
                                    *config,
                                    now,
                                    id as int,
                                    Ok(res),
                                ));
                            }
                            Ok(res)
                        } else {
                            proof {
                                assert(AppState::spec_changed_selected(
                                    *old(self),
                                    *self,
                                    new_status,
                                    *config,
                                    now,
                                    id as int,
                                    Err(CoreError::ItemNotFound),
                                ));
                            }
                            Err(CoreError::ItemNotFound)
                        }
                    }
                }
            }
        }
    }

    /// Changes the status of the selected item at the current wall
    /// clock; only the clock reading is left open.
    pub fn change_selected_status(&mut self, new_status: Status, config: &Config) -> (r: Result<
        StatusUpdateResult,
        CoreError,
    >)
        ensures
            old(self).spec_display_id() is None ==> r == Err::<StatusUpdateResult, CoreError>(
                CoreError::ItemNotFound,
            ) && *final(self) == *old(self),
            old(self).spec_display_id() matches Some(id) ==> exists|now: i64|
                #[trigger] AppState::spec_changed_selected(
                    *old(self),
                    *final(self),
                    new_status,
                    *config,
                    now,
                    id,
                    r,
                ),
    {
        let now = now_millis();
        self.change_selected_status_at(new_status, config, now)
    }

    /// Sets the selected item to Doing.
    pub fn move_selected_to_doing(&mut self, config: &Config) -> (r: Result<
        StatusUpdateResult,
        CoreError,
    >)
        ensures
            old(self).spec_display_id() is None ==> r == Err::<StatusUpdateResult, CoreError>(
                CoreError::ItemNotFound,
            ) && *final(self) == *old(self),
            old(self).spec_display_id() matches Some(id) ==> exists|now: i64|
                #[trigger] AppState::spec_changed_selected(
                    *old(self),
                    *final(self),
                    Status::Doing,
                    *config,
                    now,
                    id,
                    r,
                ),
    {
        self.change_selected_status(Status::Doing, config)
    }

    /// Sets the selected item back to Todo.
    pub fn move_selected_to_todo(&mut self, config: &Config) -> (r: Result<
        StatusUpdateResult,
        CoreError,
    >)
        ensures
            old(self).spec_display_id() is None ==> r == Err::<StatusUpdateResult, CoreError>(
                CoreError::ItemNotFound,
            ) && *final(self) == *old(self),
            old(self).spec_display_id() matches Some(id) ==> exists|now: i64|
                #[trigger] AppState::spec_changed_selected(
                    *old(self),
                    *final(self),
                    Status::Todo,
                    *config,
                    now,
                    id,
                    r,
                ),
    {
        self.change_selected_status(Status::Todo, config)
    }

    /// Sets the selected item to Done and hands back the item that moved
    /// to the archive, when the inbox was in view and one did.
    pub fn move_selected_to_done(&mut self, config: &Config) -> (r: Result<
        Option<Item>,
        CoreError,
    >)
        ensures
            old(self).spec_display_id() is None ==> r == Err::<Option<Item>, CoreError>(
                CoreError::ItemNotFound,
            ) && *final(self) == *old(self),
            old(self).spec_display_id() matches Some(id) ==> r is Ok ==> exists|
                now: i64,
                res: StatusUpdateResult,
            |
                {
                    &&& #[trigger] AppState::spec_changed_selected(
                        *old(self),
                        *final(self),
                        Status::Done,
                        *config,
                        now,
                        id,
                        Ok(res),
                    )
                    &&& r == Ok::<Option<Item>, CoreError>(
                        if old(self).current_view is Inbox && res.moved_to_archive@.len() > 0 {
                            Some(res.moved_to_archive@[0])
                        } else {
                            None
                        },
                    )
                },
            old(self).spec_display_id() matches Some(id) ==> r is Err ==> exists|
                now: i64,
                e: CoreError,
            |
                {
                    &&& #[trigger] AppState::spec_changed_selected(
                        *old(self),
                        *final(self),
                        Status::Done,
                        *config,
                        now,
                        id,
                        Err(e),
                    )
                    &&& r == Err::<Option<Item>, CoreError>(e)
                },
    {
        let ghost pre = *self;
        let view_was_inbox = match self.current_view {
            View::Inbox => true,
            View::Archive => false,
        };
        match self.change_selected_status(Status::Done, config) {
            Ok(res) => {
                let ghost res0 = res;
                proof {
                    if pre.spec_display_id() is Some {
                        let id = pre.spec_display_id()->Some_0;
                        let now0 = choose|now: i64|
                            #[trigger] AppState::spec_changed_selected(
                                pre,
                                *self,
                                Status::Done,
                                *config,
                                now,
                                id,
                                Ok(res0),
                            );
                        assert(AppState::spec_changed_selected(
                            pre,
                            *self,
                            Status::Done,
                            *config,
                            now0,
                            id,
                            Ok(res0),
                        ));
                    }
                }
                if view_was_inbox && res.moved_to_archive.len() > 0 {
                    let mut moved = res.moved_to_archive;
                    let first = moved.remove(0);
                    assert(first == res0.moved_to_archive@[0]);
                    Ok(Some(first))
                } else {
                    Ok(None)
                }
            }
            Err(e) => {
                let ghost e0 = e;
                proof {
                    if pre.spec_display_id() is Some {
                        let id = pre.spec_display_id()->Some_0;
                        let now0 = choose|now: i64|
                            #[trigger] AppState::spec_changed_selected(
                                pre,
                                *self,
                                Status::Done,
                                *config,
                                now,
                                id,
                                Err(e0),
                            );
                        assert(AppState::spec_changed_selected(
                            pre,
                            *self,
                            Status::Done,
                            *config,
                            now0,
                            id,
                            Err(e0),
                        ));
                    }
                }
                Err(e)
            }
        }
    }
}

} // verus!
