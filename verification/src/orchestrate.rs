//! The orchestration layer: resolves a 1-based display id spanning inbox
//! then archive, applies the requested status change, and performs the
//! migration it implies -- archiving on completion, reinstating on
//! reopening, rolling the whole operation back when reinstatement cannot
//! be admitted.

use vstd::prelude::*;
use crate::cap::{add_with_cap_at, admit_result};
use crate::clock::now_millis;
use crate::config::Config;
use crate::error::CoreError;
use crate::item::{Item, Status, spec_valid_item};
use crate::status::{change_item_status_at, spec_transition, transitioned};

verus! {

/// What a status update produced: the two lists to persist, the items that
/// crossed between them, and whether the id resolved to an item at all.
#[derive(Debug)]
pub struct StatusUpdateResult {
    pub inbox_items: Vec<Item>,
    pub archive_items: Vec<Item>,
    pub moved_to_archive: Vec<Item>,
    pub moved_to_inbox: bool,
    pub overflow_items: Vec<Item>,
    pub item_found: bool,
}

/// The mathematical shadow of `StatusUpdateResult`.
pub struct StatusUpdateView {
    pub inbox_items: Seq<Item>,
    pub archive_items: Seq<Item>,
    pub moved_to_archive: Seq<Item>,
    pub moved_to_inbox: bool,
    pub overflow_items: Seq<Item>,
    pub item_found: bool,
}

impl View for StatusUpdateResult {
    type V = StatusUpdateView;

    open spec fn view(&self) -> StatusUpdateView {
        StatusUpdateView {
            inbox_items: self.inbox_items@,
            archive_items: self.archive_items@,
            moved_to_archive: self.moved_to_archive@,
            moved_to_inbox: self.moved_to_inbox,
            overflow_items: self.overflow_items@,
            item_found: self.item_found,
        }
    }
}

/// What a status update yields, exactly.  An id in `[1, len(inbox)]`
/// targets the inbox: the item transitions, and a transition into Done
/// moves it to the archive.  An id in `(len(inbox), len(inbox) +
/// len(archive)]` targets the archive: the item transitions, and a
/// transition out of Done removes it from the archive and admits it into
/// the inbox under the configured strategy, appending any eviction to the
/// archive; when admission refuses, or the item fails validation, the
/// whole operation fails with `InboxFull` and yields no new lists.  Any
/// other id finds nothing and returns both lists unchanged.
pub open spec fn spec_update_status(
    item_id: int,
    new_status: Status,
    inbox: Seq<Item>,
    archive: Seq<Item>,
    config: Config,
    now: i64,
) -> Result<StatusUpdateView, CoreError> {
    if 1 <= item_id && item_id <= inbox.len() {
        let idx = item_id - 1;
        let tr = spec_transition(inbox[idx], new_status);
        let updated = transitioned(inbox[idx], new_status, now);
        if tr.should_archive {
            Ok(
                StatusUpdateView {
                    inbox_items: inbox.remove(idx),
                    archive_items: archive.push(updated),
                    moved_to_archive: seq![updated],
                    moved_to_inbox: false,
                    overflow_items: Seq::empty(),
                    item_found: true,
                },
            )
        } else {
            Ok(
                StatusUpdateView {
                    inbox_items: inbox.update(idx, updated),
                    archive_items: archive,
                    moved_to_archive: Seq::empty(),
                    moved_to_inbox: false,
                    overflow_items: Seq::empty(),
                    item_found: true,
                },
            )
        }
    } else if inbox.len() < item_id && item_id <= inbox.len() + archive.len() {
        let idx = item_id - inbox.len() - 1;
        let tr = spec_transition(archive[idx], new_status);
        let updated = transitioned(archive[idx], new_status, now);
        if tr.should_move_to_inbox {
            if !spec_valid_item(updated) {
                Err(CoreError::InboxFull)
            } else {
                match admit_result(
                    inbox,
                    updated,
                    config.max_items as int,
                    config.archive_on_overflow,
                    now,
                ) {
                    Ok(p) => Ok(
                        StatusUpdateView {
                            inbox_items: p.0,
                            archive_items: archive.remove(idx) + p.1,
                            moved_to_archive: Seq::empty(),
                            moved_to_inbox: true,
                            overflow_items: p.1,
                            item_found: true,
                        },
                    ),
                    Err(_) => Err(CoreError::InboxFull),
                }
            }
        } else {
            Ok(
                StatusUpdateView {
                    inbox_items: inbox,
                    archive_items: archive.update(idx, updated),
                    moved_to_archive: Seq::empty(),
                    moved_to_inbox: false,
                    overflow_items: Seq::empty(),
                    item_found: true,
                },
            )
        }
    } else {
        Ok(
            StatusUpdateView {
                inbox_items: inbox,
                archive_items: archive,
                moved_to_archive: Seq::empty(),
                moved_to_inbox: false,
                overflow_items: Seq::empty(),
                item_found: false,
            },
        )
    }
}

/// The executable result agrees with `spec_update_status`.
pub open spec fn update_status_matches(
    item_id: int,
    new_status: Status,
    inbox: Seq<Item>,
    archive: Seq<Item>,
    config: Config,
    now: i64,
    r: Result<StatusUpdateResult, CoreError>,
) -> bool {
    match r {
        Ok(res) => spec_update_status(item_id, new_status, inbox, archive, config, now)
            == Ok::<StatusUpdateView, CoreError>(res@),
        Err(e) => spec_update_status(item_id, new_status, inbox, archive, config, now)
            == Err::<StatusUpdateView, CoreError>(e),
    }
}

/// The executable result of validated admission agrees with
/// `admit_result`, with every admission failure mapped to `InboxFull`.
pub open spec fn admitted_matches(
    inbox: Seq<Item>,
    new_item: Item,
    config: Config,
    now: i64,
    r: Result<(Vec<Item>, Vec<Item>), CoreError>,
) -> bool {
    match admit_result(inbox, new_item, config.max_items as int, config.archive_on_overflow, now) {
        Ok(p) => r matches Ok(q) && q.0@ == p.0 && q.1@ == p.1,
        Err(_) => r == Err::<(Vec<Item>, Vec<Item>), CoreError>(CoreError::InboxFull),
    }
}

/// Validates the new item, then admits it under the configured capacity
/// and strategy, stamping any eviction at clock reading `now`.
pub fn add_item_to_inbox_at(
    inbox: Vec<Item>,
    new_item: Item,
    config: &Config,
    now: i64,
) -> (r: Result<(Vec<Item>, Vec<Item>), CoreError>)
    ensures
        !spec_valid_item(new_item) ==> (r matches Err(e) && e matches CoreError::ValidationError(m)
            && m@ == "Name cannot be empty"@),
        spec_valid_item(new_item) ==> admitted_matches(inbox@, new_item, *config, now, r),
{
    match new_item.validate() {
        Err(e) => Err(e),
        Ok(()) => {
            match add_with_cap_at(
                inbox,
                new_item,
                config.max_items as usize,
                config.archive_on_overflow,
                now,
            ) {
                Ok(p) => Ok(p),
                Err(_) => Err(CoreError::InboxFull),
            }
        }
    }
}

/// Validates and admits at the current wall clock; only the clock reading
/// that stamps an eviction is left open.
pub fn add_item_to_inbox(inbox: Vec<Item>, new_item: Item, config: &Config) -> (r: Result<
    (Vec<Item>, Vec<Item>),
    CoreError,
>)
    ensures
        !spec_valid_item(new_item) ==> (r matches Err(e) && e matches CoreError::ValidationError(m)
            && m@ == "Name cannot be empty"@),
        spec_valid_item(new_item) ==> exists|now: i64|
            #[trigger] admitted_matches(inbox@, new_item, *config, now, r),
{
    let ghost orig = inbox@;
    let now = now_millis();
    let r = add_item_to_inbox_at(inbox, new_item, config, now);
    proof {
        if spec_valid_item(new_item) {
            assert(admitted_matches(orig, new_item, *config, now, r));
        }
    }
    r
}

/// Routes a freshly created item at clock reading `now`: a reference item
/// is marked Done, stamped, and belongs straight in the archive, never
/// occupying inbox capacity; a normal item is handed on unchanged, to be
/// admitted into the inbox.  The flag says whether the archive is the
/// destination.
pub fn route_new_item_at(item: Item, now: i64) -> (r: (Item, bool))
    ensures
        item.kind is Reference ==> r.0 == crate::status::transitioned(item, Status::Done, now)
            && r.1,
        item.kind !is Reference ==> r.0 == item && !r.1,
{
    match item.kind {
        crate::item::Kind::Reference => {
            let mut finished = item;
            let _ = change_item_status_at(&mut finished, Status::Done, now);
            (finished, true)
        }
        crate::item::Kind::Normal => (item, false),
    }
}

/// Routes a freshly created item at the current wall clock; only the
/// clock reading that stamps a reference item is left open.
pub fn route_new_item(item: Item) -> (r: (Item, bool))
    ensures
        item.kind is Reference ==> (exists|now: i64|
            r.0 == #[trigger] crate::status::transitioned(item, Status::Done, now)) && r.1,
        item.kind !is Reference ==> r.0 == item && !r.1,
{
    let now = now_millis();
    let r = route_new_item_at(item, now);
    proof {
        if item.kind is Reference {
            assert(r.0 == crate::status::transitioned(item, Status::Done, now));
        }
    }
    r
}

/// Resolves the display id, applies the status change at clock reading
/// `now`, and performs the implied migration, transactionally.
pub fn update_item_status_at(
    item_id: usize,
    new_status: Status,
    inbox_items: Vec<Item>,
    archive_items: Vec<Item>,
    config: &Config,
    now: i64,
) -> (r: Result<StatusUpdateResult, CoreError>)
    ensures
        update_status_matches(
            item_id as int,
            new_status,
            inbox_items@,
            archive_items@,
            *config,
            now,
            r,
        ),
{
    let ghost inbox0 = inbox_items@;
    let ghost archive0 = archive_items@;
    let mut inbox = inbox_items;
    let mut archive = archive_items;

    if item_id > 0 && item_id <= inbox.len() {
        let idx = item_id - 1;
        let mut it = inbox[idx].clone();
        let tr = change_item_status_at(&mut it, new_status, now);

        if tr.should_archive {
            inbox.remove(idx);
            let mut moved: Vec<Item> = Vec::new();
            moved.push(it.clone());
            archive.push(it);
            assert(moved@ =~= seq![transitioned(inbox0[idx as int], new_status, now)]);
            let res = StatusUpdateResult {
                inbox_items: inbox,
                archive_items: archive,
                moved_to_archive: moved,
                moved_to_inbox: false,
                overflow_items: Vec::new(),
                item_found: true,
            };
            Ok(res)
        } else {
            inbox[idx] = it;
            let res = StatusUpdateResult {
                inbox_items: inbox,
                archive_items: archive,
                moved_to_archive: Vec::new(),
                moved_to_inbox: false,
                overflow_items: Vec::new(),
                item_found: true,
            };
            Ok(res)
        }
    } else if item_id > inbox.len() && item_id - inbox.len() <= archive.len() {
        let idx = item_id - inbox.len() - 1;
        let mut it = archive[idx].clone();
        let tr = change_item_status_at(&mut it, new_status, now);

        if tr.should_move_to_inbox {
            archive.remove(idx);
            match add_item_to_inbox_at(inbox, it, config, now) {
                Ok((new_inbox, evicted)) => {
                    let ghost archive_mid = archive@;
                    let mut k: usize = 0;
                    while k < evicted.len()
                        invariant
                            0 <= k <= evicted@.len(),
                            archive@ == archive_mid + evicted@.subrange(0, k as int),
                        decreases evicted@.len() - k,
                    {
                        archive.push(evicted[k].clone());
                        assert(archive@ == archive_mid + evicted@.subrange(0, k + 1));
                        k = k + 1;
                    }
                    assert(archive@ == archive_mid + evicted@);
                    let res = StatusUpdateResult {
                        inbox_items: new_inbox,
                        archive_items: archive,
                        moved_to_archive: Vec::new(),
                        moved_to_inbox: true,
                        overflow_items: evicted,
                        item_found: true,
                    };
                    Ok(res)
                }
                Err(_) => Err(CoreError::InboxFull),
            }
        } else {
            archive[idx] = it;
            let res = StatusUpdateResult {
                inbox_items: inbox,
                archive_items: archive,
                moved_to_archive: Vec::new(),
                moved_to_inbox: false,
                overflow_items: Vec::new(),
                item_found: true,
            };
            Ok(res)
        }
    } else {
        let res = StatusUpdateResult {
            inbox_items: inbox,
            archive_items: archive,
            moved_to_archive: Vec::new(),
            moved_to_inbox: false,
            overflow_items: Vec::new(),
            item_found: false,
        };
        Ok(res)
    }
}

/// Resolves the display id and applies the status change at the current
/// wall clock; only the clock reading is left open.
pub fn update_item_status(
    item_id: usize,
    new_status: Status,
    inbox_items: Vec<Item>,
    archive_items: Vec<Item>,
    config: &Config,
) -> (r: Result<StatusUpdateResult, CoreError>)
    ensures
        exists|now: i64|
            update_status_matches(
                item_id as int,
                new_status,
                inbox_items@,
                archive_items@,
                *config,
                now,
                r,
            ),
{
    let ghost inbox0 = inbox_items@;
    let ghost archive0 = archive_items@;
    let now = now_millis();
    let r = update_item_status_at(item_id, new_status, inbox_items, archive_items, config, now);
    assert(update_status_matches(item_id as int, new_status, inbox0, archive0, *config, now, r));
    r
}

/// A display id outside `[1, len(inbox) + len(archive)]` finds no item:
/// the operation succeeds with `item_found` false, returns both lists
/// unchanged, and moves nothing.
pub proof fn lemma_unknown_id_unchanged(
    item_id: int,
    new_status: Status,
    inbox: Seq<Item>,
    archive: Seq<Item>,
    config: Config,
    now: i64,
)
    requires
        item_id < 1 || item_id > inbox.len() + archive.len(),
    ensures
        spec_update_status(item_id, new_status, inbox, archive, config, now) matches Ok(v) && {
            &&& v.inbox_items == inbox
            &&& v.archive_items == archive
            &&& !v.item_found
            &&& v.moved_to_archive.len() == 0
            &&& !v.moved_to_inbox
            &&& v.overflow_items.len() == 0
        },
{
}

/// A status update never grows the inbox beyond capacity: from any state
/// within capacity, every successful operation leaves the inbox within
/// capacity, whatever the id, the status and the strategy.
pub proof fn lemma_update_keeps_capacity(
    item_id: int,
    new_status: Status,
    inbox: Seq<Item>,
    archive: Seq<Item>,
    config: Config,
    now: i64,
)
    requires
        inbox.len() <= config.max_items,
    ensures
        spec_update_status(item_id, new_status, inbox, archive, config, now) matches Ok(v)
            ==> v.inbox_items.len() <= config.max_items,
{
    if inbox.len() < item_id && item_id <= inbox.len() + archive.len() {
        let idx = item_id - inbox.len() - 1;
        let updated = transitioned(archive[idx], new_status, now);
        crate::cap::lemma_admit_bounded(
            inbox,
            updated,
            config.max_items as int,
            config.archive_on_overflow,
            now,
        );
    }
}

/// Rollback: reinstating an archived item while the inbox is full under
/// the Abort strategy fails with `InboxFull`, and a failed operation
/// yields no new lists, so the inbox and the archive the caller holds
/// stand exactly as before the call -- same items, same order.
pub proof fn lemma_reinstate_rollback(
    item_id: int,
    new_status: Status,
    inbox: Seq<Item>,
    archive: Seq<Item>,
    config: Config,
    now: i64,
)
    requires
        config.archive_on_overflow is Abort,
        inbox.len() >= config.max_items,
        inbox.len() < item_id <= inbox.len() + archive.len(),
        archive[item_id - inbox.len() - 1].status is Done,
        new_status != Status::Done,
    ensures
        spec_update_status(item_id, new_status, inbox, archive, config, now) == Err::<
            StatusUpdateView,
            CoreError,
        >(CoreError::InboxFull),
{
}

} // verus!
