//! The status transition engine: the state machine over Todo, Doing and
//! Done, the set-once timestamp discipline, and the two derived flags that
//! alone trigger movement between inbox and archive.

use vstd::prelude::*;
use crate::clock::now_millis;
use crate::item::{Item, Status};

verus! {

/// What a status change reported: the two statuses, whether they differ,
/// and the two flags that drive cross-list movement.
#[derive(Debug, Clone, Copy, PartialEq, Eq, Structural)]
pub struct StatusTransitionResult {
    pub old_status: Status,
    pub new_status: Status,
    pub should_archive: bool,
    pub should_move_to_inbox: bool,
    pub status_changed: bool,
}

/// The item with its status replaced and nothing else touched.
pub open spec fn with_status(item: Item, status: Status) -> Item {
    Item { status, ..item }
}

/// The timestamp rule applied to an item at clock reading `now`:
/// Todo clears both timestamps; Doing stamps `started_at` the first time
/// only; Done stamps `finished_at` the first time only.
pub open spec fn stamped(item: Item, now: i64) -> Item {
    match item.status {
        Status::Todo => Item { started_at: None, finished_at: None, ..item },
        Status::Doing => if item.started_at is Some {
            item
        } else {
            Item { started_at: Some(now), ..item }
        },
        Status::Done => if item.finished_at is Some {
            item
        } else {
            Item { finished_at: Some(now), ..item }
        },
    }
}

/// The item after a full status transition at clock reading `now`.
pub open spec fn transitioned(item: Item, new_status: Status, now: i64) -> Item {
    stamped(with_status(item, new_status), now)
}

/// The report a transition yields, derived from the two statuses alone.
pub open spec fn spec_transition(item: Item, new_status: Status) -> StatusTransitionResult {
    StatusTransitionResult {
        old_status: item.status,
        new_status,
        should_archive: item.status != Status::Done && new_status == Status::Done,
        should_move_to_inbox: item.status == Status::Done && new_status != Status::Done,
        status_changed: item.status != new_status,
    }
}

/// Applies the timestamp rule for the item's current status at the given
/// clock reading.
pub fn update_timestamps_at(item: &mut Item, now: i64)
    ensures
        *final(item) == stamped(*old(item), now),
{
    match item.status {
        Status::Todo => {
            item.started_at = None;
            item.finished_at = None;
        }
        Status::Doing => {
            if item.started_at.is_none() {
                item.started_at = Some(now);
            }
        }
        Status::Done => {
            if item.finished_at.is_none() {
                item.finished_at = Some(now);
            }
        }
    }
}

/// Applies the timestamp rule at the current wall clock.  The reading
/// itself is the only thing the contract leaves open.
pub fn update_timestamps(item: &mut Item)
    ensures
        exists|now: i64| *final(item) == stamped(*old(item), now),
{
    let now = now_millis();
    update_timestamps_at(item, now);
}

/// Writes the requested status, applies the timestamp rule at the given
/// clock reading, and reports the transition.
pub fn change_item_status_at(item: &mut Item, new_status: Status, now: i64) -> (r:
    StatusTransitionResult)
    ensures
        *final(item) == transitioned(*old(item), new_status, now),
        r == spec_transition(*old(item), new_status),
{
    let old_status = item.status;
    let status_changed = old_status != new_status;

    item.status = new_status;
    update_timestamps_at(item, now);

    let should_archive = old_status != Status::Done && new_status == Status::Done;
    let should_move_to_inbox = old_status == Status::Done && new_status != Status::Done;

    StatusTransitionResult {
        old_status,
        new_status,
        should_archive,
        should_move_to_inbox,
        status_changed,
    }
}

/// Writes the requested status and applies the timestamp rule at the
/// current wall clock.
pub fn change_item_status(item: &mut Item, new_status: Status) -> (r: StatusTransitionResult)
    ensures
        exists|now: i64| *final(item) == transitioned(*old(item), new_status, now),
        r == spec_transition(*old(item), new_status),
{
    let now = now_millis();
    change_item_status_at(item, new_status, now)
}

/// Moving to Done sets `finished_at` exactly once -- a missing stamp is
/// set to the clock reading, an existing one is kept -- and leaves
/// `started_at` alone; moving to Todo clears both timestamps.
pub proof fn lemma_transition_timestamps(item: Item, now: i64)
    ensures
        transitioned(item, Status::Done, now).finished_at == (if item.finished_at is Some {
            item.finished_at
        } else {
            Some(now)
        }),
        transitioned(item, Status::Done, now).started_at == item.started_at,
        transitioned(item, Status::Todo, now).started_at is None,
        transitioned(item, Status::Todo, now).finished_at is None,
{
}

/// The timestamp rule is idempotent: applying it a second time, at any
/// later reading, never re-stamps a timestamp the first application set.
pub proof fn lemma_stamp_idempotent(item: Item, first: i64, second: i64)
    ensures
        stamped(stamped(item, first), second) == stamped(item, first),
{
}

} // verus!
