//! Direct movement from inbox to archive, outside a status transition.

use vstd::prelude::*;
use crate::item::{Item, Status};

verus! {

/// A finished item belongs in the archive.
pub fn should_auto_archive(item: &Item) -> (r: bool)
    ensures
        r == (item.status is Done),
{
    match item.status {
        Status::Done => true,
        _ => false,
    }
}

/// Moves the inbox item at `index` to the end of the archive and returns
/// it; an out-of-range index moves nothing.
pub fn move_to_archive(inbox: &mut Vec<Item>, archive: &mut Vec<Item>, index: usize) -> (r: Option<
    Item,
>)
    ensures
        index < old(inbox)@.len() ==> {
            &&& final(inbox)@ == old(inbox)@.remove(index as int)
            &&& final(archive)@ == old(archive)@.push(old(inbox)@[index as int])
            &&& r == Some(old(inbox)@[index as int])
        },
        index >= old(inbox)@.len() ==> {
            &&& *final(inbox) == *old(inbox)
            &&& *final(archive) == *old(archive)
            &&& r is None
        },
{
    if index < inbox.len() {
        let item = inbox.remove(index);
        archive.push(item.clone());
        Some(item)
    } else {
        None
    }
}

} // verus!
