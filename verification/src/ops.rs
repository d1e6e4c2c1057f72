//! List-level operations behind the single-item commands: filtering the
//! combined listing, deleting by display id, archiving an inbox item
//! directly, toggling the reference kind, and applying an interactive
//! edit.

use vstd::prelude::*;
use crate::cli::{CliError, IdLocation, resolve_display_id, spec_resolve_display_id};
use crate::clock::now_millis;
use crate::item::{
    Item, ItemType, Kind, Status, spec_parse_item_type, spec_parse_status,
};
use crate::status::transitioned;
use crate::textops::{lower_of, lowercase};

verus! {

/// The view of an optional borrowed list of filter texts.
pub open spec fn opt_vec_view(v: Option<&Vec<String>>) -> Option<Seq<String>> {
    match v {
        Some(x) => Some(x@),
        None => None,
    }
}

/// A status passes the status filters when none are given, or when some
/// filter text, case-folded, names it.
pub open spec fn spec_status_accepts(filters: Option<Seq<String>>, s: Status) -> bool {
    match filters {
        None => true,
        Some(fs) => fs.len() == 0 || (exists|i: int|
            0 <= i < fs.len() && (#[trigger] spec_parse_status(lower_of(fs[i]@))) == Some(s)),
    }
}

/// An item type passes the type filters when none are given, or when some
/// filter text, case-folded, names it.
pub open spec fn spec_type_accepts(filters: Option<Seq<String>>, t: ItemType) -> bool {
    match filters {
        None => true,
        Some(fs) => fs.len() == 0 || (exists|i: int|
            0 <= i < fs.len() && (#[trigger] spec_parse_item_type(lower_of(fs[i]@))) == Some(t)),
    }
}

/// An item passes when its status and its type each pass.
pub open spec fn spec_passes_filters(
    status_filters: Option<Seq<String>>,
    type_filters: Option<Seq<String>>,
    item: Item,
) -> bool {
    spec_status_accepts(status_filters, item.status) && spec_type_accepts(
        type_filters,
        item.item_type,
    )
}

/// Whether the status passes the given status filters.
fn status_filter_accepts(filters: Option<&Vec<String>>, s: Status) -> (r: bool)
    ensures
        r == spec_status_accepts(opt_vec_view(filters), s),
{
    match filters {
        None => true,
        Some(fs) => {
            let n = fs.len();
            if n == 0 {
                return true;
            }
            let mut i: usize = 0;
            while i < n
                invariant
                    filters == Some(fs),
                    n == fs@.len(),
                    0 <= i <= n,
                    forall|j: int|
                        0 <= j < i ==> (#[trigger] spec_parse_status(lower_of(fs@[j]@))) != Some(
                            s,
                        ),
                decreases n - i,
            {
                let low = lowercase(fs[i].as_str());
                match Status::parse(low.as_str()) {
                    Some(st) => {
                        if st == s {
                            assert(spec_parse_status(lower_of(fs@[i as int]@)) == Some(s));
                            return true;
                        }
                    }
                    None => {}
                }
                i = i + 1;
            }
            false
        }
    }
}

/// Whether the item type passes the given type filters.
fn type_filter_accepts(filters: Option<&Vec<String>>, t: ItemType) -> (r: bool)
    ensures
        r == spec_type_accepts(opt_vec_view(filters), t),
{
    match filters {
        None => true,
        Some(fs) => {
            let n = fs.len();
            if n == 0 {
                return true;
            }
            let mut i: usize = 0;
            while i < n
                invariant
                    filters == Some(fs),
                    n == fs@.len(),
                    0 <= i <= n,
                    forall|j: int|
                        0 <= j < i ==> (#[trigger] spec_parse_item_type(lower_of(fs@[j]@)))
                            != Some(t),
                decreases n - i,
            {
                let low = lowercase(fs[i].as_str());
                match ItemType::parse(low.as_str()) {
                    Some(ty) => {
                        if ty == t {
                            assert(spec_parse_item_type(lower_of(fs@[i as int]@)) == Some(t));
                            return true;
                        }
                    }
                    None => {}
                }
                i = i + 1;
            }
            false
        }
    }
}

/// The items that pass both filter lists, kept in order.
pub open spec fn spec_filtered_items(
    items: Seq<Item>,
    status_filters: Option<Seq<String>>,
    type_filters: Option<Seq<String>>,
) -> Seq<Item>
    decreases items.len(),
{
    if items.len() == 0 {
        Seq::empty()
    } else {
        let rest = spec_filtered_items(items.drop_last(), status_filters, type_filters);
        if spec_passes_filters(status_filters, type_filters, items.last()) {
            rest.push(items.last())
        } else {
            rest
        }
    }
}

/// Keeps, in order, exactly the items whose status and type pass the two
/// filter lists; a missing or empty filter list passes everything.
pub fn filter_items(
    items: Vec<Item>,
    status_filters: Option<&Vec<String>>,
    type_filters: Option<&Vec<String>>,
) -> (r: Vec<Item>)
    ensures
        r@ == spec_filtered_items(items@, opt_vec_view(status_filters), opt_vec_view(type_filters)),
{
    let ghost sf = opt_vec_view(status_filters);
    let ghost tf = opt_vec_view(type_filters);
    let mut out: Vec<Item> = Vec::new();
    let n = items.len();
    let mut i: usize = 0;
    proof {
        assert(items@.subrange(0, 0) =~= Seq::<Item>::empty());
    }
    while i < n
        invariant
            n == items@.len(),
            0 <= i <= n,
            sf == opt_vec_view(status_filters),
            tf == opt_vec_view(type_filters),
            out@ == spec_filtered_items(items@.subrange(0, i as int), sf, tf),
        decreases n - i,
    {
        let keep_s = status_filter_accepts(status_filters, items[i].status);
        let keep_t = type_filter_accepts(type_filters, items[i].item_type);
        proof {
            let prefix = items@.subrange(0, i as int);
            let prefix2 = items@.subrange(0, i + 1);
            assert(prefix2.drop_last() =~= prefix);
            assert(prefix2.last() == items@[i as int]);
        }
        if keep_s && keep_t {
            out.push(items[i].clone());
        }
        i = i + 1;
    }
    proof {
        assert(items@.subrange(0, n as int) =~= items@);
    }
    out
}

/// Deletes the item a display id points at, returning the removed item;
/// an unresolved id deletes nothing.
pub fn delete_item(inbox: &mut Vec<Item>, archive: &mut Vec<Item>, item_id: usize) -> (r: Option<
    Item,
>)
    ensures
        match spec_resolve_display_id(
            item_id as int,
            old(inbox)@.len() as int,
            old(archive)@.len() as int,
        ) {
            IdLocation::InInbox { index } => {
                &&& final(inbox)@ == old(inbox)@.remove(index as int)
                &&& *final(archive) == *old(archive)
                &&& r == Some(old(inbox)@[index as int])
            },
            IdLocation::InArchive { index } => {
                &&& *final(inbox) == *old(inbox)
                &&& final(archive)@ == old(archive)@.remove(index as int)
                &&& r == Some(old(archive)@[index as int])
            },
            IdLocation::NotFound => {
                &&& *final(inbox) == *old(inbox)
                &&& *final(archive) == *old(archive)
                &&& r is None
            },
        },
{
    match resolve_display_id(item_id, inbox.len(), archive.len()) {
        IdLocation::InInbox { index } => Some(inbox.remove(index)),
        IdLocation::InArchive { index } => Some(archive.remove(index)),
        IdLocation::NotFound => None,
    }
}

/// What a direct archive request found.
#[derive(Debug, PartialEq)]
pub enum ArchiveOutcome {
    Archived(Item),
    AlreadyArchived,
    NotFound,
}

/// What archiving by display id must do: an inbox id removes the item and
/// yields it marked Done, stamped at `now`; an archive id and an
/// unresolved id leave the inbox as it was.
pub open spec fn archive_outcome_matches(
    inbox0: Seq<Item>,
    inbox1: Seq<Item>,
    archive_len: int,
    item_id: int,
    now: i64,
    r: ArchiveOutcome,
) -> bool {
    match spec_resolve_display_id(item_id, inbox0.len() as int, archive_len) {
        IdLocation::InInbox { index } => {
            &&& inbox1 == inbox0.remove(index as int)
            &&& r == ArchiveOutcome::Archived(
                transitioned(inbox0[index as int], Status::Done, now),
            )
        },
        IdLocation::InArchive { index } => inbox1 == inbox0 && r
            == ArchiveOutcome::AlreadyArchived,
        IdLocation::NotFound => inbox1 == inbox0 && r == ArchiveOutcome::NotFound,
    }
}

/// Archives the inbox item a display id points at: removes it from the
/// inbox and returns it marked Done, stamped at clock reading `now`, for
/// the caller to append to the archive.  An id already in the archive
/// changes nothing, and an unresolved id changes nothing.
pub fn archive_item_at(
    inbox: &mut Vec<Item>,
    archive_len: usize,
    item_id: usize,
    now: i64,
) -> (r: ArchiveOutcome)
    ensures
        archive_outcome_matches(
            old(inbox)@,
            final(inbox)@,
            archive_len as int,
            item_id as int,
            now,
            r,
        ),
{
    match resolve_display_id(item_id, inbox.len(), archive_len) {
        IdLocation::InInbox { index } => {
            let mut item = inbox.remove(index);
            item.status = Status::Done;
            crate::status::update_timestamps_at(&mut item, now);
            ArchiveOutcome::Archived(item)
        }
        IdLocation::InArchive { index: _ } => ArchiveOutcome::AlreadyArchived,
        IdLocation::NotFound => ArchiveOutcome::NotFound,
    }
}

/// Archives at the current wall clock; only the clock reading that stamps
/// the item is left open.
pub fn archive_item(inbox: &mut Vec<Item>, archive_len: usize, item_id: usize) -> (r:
    ArchiveOutcome)
    ensures
        exists|now: i64|
            #[trigger] archive_outcome_matches(
                old(inbox)@,
                final(inbox)@,
                archive_len as int,
                item_id as int,
                now,
                r,
            ),
{
    let ghost inbox0 = inbox@;
    let now = now_millis();
    let r = archive_item_at(inbox, archive_len, item_id, now);
    assert(archive_outcome_matches(inbox0, inbox@, archive_len as int, item_id as int, now, r));
    r
}

/// The other kind.
pub open spec fn flipped_kind(k: Kind) -> Kind {
    match k {
        Kind::Normal => Kind::Reference,
        Kind::Reference => Kind::Normal,
    }
}

/// Flips an item between normal and reference kind.
pub fn toggle_reference(item: &mut Item)
    ensures
        *final(item) == (Item { kind: flipped_kind(old(item).kind), ..*old(item) }),
{
    match item.kind {
        Kind::Normal => item.kind = Kind::Reference,
        Kind::Reference => item.kind = Kind::Normal,
    }
}

/// Applies an interactive edit: a non-empty input replaces the matching
/// field, an empty input keeps it.  A non-empty type text must name an
/// item type, and the resulting name must be non-empty; otherwise nothing
/// changes and the fault is named.
pub fn apply_item_edits(
    item: &mut Item,
    name: &str,
    type_text: &str,
    author: &str,
    link: &str,
    note: &str,
) -> (r: Result<(), CliError>)
    ensures
        (type_text@.len() > 0 && spec_parse_item_type(type_text@) is None) ==> {
            &&& *final(item) == *old(item)
            &&& (r matches Err(CliError::InvalidItemType { item_type: t }) && t@ == type_text@)
        },
        !(type_text@.len() > 0 && spec_parse_item_type(type_text@) is None) ==> {
            if name@.len() == 0 && old(item).name@.len() == 0 {
                &&& *final(item) == *old(item)
                &&& (r matches Err(CliError::ValidationError { message }) && message@
                    == "Name cannot be empty"@)
            } else {
                &&& r is Ok
                &&& final(item).name@ == (if name@.len() > 0 {
                    name@
                } else {
                    old(item).name@
                })
                &&& final(item).item_type == (if type_text@.len() > 0 {
                    spec_parse_item_type(type_text@)->Some_0
                } else {
                    old(item).item_type
                })
                &&& final(item).author@ == (if author@.len() > 0 {
                    author@
                } else {
                    old(item).author@
                })
                &&& final(item).link@ == (if link@.len() > 0 {
                    link@
                } else {
                    old(item).link@
                })
                &&& final(item).note@ == (if note@.len() > 0 {
                    note@
                } else {
                    old(item).note@
                })
                &&& final(item).status == old(item).status
                &&& final(item).added_at == old(item).added_at
                &&& final(item).started_at == old(item).started_at
                &&& final(item).finished_at == old(item).finished_at
                &&& final(item).kind == old(item).kind
                &&& final(item).version == old(item).version
            }
        },
{
    let new_type = if type_text.is_empty() {
        item.item_type
    } else {
        match ItemType::parse(type_text) {
            Some(t) => t,
            None => {
                return Err(CliError::InvalidItemType { item_type: type_text.to_owned() });
            }
        }
    };

    if name.is_empty() && item.name.as_str().is_empty() {
        return Err(
            CliError::ValidationError { message: String::from_str("Name cannot be empty") },
        );
    }

    if !name.is_empty() {
        item.name = name.to_owned();
    }
    item.item_type = new_type;
    if !author.is_empty() {
        item.author = author.to_owned();
    }
    if !link.is_empty() {
        item.link = link.to_owned();
    }
    if !note.is_empty() {
        item.note = note.to_owned();
    }
    Ok(())
}

} // verus!
