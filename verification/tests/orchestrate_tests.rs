use folio::orchestrate::{add_item_to_inbox_at, update_item_status_at};
use folio::{
    Config, CoreError, Item, ItemType, Kind, OverflowStrategy, Status, update_item_status,
};

fn item(name: &str, status: Status) -> Item {
    Item {
        name: name.to_string(),
        item_type: ItemType::BlogPost,
        status,
        author: String::new(),
        link: String::new(),
        added_at: 0,
        started_at: None,
        finished_at: None,
        note: String::new(),
        kind: Kind::Normal,
        version: 1,
    }
}

fn config(max_items: u32, strategy: OverflowStrategy) -> Config {
    Config { max_items, archive_on_overflow: strategy, version: 1 }
}

#[test]
fn unknown_id_reports_not_found_and_keeps_lists() {
    let inbox = vec![item("A", Status::Todo)];
    let archive = vec![item("X", Status::Done)];
    let cfg = config(5, OverflowStrategy::Abort);
    let res = update_item_status(99, Status::Done, inbox.clone(), archive.clone(), &cfg).unwrap();
    assert!(!res.item_found);
    assert_eq!(res.inbox_items, inbox);
    assert_eq!(res.archive_items, archive);
    assert!(res.moved_to_archive.is_empty());
    assert!(!res.moved_to_inbox);
    assert!(res.overflow_items.is_empty());

    let res0 = update_item_status(0, Status::Done, inbox.clone(), archive.clone(), &cfg).unwrap();
    assert!(!res0.item_found);
}

#[test]
fn finishing_an_inbox_item_archives_it() {
    let inbox = vec![item("A", Status::Doing), item("B", Status::Todo)];
    let archive: Vec<Item> = Vec::new();
    let cfg = config(5, OverflowStrategy::Abort);
    let res = update_item_status_at(1, Status::Done, inbox, archive, &cfg, 50).unwrap();
    assert!(res.item_found);
    assert_eq!(res.inbox_items.len(), 1);
    assert_eq!(res.inbox_items[0].name, "B");
    assert_eq!(res.archive_items.len(), 1);
    assert_eq!(res.archive_items[0].name, "A");
    assert_eq!(res.archive_items[0].status, Status::Done);
    assert_eq!(res.archive_items[0].finished_at, Some(50));
    assert_eq!(res.moved_to_archive.len(), 1);
    assert_eq!(res.moved_to_archive[0].name, "A");
    assert!(!res.moved_to_inbox);
}

#[test]
fn status_change_within_inbox_updates_in_place() {
    let inbox = vec![item("A", Status::Todo)];
    let archive: Vec<Item> = Vec::new();
    let cfg = config(5, OverflowStrategy::Abort);
    let res = update_item_status_at(1, Status::Doing, inbox, archive, &cfg, 50).unwrap();
    assert!(res.item_found);
    assert_eq!(res.inbox_items.len(), 1);
    assert_eq!(res.inbox_items[0].status, Status::Doing);
    assert_eq!(res.inbox_items[0].started_at, Some(50));
    assert!(res.archive_items.is_empty());
    assert!(res.moved_to_archive.is_empty());
}

#[test]
fn reinstating_an_archived_item_fills_the_inbox() {
    // Archive = [X(Done)], Inbox = [], capacity 5: setting X to Doing
    // moves it into the inbox with no eviction.
    let inbox: Vec<Item> = Vec::new();
    let mut x = item("X", Status::Done);
    x.finished_at = Some(7);
    let archive = vec![x];
    let cfg = config(5, OverflowStrategy::Any);
    let res = update_item_status_at(1, Status::Doing, inbox, archive, &cfg, 50).unwrap();
    assert!(res.item_found);
    assert!(res.moved_to_inbox);
    assert!(res.overflow_items.is_empty());
    assert_eq!(res.inbox_items.len(), 1);
    assert_eq!(res.inbox_items[0].name, "X");
    assert_eq!(res.inbox_items[0].status, Status::Doing);
    assert!(res.archive_items.is_empty());
}

#[test]
fn reinstating_with_overflow_archives_the_eviction() {
    // Inbox full under Any: reinstating pushes the oldest inbox item out,
    // and the eviction lands in the archive.
    let inbox = vec![item("A", Status::Todo)];
    let mut x = item("X", Status::Done);
    x.finished_at = Some(7);
    let archive = vec![x];
    let cfg = config(1, OverflowStrategy::Any);
    let res = update_item_status_at(1 + 1, Status::Todo, inbox, archive, &cfg, 50).unwrap();
    assert!(res.item_found);
    assert!(res.moved_to_inbox);
    assert_eq!(res.overflow_items.len(), 1);
    assert_eq!(res.overflow_items[0].name, "A");
    assert_eq!(res.overflow_items[0].status, Status::Done);
    assert_eq!(res.inbox_items.len(), 1);
    assert_eq!(res.inbox_items[0].name, "X");
    assert_eq!(res.archive_items.len(), 1);
    assert_eq!(res.archive_items[0].name, "A");
}

#[test]
fn rollback_on_full_inbox_under_abort() {
    // Reinstatement under Abort with a full inbox fails as InboxFull and
    // the caller's lists stand exactly as before.
    let inbox = vec![item("A", Status::Doing)];
    let mut x = item("X", Status::Done);
    x.finished_at = Some(7);
    let archive = vec![x.clone(), item("Y", Status::Done)];
    let cfg = config(1, OverflowStrategy::Abort);
    let r = update_item_status_at(2, Status::Todo, inbox.clone(), archive.clone(), &cfg, 50);
    match r {
        Err(CoreError::InboxFull) => {}
        other => panic!("expected InboxFull, got {:?}", other),
    }
    // the lists the caller holds are untouched, same items in same order
    assert_eq!(inbox.len(), 1);
    assert_eq!(inbox[0].name, "A");
    assert_eq!(archive.len(), 2);
    assert_eq!(archive[0].name, "X");
    assert_eq!(archive[1].name, "Y");
}

#[test]
fn archived_item_status_change_without_move() {
    // Done -> Done on an archived item touches nothing but the item.
    let inbox: Vec<Item> = Vec::new();
    let mut x = item("X", Status::Done);
    x.finished_at = Some(7);
    let archive = vec![x];
    let cfg = config(5, OverflowStrategy::Abort);
    let res = update_item_status_at(1, Status::Done, inbox, archive, &cfg, 50).unwrap();
    assert!(res.item_found);
    assert!(!res.moved_to_inbox);
    assert_eq!(res.archive_items.len(), 1);
    assert_eq!(res.archive_items[0].finished_at, Some(7));
}

#[test]
fn add_item_to_inbox_validates_first() {
    let cfg = config(5, OverflowStrategy::Abort);
    let r = add_item_to_inbox_at(Vec::new(), item("", Status::Todo), &cfg, 50);
    match r {
        Err(CoreError::ValidationError(m)) => assert_eq!(m, "Name cannot be empty"),
        other => panic!("expected a validation error, got {:?}", other),
    }
}

#[test]
fn add_item_to_inbox_maps_full_to_inbox_full() {
    let cfg = config(1, OverflowStrategy::Abort);
    let inbox = vec![item("A", Status::Todo)];
    let r = add_item_to_inbox_at(inbox, item("B", Status::Todo), &cfg, 50);
    assert!(matches!(r, Err(CoreError::InboxFull)));
}

#[test]
fn reference_items_bypass_the_inbox() {
    let mut r = item("Ref", Status::Todo);
    r.kind = Kind::Reference;
    let (routed, direct) = folio::orchestrate::route_new_item_at(r, 80);
    assert!(direct);
    assert_eq!(routed.status, Status::Done);
    assert_eq!(routed.finished_at, Some(80));

    let n = item("N", Status::Todo);
    let (same, direct2) = folio::orchestrate::route_new_item_at(n.clone(), 80);
    assert!(!direct2);
    assert_eq!(same, n);
}

#[test]
fn scenario_capacity_two_any_strategy() {
    // Inbox capacity 2, strategy Any, Inbox = [A(Todo), B(Doing)].
    // Adding C evicts A (now Done), Inbox = [B, C], Archive = [A].
    let inbox = vec![item("A", Status::Todo), item("B", Status::Doing)];
    let mut archive: Vec<Item> = Vec::new();
    let cfg = config(2, OverflowStrategy::Any);
    let (new_inbox, evicted) =
        add_item_to_inbox_at(inbox, item("C", Status::Todo), &cfg, 50).unwrap();
    for e in &evicted {
        archive.push(e.clone());
    }
    assert_eq!(new_inbox.len(), 2);
    assert_eq!(new_inbox[0].name, "B");
    assert_eq!(new_inbox[1].name, "C");
    assert_eq!(archive.len(), 1);
    assert_eq!(archive[0].name, "A");
    assert_eq!(archive[0].status, Status::Done);
    assert_eq!(archive[0].finished_at, Some(50));
}

#[test]
fn scenario_capacity_one_abort_strategy() {
    // Inbox capacity 1, strategy Abort, Inbox = [A]: adding B fails with
    // Full and the inbox is unchanged.
    let inbox = vec![item("A", Status::Todo)];
    let cfg = config(1, OverflowStrategy::Abort);
    let r = add_item_to_inbox_at(inbox.clone(), item("B", Status::Todo), &cfg, 50);
    assert!(matches!(r, Err(CoreError::InboxFull)));
    assert_eq!(inbox.len(), 1);
    assert_eq!(inbox[0].name, "A");
}
