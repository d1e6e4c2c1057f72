use folio::cap::add_with_cap;
use folio::item::create_item_at;
use folio::status::{change_item_status_at, update_timestamps_at};
use folio::{CapError, CoreError, Item, ItemType, Kind, OverflowStrategy, Status};

fn item(name: &str, status: Status) -> Item {
    Item {
        name: name.to_string(),
        item_type: ItemType::BlogPost,
        status,
        author: String::new(),
        link: String::new(),
        added_at: 0,
        started_at: None,
        finished_at: None,
        note: String::new(),
        kind: Kind::Normal,
        version: 1,
    }
}

#[test]
fn validate_rejects_empty_name() {
    let it = item("", Status::Todo);
    match it.validate() {
        Err(CoreError::ValidationError(msg)) => assert_eq!(msg, "Name cannot be empty"),
        other => panic!("expected a validation error, got {:?}", other),
    }
}

#[test]
fn validate_accepts_nonempty_name() {
    let it = item("Deep Work", Status::Todo);
    assert!(it.validate().is_ok());
}

#[test]
fn create_item_defaults() {
    let it = create_item_at("A".to_string(), None, None, None, None, None, 77).unwrap();
    assert_eq!(it.name, "A");
    assert_eq!(it.item_type, ItemType::BlogPost);
    assert_eq!(it.status, Status::Todo);
    assert_eq!(it.author, "");
    assert_eq!(it.link, "");
    assert_eq!(it.added_at, 77);
    assert_eq!(it.started_at, None);
    assert_eq!(it.finished_at, None);
    assert_eq!(it.kind, Kind::Normal);
    assert_eq!(it.version, 1);
}

#[test]
fn create_item_parses_type_and_kind() {
    let it = create_item_at(
        "A".to_string(),
        Some("academic_paper".to_string()),
        Some("K".to_string()),
        Some("http://x".to_string()),
        Some("n".to_string()),
        Some("reference".to_string()),
        5,
    )
    .unwrap();
    assert_eq!(it.item_type, ItemType::AcademicPaper);
    assert_eq!(it.kind, Kind::Reference);
    assert_eq!(it.author, "K");
    assert_eq!(it.link, "http://x");
    assert_eq!(it.note, "n");
}

#[test]
fn create_item_unknown_type_falls_back() {
    let it = create_item_at(
        "A".to_string(),
        Some("mixtape".to_string()),
        None,
        None,
        None,
        Some("mystery".to_string()),
        5,
    )
    .unwrap();
    assert_eq!(it.item_type, ItemType::BlogPost);
    assert_eq!(it.kind, Kind::Normal);
}

#[test]
fn create_item_rejects_empty_name() {
    assert!(create_item_at(String::new(), None, None, None, None, None, 5).is_err());
}

#[test]
fn timestamps_doing_stamps_once() {
    let mut it = item("A", Status::Doing);
    update_timestamps_at(&mut it, 100);
    assert_eq!(it.started_at, Some(100));
    update_timestamps_at(&mut it, 200);
    assert_eq!(it.started_at, Some(100));
    assert_eq!(it.finished_at, None);
}

#[test]
fn timestamps_done_stamps_once() {
    let mut it = item("A", Status::Done);
    it.finished_at = Some(42);
    update_timestamps_at(&mut it, 100);
    assert_eq!(it.finished_at, Some(42));
}

#[test]
fn timestamps_todo_clears_both() {
    let mut it = item("A", Status::Todo);
    it.started_at = Some(1);
    it.finished_at = Some(2);
    update_timestamps_at(&mut it, 100);
    assert_eq!(it.started_at, None);
    assert_eq!(it.finished_at, None);
}

#[test]
fn transition_flags() {
    let mut it = item("A", Status::Todo);
    let tr = change_item_status_at(&mut it, Status::Done, 9);
    assert_eq!(tr.old_status, Status::Todo);
    assert_eq!(tr.new_status, Status::Done);
    assert!(tr.should_archive);
    assert!(!tr.should_move_to_inbox);
    assert!(tr.status_changed);
    assert_eq!(it.status, Status::Done);
    assert_eq!(it.finished_at, Some(9));

    let mut back = item("B", Status::Done);
    let tr2 = change_item_status_at(&mut back, Status::Doing, 9);
    assert!(!tr2.should_archive);
    assert!(tr2.should_move_to_inbox);
    assert!(tr2.status_changed);

    let mut same = item("C", Status::Doing);
    let tr3 = change_item_status_at(&mut same, Status::Doing, 9);
    assert!(!tr3.should_archive);
    assert!(!tr3.should_move_to_inbox);
    assert!(!tr3.status_changed);
}

#[test]
fn admit_below_capacity_appends() {
    let inbox = vec![item("A", Status::Todo)];
    let (new_inbox, evicted) =
        add_with_cap(inbox, item("B", Status::Todo), 2, OverflowStrategy::Abort).unwrap();
    assert_eq!(new_inbox.len(), 2);
    assert_eq!(new_inbox[1].name, "B");
    assert!(evicted.is_empty());
}

#[test]
fn admit_abort_on_full_fails() {
    let inbox = vec![item("A", Status::Todo)];
    let r = add_with_cap(inbox, item("B", Status::Todo), 1, OverflowStrategy::Abort);
    match r {
        Err(CapError::Full) => {}
        other => panic!("expected Full, got {:?}", other),
    }
}

#[test]
fn admit_todo_evicts_first_todo() {
    let inbox = vec![
        item("A", Status::Doing),
        item("B", Status::Todo),
        item("C", Status::Todo),
    ];
    let (new_inbox, evicted) =
        add_with_cap(inbox, item("D", Status::Todo), 3, OverflowStrategy::Todo).unwrap();
    assert_eq!(evicted.len(), 1);
    assert_eq!(evicted[0].name, "B");
    assert_eq!(evicted[0].status, Status::Done);
    assert!(evicted[0].finished_at.is_some());
    assert_eq!(new_inbox.len(), 3);
    assert_eq!(new_inbox[0].name, "A");
    assert_eq!(new_inbox[1].name, "C");
    assert_eq!(new_inbox[2].name, "D");
}

#[test]
fn admit_todo_without_todo_fails() {
    let inbox = vec![item("A", Status::Doing), item("B", Status::Done)];
    let r = add_with_cap(inbox, item("C", Status::Todo), 2, OverflowStrategy::Todo);
    assert!(matches!(r, Err(CapError::Full)));
}

#[test]
fn admit_any_evicts_oldest() {
    let inbox = vec![item("A", Status::Doing), item("B", Status::Doing)];
    let (new_inbox, evicted) =
        add_with_cap(inbox, item("C", Status::Todo), 2, OverflowStrategy::Any).unwrap();
    assert_eq!(evicted.len(), 1);
    assert_eq!(evicted[0].name, "A");
    assert_eq!(evicted[0].status, Status::Done);
    assert_eq!(new_inbox.len(), 2);
    assert_eq!(new_inbox[0].name, "B");
    assert_eq!(new_inbox[1].name, "C");
}

#[test]
fn admit_any_on_empty_inbox_fails() {
    let inbox: Vec<Item> = Vec::new();
    let r = add_with_cap(inbox, item("A", Status::Todo), 0, OverflowStrategy::Any);
    assert!(matches!(r, Err(CapError::Full)));
}

#[test]
fn should_auto_archive_only_done() {
    assert!(folio::should_auto_archive(&item("A", Status::Done)));
    assert!(!folio::should_auto_archive(&item("A", Status::Todo)));
    assert!(!folio::should_auto_archive(&item("A", Status::Doing)));
}

#[test]
fn move_to_archive_moves_indexed_item() {
    let mut inbox = vec![item("A", Status::Done), item("B", Status::Todo)];
    let mut archive: Vec<Item> = Vec::new();
    let moved = folio::move_to_archive(&mut inbox, &mut archive, 0);
    assert_eq!(moved.unwrap().name, "A");
    assert_eq!(inbox.len(), 1);
    assert_eq!(inbox[0].name, "B");
    assert_eq!(archive.len(), 1);
    assert_eq!(archive[0].name, "A");

    let none = folio::move_to_archive(&mut inbox, &mut archive, 5);
    assert!(none.is_none());
    assert_eq!(inbox.len(), 1);
    assert_eq!(archive.len(), 1);
}
