use folio::cli::{IdLocation, resolve_display_id};
use folio::ops::{
    ArchiveOutcome, apply_item_edits, archive_item_at, delete_item, filter_items,
    toggle_reference,
};
use folio::textops::parse_u32;
use folio::{
    CliError, Config, CoreError, Item, ItemType, Kind, OverflowStrategy, Status,
    apply_config_set,
};

fn item(name: &str, status: Status) -> Item {
    Item {
        name: name.to_string(),
        item_type: ItemType::BlogPost,
        status,
        author: String::new(),
        link: String::new(),
        added_at: 0,
        started_at: None,
        finished_at: None,
        note: String::new(),
        kind: Kind::Normal,
        version: 1,
    }
}

#[test]
fn display_ids_span_inbox_then_archive() {
    assert_eq!(resolve_display_id(1, 2, 3), IdLocation::InInbox { index: 0 });
    assert_eq!(resolve_display_id(2, 2, 3), IdLocation::InInbox { index: 1 });
    assert_eq!(resolve_display_id(3, 2, 3), IdLocation::InArchive { index: 0 });
    assert_eq!(resolve_display_id(5, 2, 3), IdLocation::InArchive { index: 2 });
    assert_eq!(resolve_display_id(6, 2, 3), IdLocation::NotFound);
    assert_eq!(resolve_display_id(0, 2, 3), IdLocation::NotFound);
}

#[test]
fn parse_u32_reads_decimal() {
    assert_eq!(parse_u32("0"), Some(0));
    assert_eq!(parse_u32("30"), Some(30));
    assert_eq!(parse_u32("+30"), Some(30));
    assert_eq!(parse_u32("007"), Some(7));
    assert_eq!(parse_u32("4294967295"), Some(u32::MAX));
    assert_eq!(parse_u32("4294967296"), None);
    assert_eq!(parse_u32("99999999999999999999"), None);
    assert_eq!(parse_u32(""), None);
    assert_eq!(parse_u32("+"), None);
    assert_eq!(parse_u32("-3"), None);
    assert_eq!(parse_u32("3a"), None);
}

#[test]
fn config_set_max_items() {
    let cfg = Config::new();
    let (updated, r) = apply_config_set(cfg, "max_items", "100");
    assert!(r.is_ok());
    assert_eq!(updated.max_items, 100);
    assert_eq!(updated.archive_on_overflow, OverflowStrategy::Abort);

    let (kept, r2) = apply_config_set(cfg, "max_items", "abc");
    assert_eq!(kept, cfg);
    assert!(matches!(r2, Err(CliError::InvalidMaxItems { .. })));

    let (kept3, r3) = apply_config_set(cfg, "max_items", "0");
    assert_eq!(kept3, cfg);
    assert!(matches!(r3, Err(CliError::InvalidMaxItems { .. })));

    let (kept4, r4) = apply_config_set(cfg, "max_items", "1001");
    assert_eq!(kept4, cfg);
    assert!(matches!(r4, Err(CliError::InvalidMaxItems { .. })));

    let (upd5, r5) = apply_config_set(cfg, "max_items", "1000");
    assert!(r5.is_ok());
    assert_eq!(upd5.max_items, 1000);
}

#[test]
fn config_set_overflow_strategy() {
    let cfg = Config::new();
    let (a, r) = apply_config_set(cfg, "archive_on_overflow", "todo");
    assert!(r.is_ok());
    assert_eq!(a.archive_on_overflow, OverflowStrategy::Todo);
    let (b, r2) = apply_config_set(cfg, "archive_on_overflow", "any");
    assert!(r2.is_ok());
    assert_eq!(b.archive_on_overflow, OverflowStrategy::Any);
    let (c, r3) = apply_config_set(cfg, "archive_on_overflow", "abort");
    assert!(r3.is_ok());
    assert_eq!(c.archive_on_overflow, OverflowStrategy::Abort);
    let (kept, r4) = apply_config_set(cfg, "archive_on_overflow", "sometimes");
    assert_eq!(kept, cfg);
    assert!(matches!(r4, Err(CliError::InvalidOverflowStrategy { .. })));
}

#[test]
fn config_set_unknown_key() {
    let cfg = Config::new();
    let (kept, r) = apply_config_set(cfg, "colour", "red");
    assert_eq!(kept, cfg);
    match r {
        Err(CliError::UnknownConfigKey { key }) => assert_eq!(key, "colour"),
        other => panic!("expected UnknownConfigKey, got {:?}", other),
    }
}

#[test]
fn core_errors_map_to_cli_errors() {
    match CliError::from_core(CoreError::ValidationError("boom".to_string())) {
        CliError::ValidationError { message } => assert_eq!(message, "boom"),
        other => panic!("unexpected {:?}", other),
    }
    match CliError::from_core(CoreError::ItemNotFound) {
        CliError::ValidationError { message } => assert_eq!(message, "Item not found"),
        other => panic!("unexpected {:?}", other),
    }
    match CliError::from_core(CoreError::InboxFull) {
        CliError::ValidationError { message } => assert_eq!(message, "Inbox is full"),
        other => panic!("unexpected {:?}", other),
    }
}

#[test]
fn parse_names_for_enums() {
    assert_eq!(ItemType::parse("blog_post"), Some(ItemType::BlogPost));
    assert_eq!(ItemType::parse("academic_paper"), Some(ItemType::AcademicPaper));
    assert_eq!(ItemType::parse("Article"), None);
    assert_eq!(Status::parse("todo"), Some(Status::Todo));
    assert_eq!(Status::parse("doing"), Some(Status::Doing));
    assert_eq!(Status::parse("done"), Some(Status::Done));
    assert_eq!(Status::parse("DONE"), None);
    assert_eq!(Kind::parse("normal"), Some(Kind::Normal));
    assert_eq!(Kind::parse("reference"), Some(Kind::Reference));
    assert_eq!(Kind::parse("ref"), None);
}

#[test]
fn filters_match_case_insensitively() {
    let items = vec![
        item("A", Status::Todo),
        item("B", Status::Doing),
        item("C", Status::Done),
    ];
    let status_filters = vec!["TODO".to_string(), "done".to_string()];
    let kept = filter_items(items, Some(&status_filters), None);
    assert_eq!(kept.len(), 2);
    assert_eq!(kept[0].name, "A");
    assert_eq!(kept[1].name, "C");
}

#[test]
fn filters_match_item_types() {
    let mut video = item("V", Status::Todo);
    video.item_type = ItemType::Video;
    let items = vec![item("A", Status::Todo), video];
    let type_filters = vec!["Video".to_string()];
    let kept = filter_items(items, None, Some(&type_filters));
    assert_eq!(kept.len(), 1);
    assert_eq!(kept[0].name, "V");
}

#[test]
fn empty_filter_lists_pass_everything() {
    let items = vec![item("A", Status::Todo), item("B", Status::Done)];
    let none: Vec<String> = Vec::new();
    let kept = filter_items(items.clone(), Some(&none), Some(&none));
    assert_eq!(kept, items);
}

#[test]
fn delete_by_display_id() {
    let mut inbox = vec![item("A", Status::Todo), item("B", Status::Doing)];
    let mut archive = vec![item("X", Status::Done)];
    let gone = delete_item(&mut inbox, &mut archive, 2).unwrap();
    assert_eq!(gone.name, "B");
    assert_eq!(inbox.len(), 1);

    let gone2 = delete_item(&mut inbox, &mut archive, 2).unwrap();
    assert_eq!(gone2.name, "X");
    assert!(archive.is_empty());

    assert!(delete_item(&mut inbox, &mut archive, 9).is_none());
    assert_eq!(inbox.len(), 1);
}

#[test]
fn archive_by_display_id() {
    let mut inbox = vec![item("A", Status::Doing)];
    match archive_item_at(&mut inbox, 1, 1, 60) {
        ArchiveOutcome::Archived(it) => {
            assert_eq!(it.name, "A");
            assert_eq!(it.status, Status::Done);
            assert_eq!(it.finished_at, Some(60));
        }
        other => panic!("expected Archived, got {:?}", other),
    }
    assert!(inbox.is_empty());

    let mut inbox2 = vec![item("B", Status::Todo)];
    assert_eq!(archive_item_at(&mut inbox2, 1, 2, 60), ArchiveOutcome::AlreadyArchived);
    assert_eq!(archive_item_at(&mut inbox2, 1, 9, 60), ArchiveOutcome::NotFound);
    assert_eq!(inbox2.len(), 1);
}

#[test]
fn toggle_reference_flips_kind() {
    let mut it = item("A", Status::Done);
    toggle_reference(&mut it);
    assert_eq!(it.kind, Kind::Reference);
    toggle_reference(&mut it);
    assert_eq!(it.kind, Kind::Normal);
}

#[test]
fn edits_apply_only_nonempty_inputs() {
    let mut it = item("Old name", Status::Doing);
    it.author = "Old author".to_string();
    let r = apply_item_edits(&mut it, "New name", "video", "", "http://x", "a note");
    assert!(r.is_ok());
    assert_eq!(it.name, "New name");
    assert_eq!(it.item_type, ItemType::Video);
    assert_eq!(it.author, "Old author");
    assert_eq!(it.link, "http://x");
    assert_eq!(it.note, "a note");
    assert_eq!(it.status, Status::Doing);
}

#[test]
fn edits_reject_unknown_type() {
    let mut it = item("A", Status::Todo);
    let before = it.clone();
    let r = apply_item_edits(&mut it, "B", "mixtape", "", "", "");
    assert!(matches!(r, Err(CliError::InvalidItemType { .. })));
    assert_eq!(it, before);
}

#[test]
fn edits_reject_vanishing_name() {
    let mut it = item("", Status::Todo);
    let r = apply_item_edits(&mut it, "", "", "", "", "");
    assert!(matches!(r, Err(CliError::ValidationError { .. })));
}
