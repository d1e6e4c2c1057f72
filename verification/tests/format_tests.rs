use folio::{Item, ItemType, Kind, Status, create_item};

fn item(name: &str, status: Status) -> Item {
    Item {
        name: name.to_string(),
        item_type: ItemType::BlogPost,
        status,
        author: String::new(),
        link: String::new(),
        // 2023-11-14 22:13:20 UTC
        added_at: 1_700_000_000_000,
        started_at: None,
        finished_at: None,
        note: String::new(),
        kind: Kind::Normal,
        version: 1,
    }
}

#[test]
fn list_row_lays_out_columns() {
    let mut it = item("Deep Work", Status::Todo);
    it.author = "Cal Newport".to_string();
    it.item_type = ItemType::Video;
    let row = it.format_for_list(3);
    assert_eq!(
        row,
        "3    T      Deep Work                      vid.       2023-11-14           Cal Newport    "
    );
}

#[test]
fn list_row_truncates_long_fields() {
    let mut it = item("abcdefghijklmnopqrstuvwxyz012345", Status::Done);
    it.author = "abcdefghijklmnop".to_string();
    let row = it.format_for_list(12);
    assert!(row.contains("abcdefghijklmnopqrstuvwxyz.."));
    assert!(!row.contains("abcdefghijklmnopqrstuvwxyz012345"));
    assert!(row.contains("abcdefghijk.."));
}

#[test]
fn list_header_and_separator() {
    let header = Item::format_list_header();
    assert_eq!(
        header,
        "ID   Status Name                           Type       Added                Author         "
    );
    let sep = Item::format_list_separator();
    assert_eq!(sep.len(), 100);
    assert!(sep.chars().all(|c| c == '-'));
}

#[test]
fn display_markers() {
    assert_eq!(Status::Todo.display_char(), "T");
    assert_eq!(Status::Doing.display_char(), "D");
    assert_eq!(Status::Done.display_char(), "\u{2713}");
    assert_eq!(Status::Todo.as_string(), "todo");
    assert_eq!(Status::Doing.display_emoji(), "\u{23f3}");
    assert_eq!(Kind::Normal.display_emoji(), "\u{2705}");
    assert_eq!(Kind::Reference.display_emoji(), "\u{1f516}");
    assert_eq!(ItemType::AcademicPaper.abbreviation(), "acad");
    assert_eq!(ItemType::Thread.as_string(), "thread");
}

#[test]
fn created_items_get_a_wall_clock_stamp() {
    let it = create_item("A".to_string(), None, None, None, None, None).unwrap();
    assert!(it.added_at > 1_600_000_000_000);
    assert_eq!(it.status, Status::Todo);
    assert_eq!(it.started_at, None);
    assert_eq!(it.finished_at, None);
}
