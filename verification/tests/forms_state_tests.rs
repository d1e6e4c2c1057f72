use folio::state::AppState;
use folio::{
    Config, FieldType, FormKey, FormType, Item, ItemForm, ItemType, Kind, OverflowStrategy,
    Status, View,
};

fn item(name: &str, status: Status) -> Item {
    Item {
        name: name.to_string(),
        item_type: ItemType::BlogPost,
        status,
        author: String::new(),
        link: String::new(),
        added_at: 0,
        started_at: None,
        finished_at: None,
        note: String::new(),
        kind: Kind::Normal,
        version: 1,
    }
}

#[test]
fn new_add_form_focuses_name() {
    let form = ItemForm::new(FormType::Add);
    assert_eq!(form.fields.len(), 5);
    assert!(form.fields[0].is_focused);
    assert_eq!(form.fields[0].label, "Name");
    assert_eq!(form.fields[1].value, "blog_post");
    assert!(!form.is_visible);
    let edit = ItemForm::new(FormType::Edit);
    assert!(!edit.fields[0].is_focused);
}

#[test]
fn populate_copies_item_fields() {
    let mut form = ItemForm::new(FormType::Edit);
    let mut it = item("Deep Work", Status::Doing);
    it.item_type = ItemType::Podcast;
    it.author = "Newport".to_string();
    it.link = "http://x".to_string();
    it.note = "n".to_string();
    form.populate_fields(&it);
    assert_eq!(form.fields[0].value, "Deep Work");
    assert_eq!(form.fields[1].value, "podcast");
    assert_eq!(form.fields[1].field_type, FieldType::Dropdown { selected: 2 });
    assert_eq!(form.fields[2].value, "Newport");
    assert_eq!(form.fields[3].value, "http://x");
    assert_eq!(form.fields[4].value, "n");
}

#[test]
fn focus_cycles_through_fields() {
    let mut form = ItemForm::new(FormType::Add);
    form.focus_next();
    assert_eq!(form.focused, 1);
    assert!(form.fields[1].is_focused);
    assert!(!form.fields[0].is_focused);
    form.focus_prev();
    form.focus_prev();
    assert_eq!(form.focused, 4);
    assert!(form.fields[4].is_focused);
}

#[test]
fn toggling_an_add_form_starts_over() {
    let mut form = ItemForm::new(FormType::Add);
    form.toggle_visibility();
    assert!(form.is_visible);
    form.handle_key(FormKey::Character('x'));
    assert_eq!(form.fields[0].value, "x");
    form.toggle_visibility();
    assert!(!form.is_visible);
    form.toggle_visibility();
    assert_eq!(form.fields[0].value, "");
    assert_eq!(form.fields[1].value, "blog_post");
    assert_eq!(form.focused, 0);
}

#[test]
fn keys_edit_the_focused_text() {
    let mut form = ItemForm::new(FormType::Add);
    form.toggle_visibility();
    form.handle_key(FormKey::Character('h'));
    form.handle_key(FormKey::Character('i'));
    assert_eq!(form.fields[0].value, "hi");
    form.handle_key(FormKey::Backspace);
    assert_eq!(form.fields[0].value, "h");
    form.handle_key(FormKey::Other);
    assert_eq!(form.fields[0].value, "h");
}

#[test]
fn enter_rotates_the_type_dropdown() {
    let mut form = ItemForm::new(FormType::Add);
    form.toggle_visibility();
    form.handle_key(FormKey::Tab);
    assert_eq!(form.focused, 1);
    form.handle_key(FormKey::Enter);
    assert_eq!(form.fields[1].value, "video");
    assert_eq!(form.fields[1].field_type, FieldType::Dropdown { selected: 1 });
    for _ in 0..6 {
        form.handle_key(FormKey::Enter);
    }
    assert_eq!(form.fields[1].value, "blog_post");
}

#[test]
fn hidden_forms_ignore_keys() {
    let mut form = ItemForm::new(FormType::Add);
    form.handle_key(FormKey::Character('x'));
    assert_eq!(form.fields[0].value, "");
}

#[test]
fn field_values_by_key() {
    let mut form = ItemForm::new(FormType::Add);
    form.toggle_visibility();
    form.handle_key(FormKey::Character('q'));
    assert_eq!(form.get_field_value("name"), Some(&"q".to_string()));
    assert_eq!(form.get_field_value("type"), Some(&"blog_post".to_string()));
    assert_eq!(form.get_field_value("colour"), None);
}

#[test]
fn navigation_moves_over_visible_rows() {
    let mut st = AppState::new();
    st.load_inbox_items(vec![
        item("A", Status::Todo),
        item("B", Status::Doing),
        item("C", Status::Todo),
    ]);
    assert_eq!(st.selected, Some(0));
    st.next_item();
    assert_eq!(st.selected, Some(1));
    st.next_item();
    st.next_item();
    assert_eq!(st.selected, Some(2));
    st.previous_item();
    assert_eq!(st.selected, Some(1));
    st.jump_to_last();
    assert_eq!(st.selected, Some(2));
    st.jump_to_first();
    assert_eq!(st.selected, Some(0));
    st.next_page(10);
    assert_eq!(st.selected, Some(2));
    st.previous_page(10);
    assert_eq!(st.selected, Some(0));
}

#[test]
fn filter_narrows_the_view() {
    let mut st = AppState::new();
    let mut a = item("Deep Work", Status::Todo);
    a.author = "Newport".to_string();
    let b = item("Walden", Status::Todo);
    st.load_inbox_items(vec![a, b]);
    st.set_filter(Some("WALD".to_string()));
    assert_eq!(st.visible_items(), vec![1]);
    assert_eq!(st.selected, Some(1));
    st.set_filter(Some("newport".to_string()));
    assert_eq!(st.visible_items(), vec![0]);
    assert_eq!(st.selected, Some(0));
    st.set_filter(Some("zzz".to_string()));
    assert!(st.visible_items().is_empty());
    assert_eq!(st.selected, None);
    st.set_filter(None);
    assert_eq!(st.visible_items(), vec![0, 1]);
}

#[test]
fn reordering_follows_the_item() {
    let mut st = AppState::new();
    st.load_inbox_items(vec![item("A", Status::Todo), item("B", Status::Todo)]);
    st.next_item();
    assert_eq!(st.selected, Some(1));
    st.move_item_up().unwrap();
    assert_eq!(st.inbox_items[0].name, "B");
    assert_eq!(st.inbox_items[1].name, "A");
    assert_eq!(st.selected, Some(0));
    assert!(st.move_item_up().is_err());
    st.move_item_down().unwrap();
    assert_eq!(st.inbox_items[0].name, "A");
    assert_eq!(st.selected, Some(1));
    assert!(st.move_item_down().is_err());
}

#[test]
fn finishing_the_selection_moves_it_out() {
    let mut st = AppState::new();
    st.load_inbox_items(vec![item("A", Status::Todo), item("B", Status::Doing)]);
    let cfg = Config { max_items: 5, archive_on_overflow: OverflowStrategy::Abort, version: 1 };
    let moved = st.move_selected_to_done(&cfg).unwrap();
    assert_eq!(moved.unwrap().name, "A");
    assert_eq!(st.inbox_items.len(), 1);
    assert_eq!(st.inbox_items[0].name, "B");
    assert_eq!(st.archive_items.len(), 1);
    assert_eq!(st.archive_items[0].name, "A");
    assert_eq!(st.archive_items[0].status, Status::Done);
}

#[test]
fn reopening_an_archived_item_brings_it_back() {
    let mut st = AppState::new();
    let mut x = item("X", Status::Done);
    x.finished_at = Some(3);
    st.load_archive_items(vec![x]);
    st.current_view = View::Archive;
    st.selected = Some(0);
    let cfg = Config { max_items: 5, archive_on_overflow: OverflowStrategy::Abort, version: 1 };
    let res = st.move_selected_to_doing(&cfg).unwrap();
    assert!(res.moved_to_inbox);
    assert_eq!(st.inbox_items.len(), 1);
    assert_eq!(st.inbox_items[0].name, "X");
    assert_eq!(st.inbox_items[0].status, Status::Doing);
    assert!(st.archive_items.is_empty());
}

#[test]
fn selection_without_item_reports_not_found() {
    let mut st = AppState::new();
    let cfg = Config::new();
    assert!(st.move_selected_to_todo(&cfg).is_err());
}
