use folio::cap::{add_with_cap, capacity_warning_needed};
use folio::state::AppState;
use folio::{
    Cli, Commands, Config, ConfigManager, ConfigSubcommands, Item, ItemType, Kind,
    OverflowStrategy, Status, View,
};

fn item(name: &str, status: Status) -> Item {
    Item {
        name: name.to_string(),
        item_type: ItemType::BlogPost,
        status,
        author: String::new(),
        link: String::new(),
        added_at: 0,
        started_at: None,
        finished_at: None,
        note: String::new(),
        kind: Kind::Normal,
        version: 1,
    }
}

#[test]
fn admission_never_exceeds_capacity() {
    // Ten admissions under capacity three: after every successful call
    // the inbox holds at most three items.
    let mut inbox: Vec<Item> = Vec::new();
    for n in 0..10 {
        let name = format!("item-{}", n);
        match add_with_cap(inbox, item(&name, Status::Todo), 3, OverflowStrategy::Any) {
            Ok((next, _evicted)) => {
                assert!(next.len() <= 3);
                inbox = next;
            }
            Err(_) => panic!("the Any strategy admits into a non-empty inbox"),
        }
    }
    assert_eq!(inbox.len(), 3);
    assert_eq!(inbox[2].name, "item-9");
}

#[test]
fn capacity_warning_only_under_abort() {
    let abort = Config { max_items: 2, archive_on_overflow: OverflowStrategy::Abort, version: 1 };
    let any = Config { max_items: 2, archive_on_overflow: OverflowStrategy::Any, version: 1 };
    assert!(capacity_warning_needed(2, &abort));
    assert!(capacity_warning_needed(3, &abort));
    assert!(!capacity_warning_needed(1, &abort));
    assert!(!capacity_warning_needed(2, &any));
}

#[test]
fn config_defaults() {
    let cfg = Config::new();
    assert_eq!(cfg.max_items, 30);
    assert_eq!(cfg.archive_on_overflow, OverflowStrategy::Abort);
    assert_eq!(cfg.version, 1);
    assert_eq!(Config::default(), cfg);
}

#[test]
fn config_manager_holds_and_updates() {
    let mut manager = ConfigManager::with_config(Config::new());
    assert_eq!(*manager.get(), Config::new());
    let tweaked = Config { max_items: 7, archive_on_overflow: OverflowStrategy::Todo, version: 1 };
    manager.update(tweaked);
    assert_eq!(*manager.get(), tweaked);
}

#[test]
fn command_data_round_trips_through_the_cli_type() {
    let cli = Cli {
        command: Some(Commands::Config {
            subcommand: ConfigSubcommands::SetValue {
                key: "max_items".to_string(),
                value: "9".to_string(),
            },
        }),
    };
    match cli.command {
        Some(Commands::Config { subcommand: ConfigSubcommands::SetValue { key, value } }) => {
            assert_eq!(key, "max_items");
            assert_eq!(value, "9");
        }
        _ => panic!("unexpected command shape"),
    }
}

#[test]
fn state_accessors() {
    let mut st = AppState::new();
    st.load_inbox_items(vec![item("A", Status::Todo)]);
    st.load_archive_items(vec![item("X", Status::Done), item("Y", Status::Done)]);
    assert_eq!(st.current_items().len(), 1);
    assert_eq!(st.selected_item().unwrap().name, "A");
    st.current_view = View::Archive;
    assert_eq!(st.current_items().len(), 2);
    assert_eq!(st.get_inbox_items().len(), 1);
    assert_eq!(st.get_archive_items().len(), 2);
    st.add_item_to_archive(item("Z", Status::Done));
    assert_eq!(st.get_archive_items().len(), 3);
    assert!(st.matches_filter(&item("anything", Status::Todo)));
}
