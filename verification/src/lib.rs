//! Core of a personal reading-list manager.
//!
//! Items move between a bounded inbox of work in progress and an unbounded
//! archive of finished or reference material.  This crate holds the rules of
//! that movement: item validation, the timestamp discipline of status
//! changes, capacity-bounded admission with a pluggable overflow strategy,
//! and the orchestration that resolves a display id, applies a status
//! change, and migrates the item between the two lists.  Persistence and the
//! user interfaces live outside the library and only hand plain values in
//! and out.

pub mod archive;
pub mod cap;
pub mod cli;
pub mod clock;
pub mod config;
pub mod error;
pub mod forms;
pub mod item;
pub mod jsonl;
pub mod ops;
pub mod orchestrate;
pub mod state;
pub mod status;
pub mod textops;

pub use archive::{move_to_archive, should_auto_archive};
pub use cap::add_with_cap;
pub use cli::{Cli, CliError, Commands, ConfigSubcommands};
pub use config::{Config, ConfigManager, OverflowStrategy, apply_config_set};
pub use error::{CapError, CoreError};
pub use forms::{FieldType, FormField, FormKey, FormType, ItemForm};
pub use item::{Item, ItemType, Kind, Status, create_item};
pub use orchestrate::{StatusUpdateResult, add_item_to_inbox, update_item_status};
pub use state::{AppState, View};
pub use status::{StatusTransitionResult, change_item_status, update_timestamps};
