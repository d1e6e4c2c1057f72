//! The command-line surface as plain data, the errors it reports, and the
//! resolution of display ids over the two lists.

use vstd::prelude::*;
use crate::error::CoreError;

verus! {

/// A parsed invocation: one command, or none to fall back to the default
/// surface.
#[derive(Debug)]
pub struct Cli {
    pub command: Option<Commands>,
}

/// The commands the tool accepts.
#[derive(Debug)]
pub enum Commands {
    Add {
        name: Option<String>,
        item_type: Option<String>,
        author: Option<String>,
        link: Option<String>,
        note: Option<String>,
        kind: Option<String>,
    },
    List { status_filters: Option<Vec<String>>, type_filters: Option<Vec<String>> },
    SetStatus { id: usize, status: String },
    Edit { id: usize },
    Archive { id: usize },
    Delete { id: usize },
    MarkRef { id: usize },
    Config { subcommand: ConfigSubcommands },
}

/// The configuration subcommands.
#[derive(Debug)]
pub enum ConfigSubcommands {
    List,
    Get { key: String },
    SetValue { key: String, value: String },
    Reset,
}

/// Errors the command-line surface reports to the user.
#[derive(Debug, PartialEq)]
pub enum CliError {
    ItemNotFound { id: usize },
    InvalidStatus { status: String },
    InvalidItemType { item_type: String },
    InvalidMaxItems { value: String },
    InvalidOverflowStrategy { value: String },
    UnknownConfigKey { key: String },
    InboxFull { limit: u32, suggestions: String },
    ValidationError { message: String },
    IoError { message: String },
    ConfigError { message: String },
}

impl CliError {
    /// Maps a core error onto the command-line taxonomy: a validation
    /// failure keeps its message, the other core conditions become
    /// validation errors with a fixed description.
    pub fn from_core(error: CoreError) -> (r: CliError)
        ensures
            error matches CoreError::ValidationError(m) ==> (r matches CliError::ValidationError {
                message } && message == m),
            error is ItemNotFound ==> (r matches CliError::ValidationError { message } && message@
                == "Item not found"@),
            error is InvalidStatusTransition ==> (r matches CliError::ValidationError { message }
                && message@ == "Invalid status transition"@),
            error is InboxFull ==> (r matches CliError::ValidationError { message } && message@
                == "Inbox is full"@),
    {
        match error {
            CoreError::ValidationError(msg) => CliError::ValidationError { message: msg },
            CoreError::ItemNotFound => CliError::ValidationError {
                message: String::from_str("Item not found"),
            },
            CoreError::InvalidStatusTransition => CliError::ValidationError {
                message: String::from_str("Invalid status transition"),
            },
            CoreError::InboxFull => CliError::ValidationError {
                message: String::from_str("Inbox is full"),
            },
        }
    }
}

/// Where a 1-based display id over inbox-then-archive points.
#[derive(Debug, Clone, Copy, PartialEq, Eq, Structural)]
pub enum IdLocation {
    InInbox { index: usize },
    InArchive { index: usize },
    NotFound,
}

/// Resolution of a display id: ids 1 through the inbox length index the
/// inbox; the next `archive_len` ids index the archive; anything else
/// finds nothing.
pub open spec fn spec_resolve_display_id(id: int, inbox_len: int, archive_len: int) -> IdLocation {
    if 1 <= id && id <= inbox_len {
        IdLocation::InInbox { index: (id - 1) as usize }
    } else if inbox_len < id && id <= inbox_len + archive_len {
        IdLocation::InArchive { index: (id - inbox_len - 1) as usize }
    } else {
        IdLocation::NotFound
    }
}

/// Resolves a 1-based display id spanning the inbox and then the archive.
pub fn resolve_display_id(id: usize, inbox_len: usize, archive_len: usize) -> (r: IdLocation)
    ensures
        r == spec_resolve_display_id(id as int, inbox_len as int, archive_len as int),
{
    if id > 0 && id <= inbox_len {
        IdLocation::InInbox { index: id - 1 }
    } else if id > inbox_len && id - inbox_len <= archive_len {
        IdLocation::InArchive { index: id - inbox_len - 1 }
    } else {
        IdLocation::NotFound
    }
}

} // verus!
