//! The commands that a user can give.

use vstd::prelude::*;

verus! {

/// One command with its arguments, as the command line gave them.
#[derive(Debug, PartialEq, Eq)]
#[allow(inconsistent_fields)]
pub enum Command {
    /// Show one list, or all of them; the three flags choose the items.
    Show { all: bool, completed: bool, incomplete: bool, list_name: Option<String> },
    /// Add an item to a list, which is created if it is not there.
    Add { list_name: String, item: String },
    /// Mark an item as done.
    Complete { list_name: String, item_number: usize },
    /// Mark an item as not done.
    Incomplete { list_name: String, item_number: usize },
    /// Remove an item, a list, or every list.
    Remove { list_name: Option<String>, item_number: Option<usize> },
    /// Overwrite the remote collection with the cache.
    Push,
    /// Replace the cache by the remote collection.
    Pull,
    /// Log in.
    Login,
    /// Log out.
    Logout,
}

/// What the command line holds: one command.
#[derive(Debug, PartialEq, Eq)]
pub struct Cli {
    pub command: Command,
}

} // verus!
