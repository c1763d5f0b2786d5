//! Command line of the `trayd` binary (the argument parser itself is
//! generated in the binary from these types).

use vstd::prelude::*;

verus! {

/// Parsed `trayd` command line.
#[derive(Debug)]
pub struct Cli {
    /// The subcommand; `None` runs the daemon.
    pub command: Option<Command>,
}

/// `trayd` subcommands.
#[derive(Debug, Clone)]
pub enum Command {
    /// Run the tray daemon (default when no subcommand is given).
    Run,
    /// Check that the daemon is reachable and print its version.
    Ping,
    /// List all registered tray items.
    List,
    /// Send a primary-click activation to a tray item.
    Activate {
        /// Stable item id (D-Bus service name + object path).
        id: String,
    },
    /// Stream tray events to stdout (one JSON object per line).
    Subscribe,
    /// Print menu items for a tray item, one label per line.
    MenuList {
        /// Stable item id.
        item: String,
        /// Submenu parent node id.
        node: Option<i32>,
    },
    /// Click a menu item by label (read from stdin when absent).
    MenuClick {
        /// Stable item id.
        item: String,
        /// Label to click.
        label: Option<String>,
    },
}

impl Cli {
    /// The subcommand to run: the one given, or `Run` when none was.
    pub fn into_command(self) -> (r: Command)
        ensures
            match self.command {
                Some(c) => r == c,
                None => r is Run,
            },
    {
        match self.command {
            Some(c) => c,
            None => Command::Run,
        }
    }
}

} // verus!
