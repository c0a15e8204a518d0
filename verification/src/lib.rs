//! Command-line client logic for a fixed cryptocurrency-exchange API.
//!
//! The library holds everything that can be decided without touching the
//! network: mapping the first command-line argument to a command, the fixed
//! endpoint URL of each command, the full help text, and the status line
//! printed before a response body. A thin binary around the library performs
//! the actual HTTPS request and streams the body to standard output.

pub mod command;
pub mod help;
pub mod status;

pub use command::{dispatch, Command, Plan};
pub use help::{help_entries, help_text, HelpInfo};
pub use status::status_line;
