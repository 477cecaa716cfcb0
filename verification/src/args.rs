//! The commands of the client and what each of them asks for.

use crate::inbox::utils::DISPOSABLE_MAIL;
use vstd::prelude::*;

verus! {

/// How many emails `show` lists unless told otherwise.
pub const DEFAULT_COUNT: usize = 5;

/// How many seconds `next` waits unless told otherwise.
pub const DEFAULT_TIMEOUT: u64 = 120;

/// How many seconds `next` pauses between two looks unless told otherwise.
pub const DEFAULT_INTERVAL: u64 = 10;

/// Where the source of the client lives.
pub const REPOSITORY: &'static str = "https://github.com/ooojustin/clinbox";

/// What the client was started with.
#[derive(Debug, Clone, Copy, PartialEq, Eq, Structural)]
pub struct CLI {
    pub command: Commands,
}

#[derive(Debug, Clone, Copy, PartialEq, Eq, Structural)]
pub enum Commands {
    /// Show inbox information and list emails.
    Show {
        /// Number of emails to list.
        count: usize,
        /// Copy email address to clipboard.
        copy: bool,
    },
    /// Open a specific email by providing the ID.
    Open {
        /// The ID of the email.
        id: u32,
    },
    /// Wait for a new email to be received and automatically open it.
    Next {
        /// The maximum amount of time to wait in seconds.
        timeout: u64,
        /// The interval in between refreshing emails in seconds.
        interval: u64,
    },
    /// Copy email address to clipboard.
    Copy,
    /// Delete the current inbox and automatically generate new email address.
    Delete {
        /// Copy new email address to clipboard.
        copy: bool,
    },
    /// Display the duration until the current inbox expires.
    Expires,
    /// Open the website that this program uses behind the scenes.
    Website,
    /// Open the GitHub repository for this application.
    Github,
}

impl Commands {
    /// Whether the command ends with the email address on the clipboard.
    pub open spec fn wants_copy(self) -> bool {
        match self {
            Commands::Show { count, copy } => copy,
            Commands::Copy => true,
            Commands::Delete { copy } => copy,
            _ => false,
        }
    }

    /// Whether the cookie file is to be deleted before the session begins, so
    /// that the service hands out a new address.
    pub fn deletes_session(&self) -> (r: bool)
        ensures
            r == (*self is Delete),
    {
        match self {
            Commands::Delete { copy: _ } => true,
            _ => false,
        }
    }

    /// Whether the email address is to be copied to the clipboard at the end.
    pub fn copies_address(&self) -> (r: bool)
        ensures
            r == self.wants_copy(),
    {
        match self {
            Commands::Show { count: _, copy } => *copy,
            Commands::Copy => true,
            Commands::Delete { copy } => *copy,
            _ => false,
        }
    }

    /// The address that the command opens in a browser, if it opens one.
    pub fn address_to_open(&self) -> (r: Option<&'static str>)
        ensures
            r == match *self {
                Commands::Website => Some(DISPOSABLE_MAIL),
                Commands::Github => Some(REPOSITORY),
                _ => None,
            },
    {
        match self {
            Commands::Website => Some(DISPOSABLE_MAIL),
            Commands::Github => Some(REPOSITORY),
            _ => None,
        }
    }
}

} // verus!
