//! The ways in which an operation of this crate can fail.

use crate::text::{decimal, push_decimal};
use vstd::prelude::*;

verus! {

/// Why a reply of the mail service could not be read.
#[derive(Debug, Clone, Copy, PartialEq, Eq, Structural)]
pub enum ReplyError {
    /// The text is not a JSON document.
    Syntax,
    /// The document is JSON, but a field is missing or has the wrong type.
    Shape,
    /// A timestamp is not written as `YYYY-MM-DD HH:MM:SS`.
    Timestamp,
}

/// A setting that the client cannot work with.
#[derive(Debug, Clone, Copy, PartialEq, Eq, Structural)]
pub enum ConfigError {
    /// The path of the cookie file exists but is not a regular file.
    CookiePathNotFile,
    /// The time to wait for new mail is zero.
    ZeroTimeout,
    /// The pause between two looks at the inbox is zero.
    ZeroInterval,
}

/// Every failure that the library reports.
#[derive(Debug, Clone, Copy, PartialEq, Eq, Structural)]
pub enum InboxError {
    /// An invalid setting or cookie-file state.
    Config(ConfigError),
    /// The cookie file could not be read, written or removed.
    Io,
    /// The mail service answered with a status outside 200..=299.
    Remote(u16),
    /// The mail service answered with something unreadable.
    Parse(ReplyError),
    /// No email of the inbox has the id that was asked for.
    NotFound(u32),
    /// The email with this id has no content to show yet.
    MissingContent(u32),
}

impl InboxError {
    /// The words that tell a user what went wrong.
    pub open spec fn message_text(self) -> Seq<char> {
        match self {
            InboxError::Config(ConfigError::CookiePathNotFile) => "Cookies path must be a file."@,
            InboxError::Config(ConfigError::ZeroTimeout) => "Timeout must be at least one second."@,
            InboxError::Config(ConfigError::ZeroInterval) => "Interval must be at least one second."@,
            InboxError::Io => "Failed to access the cookies file."@,
            InboxError::Remote(status) => "The mail service answered with status "@ + decimal(
                status as nat,
            ) + "."@,
            InboxError::Parse(ReplyError::Syntax) => "The reply of the mail service is not JSON."@,
            InboxError::Parse(ReplyError::Shape) =>
                "The reply of the mail service lacks an expected field."@,
            InboxError::Parse(ReplyError::Timestamp) => "Failed to parse DateTime from string."@,
            InboxError::NotFound(id) => "Failed to find email with specified ID: "@ + decimal(
                id as nat,
            ),
            InboxError::MissingContent(id) => "Failed to open email [id: "@ + decimal(id as nat)
                + "] because it is missing content."@,
        }
    }

    /// Says in words what went wrong.
    pub fn message(&self) -> (text: String)
        ensures
            text@ == self.message_text(),
    {
        match self {
            InboxError::Config(ConfigError::CookiePathNotFile) => String::from_str(
                "Cookies path must be a file.",
            ),
            InboxError::Config(ConfigError::ZeroTimeout) => String::from_str(
                "Timeout must be at least one second.",
            ),
            InboxError::Config(ConfigError::ZeroInterval) => String::from_str(
                "Interval must be at least one second.",
            ),
            InboxError::Io => String::from_str("Failed to access the cookies file."),
            InboxError::Remote(status) => {
                let mut text = String::from_str("The mail service answered with status ");
                push_decimal(&mut text, *status as u128);
                text.append(".");
                text
            },
            InboxError::Parse(ReplyError::Syntax) => String::from_str(
                "The reply of the mail service is not JSON.",
            ),
            InboxError::Parse(ReplyError::Shape) => String::from_str(
                "The reply of the mail service lacks an expected field.",
            ),
            InboxError::Parse(ReplyError::Timestamp) => String::from_str(
                "Failed to parse DateTime from string.",
            ),
            InboxError::NotFound(id) => {
                let mut text = String::from_str("Failed to find email with specified ID: ");
                push_decimal(&mut text, *id as u128);
                text
            },
            InboxError::MissingContent(id) => {
                let mut text = String::from_str("Failed to open email [id: ");
                push_decimal(&mut text, *id as u128);
                text.append("] because it is missing content.");
                text
            },
        }
    }
}

} // verus!
