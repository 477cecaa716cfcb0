//! The session logic of a command-line client for a disposable-mail service:
//! what to ask the service, how to read its replies, when a wait for new mail
//! ends, and what becomes of the cookie file.
//!
//! Nothing here touches the network or the disk. The caller performs each
//! request and hands the reply back.

pub mod args;
pub mod cookies;
pub mod error;
pub mod inbox;
pub mod json;
pub mod poll;
pub mod text;
