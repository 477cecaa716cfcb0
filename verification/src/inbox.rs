//! A disposable inbox and what the mail service says about it.
//!
//! An [`Inbox`] starts without an address. The caller performs each request
//! of the session and hands the [`Reply`] to the method that reads it.

pub mod date_time;
pub mod email;
pub mod utils;

use crate::cookies::{delete_file, PathState};
use crate::error::{ConfigError, InboxError, ReplyError};
use crate::inbox::date_time::{
    deserialize, nanos_between, seconds_between, timestamp_read, whole_seconds, Timestamp,
};
use crate::inbox::email::{email_views, listing_of_text, Email, EmailView};
use crate::inbox::utils::{operation_url, Operation, Request};
use crate::json::{parsed_document, Json};
use vstd::prelude::*;

verus! {

/// The member of the service's address reply that holds the email address.
pub const KEY_EMAIL: &'static str = "email";

/// The member of the service's address reply that holds the password.
pub const KEY_PASSWORD: &'static str = "heslo";

/// The member of the service's lifetime reply that holds the current time.
pub const KEY_NOW: &'static str = "ted";

/// The member of the service's lifetime reply that holds the time of expiry.
pub const KEY_END: &'static str = "konec";

/// Whether an HTTP status reports success.
pub open spec fn status_is_success(status: u16) -> bool {
    200 <= status <= 299
}

/// What the mail service answered to one request.
#[derive(Debug, Clone, PartialEq, Eq)]
pub struct Reply {
    /// The HTTP status of the answer.
    pub status: u16,
    /// The body of the answer.
    pub body: String,
}

impl Reply {
    /// Tells whether the service reported success.
    pub fn is_success(&self) -> (ok: bool)
        ensures
            ok == status_is_success(self.status),
    {
        200 <= self.status && self.status <= 299
    }

    /// Turns a reply whose status is outside 200..=299 into an error.
    pub fn error_for_status(&self) -> (r: Result<(), InboxError>)
        ensures
            r == if status_is_success(self.status) {
                Ok::<(), InboxError>(())
            } else {
                Err(InboxError::Remote(self.status))
            },
    {
        if self.is_success() {
            Ok(())
        } else {
            Err(InboxError::Remote(self.status))
        }
    }
}

/// Address information of an inbox.
#[derive(Debug, Clone, PartialEq, Eq)]
pub struct AddressInfo {
    /// Disposable email address of the inbox.
    pub email: String,
    /// Randomized password generated for the inbox. The library carries it and
    /// never looks into it.
    pub password: String,
}

/// What an [`AddressInfo`] holds, as mathematical values.
pub struct AddressView {
    pub email: Seq<char>,
    pub password: Seq<char>,
}

impl View for AddressInfo {
    type V = AddressView;

    open spec fn view(&self) -> AddressView {
        AddressView { email: self.email@, password: self.password@ }
    }
}

/// The address that a document of the service describes, if it describes one:
/// an object with a string under `email` and a string under `heslo`.
pub open spec fn address_of(document: Json) -> Option<AddressView> {
    match (document.text_field(KEY_EMAIL@), document.text_field(KEY_PASSWORD@)) {
        (Some(email), Some(password)) => Some(AddressView { email, password }),
        _ => None,
    }
}

impl AddressInfo {
    /// Reads the address of an inbox from a document of the service.
    pub fn from_json(document: &Json) -> (r: Result<AddressInfo, ReplyError>)
        ensures
            match address_of(*document) {
                Some(address) => r matches Ok(info) && info@ == address,
                None => r == Err::<AddressInfo, ReplyError>(ReplyError::Shape),
            },
    {
        let email = match document.get_text(KEY_EMAIL) {
            Some(text) => text,
            None => return Err(ReplyError::Shape),
        };
        let password = match document.get_text(KEY_PASSWORD) {
            Some(text) => text,
            None => return Err(ReplyError::Shape),
        };
        Ok(AddressInfo { email: email.clone(), password: password.clone() })
    }
}

/// Disposable inbox session lifetime information.
#[derive(Debug, Clone, Copy, PartialEq, Eq, Structural)]
pub struct Lifetime {
    /// The timestamp at which this object was retrieved.
    pub now: Timestamp,
    /// The timestamp at which the associated inbox expires.
    pub end: Timestamp,
}

/// The lifetime that a document of the service describes: an object with a
/// timestamp under `ted` and a timestamp under `konec`.
pub open spec fn lifetime_of(document: Json) -> Result<Lifetime, ReplyError> {
    match (document.text_field(KEY_NOW@), document.text_field(KEY_END@)) {
        (Some(now), Some(end)) => match (timestamp_read(now), timestamp_read(end)) {
            (Ok(now), Ok(end)) => Ok(Lifetime { now, end }),
            _ => Err(ReplyError::Timestamp),
        },
        _ => Err(ReplyError::Shape),
    }
}

impl Lifetime {
    /// The whole seconds from `now` to `end`; negative once the inbox has expired.
    pub open spec fn delta(self) -> int {
        whole_seconds(nanos_between(self.now, self.end))
    }

    /// Computes how many seconds are left until the inbox expires.
    pub fn remaining(&self) -> (seconds: i128)
        ensures
            seconds == self.delta(),
    {
        seconds_between(&self.now, &self.end)
    }

    /// Reads the lifetime of an inbox from a document of the service.
    pub fn from_json(document: &Json) -> (r: Result<Lifetime, ReplyError>)
        ensures
            r == lifetime_of(*document),
    {
        let now = match document.get_text(KEY_NOW) {
            Some(text) => text,
            None => return Err(ReplyError::Shape),
        };
        let end = match document.get_text(KEY_END) {
            Some(text) => text,
            None => return Err(ReplyError::Shape),
        };
        match (deserialize(now.as_str()), deserialize(end.as_str())) {
            (Ok(now), Ok(end)) => Ok(Lifetime { now, end }),
            _ => Err(ReplyError::Timestamp),
        }
    }
}

/// What the reply to the address request establishes.
pub open spec fn establishing(reply: Reply) -> Result<AddressView, InboxError> {
    if !status_is_success(reply.status) {
        Err(InboxError::Remote(reply.status))
    } else {
        match parsed_document(reply.body@) {
            None => Err(InboxError::Parse(ReplyError::Syntax)),
            Some(document) => match address_of(document) {
                Some(address) => Ok(address),
                None => Err(InboxError::Parse(ReplyError::Shape)),
            },
        }
    }
}

/// The emails that the reply to the list request holds.
pub open spec fn mail_in(reply: Reply) -> Result<Seq<EmailView>, InboxError> {
    if !status_is_success(reply.status) {
        Err(InboxError::Remote(reply.status))
    } else {
        match listing_of_text(reply.body@) {
            Ok(emails) => Ok(emails),
            Err(e) => Err(InboxError::Parse(e)),
        }
    }
}

/// The seconds until expiry that the reply to the lifetime request holds.
pub open spec fn expiry_in(reply: Reply) -> Result<int, InboxError> {
    if !status_is_success(reply.status) {
        Err(InboxError::Remote(reply.status))
    } else {
        match parsed_document(reply.body@) {
            None => Err(InboxError::Parse(ReplyError::Syntax)),
            Some(document) => match lifetime_of(document) {
                Ok(lifetime) => Ok(lifetime.delta()),
                Err(e) => Err(InboxError::Parse(e)),
            },
        }
    }
}

/// What becomes of an email when the reply to its content request is handed in,
/// and what the caller is told.
///
/// An email that has content stays as it is. One without content takes the
/// body of a successful reply, and stays as it is after any other reply.
pub open spec fn populated(mail: EmailView, reply: Reply) -> (EmailView, Result<(), InboxError>) {
    if mail.content.len() > 0 {
        (mail, Ok(()))
    } else if status_is_success(reply.status) {
        (EmailView { content: reply.body@, ..mail }, Ok(()))
    } else {
        (mail, Err(InboxError::Remote(reply.status)))
    }
}

/// A disposable email inbox.
///
/// It is without an address until [`Inbox::establish_address`] has read one,
/// and keeps that address from then on.
#[derive(Debug, Clone, PartialEq, Eq)]
pub struct Inbox {
    /// Inbox email address information.
    pub address_info: Option<AddressInfo>,
}

impl Inbox {
    /// Whether the inbox has its address.
    pub open spec fn is_active(self) -> bool {
        self.address_info is Some
    }

    /// Create an inbox that has no address yet.
    pub fn new() -> (inbox: Inbox)
        ensures
            !inbox.is_active(),
    {
        Inbox { address_info: None }
    }

    /// What to ask the mail service, in this order, to establish the address:
    /// first the website itself, which begins the session and whose answer is
    /// dropped, then the address. The answer to the last goes to
    /// [`Inbox::establish_address`].
    pub fn establish_operations() -> (operations: Vec<Operation>)
        ensures
            operations@ == seq![Operation::Prime, Operation::Address],
    {
        let mut operations: Vec<Operation> = Vec::new();
        operations.push(Operation::Prime);
        operations.push(Operation::Address);
        operations
    }

    /// Assign the address that the mail service answered with.
    ///
    /// `reply` is the answer to [`Operation::Address`], asked after
    /// [`Operation::Prime`]. On an error the inbox is left as it was.
    pub fn establish_address(&mut self, reply: &Reply) -> (r: Result<(), InboxError>)
        ensures
            match establishing(*reply) {
                Ok(address) => r is Ok && (final(self).address_info matches Some(info) && info@
                    == address),
                Err(e) => r == Err::<(), InboxError>(e) && *final(self) == *old(self),
            },
    {
        if !reply.is_success() {
            return Err(InboxError::Remote(reply.status));
        }
        let document = match Json::parse(reply.body.as_str()) {
            Ok(document) => document,
            Err(e) => return Err(InboxError::Parse(e)),
        };
        match AddressInfo::from_json(&document) {
            Ok(info) => {
                self.address_info = Some(info);
                Ok(())
            },
            Err(e) => Err(InboxError::Parse(e)),
        }
    }

    /// Retrieve the list of emails from the answer to [`Operation::Mail`].
    pub fn get_mail(&self, reply: &Reply) -> (r: Result<Vec<Email>, InboxError>)
        ensures
            match mail_in(*reply) {
                Ok(emails) => r matches Ok(list) && email_views(list@) == emails,
                Err(e) => r matches Err(x) && x == e,
            },
    {
        if !reply.is_success() {
            return Err(InboxError::Remote(reply.status));
        }
        match Email::list_from_str(reply.body.clone()) {
            Ok(list) => Ok(list),
            Err(e) => Err(InboxError::Parse(e)),
        }
    }

    /// The request for the content of `mail`, or `None` where `mail` has its
    /// content and nothing is to be asked.
    pub fn content_request(&self, mail: &Email) -> (request: Option<Request>)
        ensures
            mail.holds_content() ==> request is None,
            !mail.holds_content() ==> (request matches Some(r) && r.xml_http && r.url@
                == operation_url(Operation::Content(mail.id))),
    {
        if mail.has_content() {
            None
        } else {
            Some(Request::new(Operation::Content(mail.id)))
        }
    }

    /// Populate content of a specified email from the answer to the request
    /// that [`Inbox::content_request`] named.
    pub fn populate_content(&self, mail: &mut Email, reply: &Reply) -> (r: Result<(), InboxError>)
        ensures
            (final(mail)@, r) == populated(old(mail)@, *reply),
    {
        if mail.has_content() {
            return Ok(());
        }
        if !reply.is_success() {
            return Err(InboxError::Remote(reply.status));
        }
        mail.content = reply.body.clone();
        Ok(())
    }

    /// Determine how many seconds it will be until this inbox expires, from the
    /// answer to [`Operation::Lifetime`].
    pub fn get_exp_delta(&self, reply: &Reply) -> (r: Result<i128, InboxError>)
        ensures
            match expiry_in(*reply) {
                Ok(seconds) => r matches Ok(delta) && delta == seconds,
                Err(e) => r matches Err(x) && x == e,
            },
    {
        if !reply.is_success() {
            return Err(InboxError::Remote(reply.status));
        }
        let document = match Json::parse(reply.body.as_str()) {
            Ok(document) => document,
            Err(e) => return Err(InboxError::Parse(e)),
        };
        match Lifetime::from_json(&document) {
            Ok(lifetime) => Ok(lifetime.remaining()),
            Err(e) => Err(InboxError::Parse(e)),
        }
    }

    /// Decide on deleting the cookie file, so that the next session starts
    /// without an identity and the service hands out a new address. `Ok` tells
    /// the caller to remove the file. An inbox that exists is not touched.
    pub fn delete(state: PathState) -> (r: Result<(), InboxError>)
        ensures
            r == match state {
                PathState::File => Ok::<(), InboxError>(()),
                PathState::NotFile => Err(InboxError::Config(ConfigError::CookiePathNotFile)),
                PathState::Unknown => Err(InboxError::Io),
            },
    {
        delete_file(state)
    }
}

/// Populating an email is idempotent: once a reply has left an email with
/// content, there is nothing more to ask the service for (see
/// [`Inbox::content_request`]), and any further reply changes nothing in the
/// email and succeeds.
///
/// The first reply leaves the email with content where the email had content
/// before, or the reply is a success with a body that is not empty.
pub proof fn populate_is_idempotent(mail: EmailView, first: Reply, second: Reply)
    requires
        mail.content.len() > 0 || (status_is_success(first.status) && first.body@.len() > 0),
    ensures
        populated(mail, first).0.content.len() > 0,
        populated(populated(mail, first).0, second) == (
            populated(mail, first).0,
            Ok::<(), InboxError>(()),
        ),
{
}

} // verus!
