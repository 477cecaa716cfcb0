//! Emails as the mail service lists them.

use crate::error::{InboxError, ReplyError};
use crate::json::{parsed_document, Json};
use crate::text::{
    ascii_lower, decimal, equals_ignoring_case, escape_angle_brackets, escaped, lowered,
    push_decimal,
};
use vstd::prelude::*;

verus! {

/// The member of a listed email that holds its id.
pub const KEY_ID: &'static str = "id";

/// The member of a listed email that holds its subject.
pub const KEY_SUBJECT: &'static str = "predmet";

/// The member of a listed email that holds its sender.
pub const KEY_FROM: &'static str = "od";

/// The member of a listed email that says when it arrived.
pub const KEY_WHEN: &'static str = "kdy";

/// The member of a listed email that says whether it was read.
pub const KEY_STATUS: &'static str = "precteno";

/// The status that the mail service gives an email nobody has read.
pub const STATUS_NEW: &'static str = "new";

/// How the page of an email begins, up to its subject.
pub const PAGE_HEAD: &'static str =
    "\n            <center>\n                <h1 style=\"margin-bottom: 0px\">";

/// What stands between the subject and the sender on the page of an email.
pub const PAGE_MIDDLE: &'static str = "</h1>\n                <h2 style=\"margin-top: 0px\">";

/// What stands between the sender and the content on the page of an email.
pub const PAGE_TAIL: &'static str =
    "</h2>\n                <a \n                    style=\"text-decoration: none; font-weight: 660; color: #f0f;\" \n                    href=\"https://github.com/ooojustin/clinbox\"\n                >\n                    [email retrieved by clinbox]\n                </a>\n            </center>\n";

/// How the page of an email ends, after its content.
pub const PAGE_END: &'static str = "\n        ";

/// The ending of the name of a page's file.
pub const PAGE_EXTENSION: &'static str = ".html";

/// The mark of an email that has been read, in a list.
pub const MARK_READ: &'static str = "\u{25cb}";

/// The mark of an email that has not been read, in a list.
pub const MARK_UNREAD: &'static str = "\u{25cf}";

/// Represents an email.
#[derive(Debug, Clone, PartialEq, Eq)]
pub struct Email {
    /// The unique identifier of the email.
    pub id: u32,
    /// The subject of the email.
    pub subject: String,
    /// The sender of the email.
    pub from: String,
    /// Relative time of when the email was received, as the service words it.
    pub when: String,
    /// Indicates whether or not the email has been read.
    pub read: bool,
    /// The content of the email (HTML). Empty until it has been fetched.
    pub content: String,
}

/// What an [`Email`] holds, as mathematical values.
pub struct EmailView {
    pub id: u32,
    pub subject: Seq<char>,
    pub from: Seq<char>,
    pub when: Seq<char>,
    pub read: bool,
    pub content: Seq<char>,
}

impl View for Email {
    type V = EmailView;

    open spec fn view(&self) -> EmailView {
        EmailView {
            id: self.id,
            subject: self.subject@,
            from: self.from@,
            when: self.when@,
            read: self.read,
            content: self.content@,
        }
    }
}

/// The views of a list of emails, in order.
pub open spec fn email_views(list: Seq<Email>) -> Seq<EmailView> {
    Seq::new(list.len(), |i: int| list[i]@)
}

/// Whether a status marks an email as unread: it is `new`, in any mix of
/// upper and lower case.
pub open spec fn is_unread_status(status: Seq<char>) -> bool {
    lowered(status) == STATUS_NEW@
}

/// A status marks an email as unread exactly when it is spelled with an `n`, an
/// `e` and a `w`, each in upper or lower case, and nothing else.
pub proof fn unread_status_spelled_out(status: Seq<char>)
    ensures
        is_unread_status(status) <==> {
            &&& status.len() == 3
            &&& (status[0] == 'n' || status[0] == 'N')
            &&& (status[1] == 'e' || status[1] == 'E')
            &&& (status[2] == 'w' || status[2] == 'W')
        },
{
    reveal_strlit("new");
    let low = lowered(status);
    assert(STATUS_NEW@.len() == 3);
    if status.len() == 3 {
        assert(STATUS_NEW@[0] == 'n' && STATUS_NEW@[1] == 'e' && STATUS_NEW@[2] == 'w');
        if (status[0] == 'n' || status[0] == 'N') && (status[1] == 'e' || status[1] == 'E') && (
        status[2] == 'w' || status[2] == 'W') {
            assert(low =~= STATUS_NEW@);
        }
    }
}

/// The email that a member of the service's list describes, if it describes one:
/// an object with a whole number from 0 to 2^32 - 1 under `id` and a string
/// under each of `predmet`, `od`, `kdy` and `precteno`.
pub open spec fn email_of(item: Json) -> Option<EmailView> {
    match (
        item.unsigned_field(KEY_ID@),
        item.text_field(KEY_SUBJECT@),
        item.text_field(KEY_FROM@),
        item.text_field(KEY_WHEN@),
        item.text_field(KEY_STATUS@),
    ) {
        (Some(id), Some(subject), Some(from), Some(when), Some(status)) => if id <= u32::MAX {
            Some(
                EmailView {
                    id: id as u32,
                    subject,
                    from,
                    when,
                    read: !is_unread_status(status),
                    content: Seq::empty(),
                },
            )
        } else {
            None
        },
        _ => None,
    }
}

/// The emails that a document lists, if it is an array of which every member
/// describes an email.
pub open spec fn emails_of(document: Json) -> Option<Seq<EmailView>> {
    match document {
        Json::Array(items) => if forall|i: int|
            0 <= i < items@.len() ==> email_of(#[trigger] items@[i]) is Some {
            Some(Seq::new(items@.len(), |i: int| email_of(items@[i])->Some_0))
        } else {
            None
        },
        _ => None,
    }
}

/// In every list of emails that is read from a document, an email counts as
/// unread exactly when the document gives it the status `new`, in any mix of
/// upper and lower case. Any other status, known or not, makes it read.
pub proof fn read_goes_by_status(document: Json, i: int)
    requires
        emails_of(document) is Some,
        0 <= i < emails_of(document)->Some_0.len(),
    ensures
        document is Array,
        i < document->Array_0@.len(),
        document->Array_0@[i].text_field(KEY_STATUS@) is Some,
        !emails_of(document)->Some_0[i].read <==> is_unread_status(
            document->Array_0@[i].text_field(KEY_STATUS@)->Some_0,
        ),
{
}

/// What reading a document as a list of emails gives.
pub open spec fn listing(document: Json) -> Result<Seq<EmailView>, ReplyError> {
    match emails_of(document) {
        Some(emails) => Ok(emails),
        None => Err(ReplyError::Shape),
    }
}

/// What reading a text as a list of emails gives.
pub open spec fn listing_of_text(text: Seq<char>) -> Result<Seq<EmailView>, ReplyError> {
    match parsed_document(text) {
        Some(document) => listing(document),
        None => Err(ReplyError::Syntax),
    }
}

/// The outcome of an operation that lists emails, with each email taken by its view.
pub open spec fn listed(r: Result<Vec<Email>, ReplyError>) -> Result<Seq<EmailView>, ReplyError> {
    match r {
        Ok(list) => Ok(email_views(list@)),
        Err(e) => Err(e),
    }
}

/// Whether `text` is made of 36 characters, each a digit, a letter from `a` to
/// `f` or a hyphen.
pub open spec fn is_token(text: Seq<char>) -> bool {
    &&& text.len() == 36
    &&& forall|i: int|
        0 <= i < text.len() ==> {
            let c = #[trigger] text[i];
            ('0' <= c && c <= '9') || ('a' <= c && c <= 'f') || c == '-'
        }
}

/// Whether `name` is a token followed by `.html`.
pub open spec fn is_page_name(name: Seq<char>) -> bool {
    exists|token: Seq<char>| #[trigger] is_token(token) && name == token + PAGE_EXTENSION@
}

/// The page that shows an email: subject and sender above the content, the
/// sender with its angle brackets escaped.
pub open spec fn page_html(email: EmailView) -> Seq<char> {
    PAGE_HEAD@ + email.subject + PAGE_MIDDLE@ + escaped(email.from) + PAGE_TAIL@ + email.content
        + PAGE_END@
}

/// The line that stands for an email in a list.
pub open spec fn summary_line(email: EmailView) -> Seq<char> {
    "["@ + decimal(email.id as nat) + "] "@ + (if email.read {
        MARK_READ@
    } else {
        MARK_UNREAD@
    }) + " "@ + email.subject + " - "@ + email.from + " ("@ + email.when + ")"@
}

/// Calls `uuid::Uuid::new_v4` and takes the text that `Display` gives for it.
///
/// The result is random. The contract states what `uuid` writes whatever the
/// number: its hyphenated form, 36 characters that are lower-case hexadecimal
/// digits or hyphens. `new_v4` panics where the system hands out no random bytes.
#[verifier::external_body]
fn random_token() -> (token: String)
    ensures
        is_token(token@),
{
    uuid::Uuid::new_v4().to_string()
}

/// A page to show in a browser, and the name of the file to keep it in.
#[derive(Debug, Clone, PartialEq, Eq)]
pub struct Page {
    /// The name of the file, without a directory.
    pub file_name: String,
    /// The HTML of the page.
    pub html: String,
}

impl Email {
    /// Whether the content has been set.
    pub open spec fn holds_content(self) -> bool {
        self.content@.len() > 0
    }

    /// Returns whether or not the email content has been set.
    pub fn has_content(&self) -> (r: bool)
        ensures
            r == self.holds_content(),
    {
        !self.content.as_str().is_empty()
    }

    /// Tells whether a status of the mail service means that the email was read:
    /// every status does, but `new` in any mix of upper and lower case.
    pub fn status_is_read(status: &str) -> (read: bool)
        ensures
            read == !is_unread_status(status@),
    {
        !equals_ignoring_case(status, STATUS_NEW)
    }

    /// Reads one member of the service's list.
    pub fn from_json(item: &Json) -> (r: Result<Email, ReplyError>)
        ensures
            match email_of(*item) {
                Some(email) => r matches Ok(e) && e@ == email,
                None => r == Err::<Email, ReplyError>(ReplyError::Shape),
            },
    {
        let id = match item.get_unsigned(KEY_ID) {
            Some(id) => id,
            None => return Err(ReplyError::Shape),
        };
        let subject = match item.get_text(KEY_SUBJECT) {
            Some(text) => text,
            None => return Err(ReplyError::Shape),
        };
        let from = match item.get_text(KEY_FROM) {
            Some(text) => text,
            None => return Err(ReplyError::Shape),
        };
        let when = match item.get_text(KEY_WHEN) {
            Some(text) => text,
            None => return Err(ReplyError::Shape),
        };
        let status = match item.get_text(KEY_STATUS) {
            Some(text) => text,
            None => return Err(ReplyError::Shape),
        };
        if id > u32::MAX as u64 {
            return Err(ReplyError::Shape);
        }
        Ok(
            Email {
                id: id as u32,
                subject: subject.clone(),
                from: from.clone(),
                when: when.clone(),
                read: Email::status_is_read(status.as_str()),
                content: String::new(),
            },
        )
    }

    /// Reads the service's list of emails from a document.
    ///
    /// The list comes out in the order of the document. An email counts as read
    /// unless its status is `new`, whatever the case of the letters, and no email
    /// has content yet.
    pub fn list_from_json(document: &Json) -> (r: Result<Vec<Email>, ReplyError>)
        ensures
            listed(r) == listing(*document),
            r matches Ok(list) ==> document matches Json::Array(items) && list@.len()
                == items@.len() && forall|i: int|
                0 <= i < list@.len() ==> {
                    let status = (#[trigger] items@[i]).text_field(KEY_STATUS@);
                    status is Some && (!list@[i].read <==> is_unread_status(status->Some_0))
                },
    {
        match document {
            Json::Array(items) => {
                let mut list: Vec<Email> = Vec::new();
                let mut i: usize = 0;
                while i < items.len()
                    invariant
                        *document == Json::Array(*items),
                        i <= items.len(),
                        list@.len() == i,
                        forall|j: int|
                            0 <= j < i ==> email_of(#[trigger] items@[j]) == Some(list@[j]@),
                    decreases items.len() - i,
                {
                    match Email::from_json(&items[i]) {
                        Ok(email) => list.push(email),
                        Err(_) => {
                            return Err(ReplyError::Shape);
                        },
                    }
                    i += 1;
                }
                assert(email_views(list@) == emails_of(*document)->Some_0);
                Ok(list)
            },
            _ => Err(ReplyError::Shape),
        }
    }

    /// Create a list of emails from a JSON serialized input string.
    pub fn list_from_str(text: String) -> (r: Result<Vec<Email>, ReplyError>)
        ensures
            listed(r) == listing_of_text(text@),
    {
        match Json::parse(text.as_str()) {
            Ok(document) => Email::list_from_json(&document),
            Err(e) => Err(e),
        }
    }

    /// The page that shows this email, to be kept in a file named after `token`.
    ///
    /// An email without content cannot be shown.
    pub fn page(&self, token: &str) -> (r: Result<Page, InboxError>)
        ensures
            !self.holds_content() ==> r == Err::<Page, InboxError>(
                InboxError::MissingContent(self.id),
            ),
            self.holds_content() ==> (r matches Ok(page) && page.file_name@ == token@
                + PAGE_EXTENSION@ && page.html@ == page_html(self@)),
    {
        if !self.has_content() {
            return Err(InboxError::MissingContent(self.id));
        }
        let file_name = String::from_str(token).concat(PAGE_EXTENSION);
        let from_html = escape_angle_brackets(self.from.as_str());
        let mut html = String::from_str(PAGE_HEAD);
        html.append(self.subject.as_str());
        html.append(PAGE_MIDDLE);
        html.append(from_html.as_str());
        html.append(PAGE_TAIL);
        html.append(self.content.as_str());
        html.append(PAGE_END);
        Ok(Page { file_name, html })
    }

    /// The page that shows this email, in a file with a fresh random name.
    ///
    /// The caller writes the page to that file in the directory for temporary
    /// files and opens it in a browser.
    pub fn open(&self) -> (r: Result<Page, InboxError>)
        ensures
            !self.holds_content() ==> r == Err::<Page, InboxError>(
                InboxError::MissingContent(self.id),
            ),
            self.holds_content() ==> (r matches Ok(page) && is_page_name(page.file_name@)
                && page.html@ == page_html(self@)),
    {
        let token = random_token();
        self.page(token.as_str())
    }

    /// The line that stands for this email in a list: id, a mark that tells
    /// read from unread, subject, sender and time of arrival.
    pub fn summary(&self) -> (line: String)
        ensures
            line@ == summary_line(self@),
    {
        let mut line = String::from_str("[");
        push_decimal(&mut line, self.id as u128);
        line.append("] ");
        if self.read {
            line.append(MARK_READ);
        } else {
            line.append(MARK_UNREAD);
        }
        line.append(" ");
        line.append(self.subject.as_str());
        line.append(" - ");
        line.append(self.from.as_str());
        line.append(" (");
        line.append(self.when.as_str());
        line.append(")");
        line
    }

    /// Finds the first email of `list` with id `id`.
    pub fn find(list: &Vec<Email>, id: u32) -> (r: Result<usize, InboxError>)
        ensures
            match r {
                Ok(i) => i < list@.len() && list@[i as int].id == id && forall|j: int|
                    0 <= j < i ==> (#[trigger] list@[j]).id != id,
                Err(e) => e == InboxError::NotFound(id) && forall|j: int|
                    0 <= j < list@.len() ==> (#[trigger] list@[j]).id != id,
            },
    {
        let mut i: usize = 0;
        while i < list.len()
            invariant
                i <= list.len(),
                forall|j: int| 0 <= j < i ==> (#[trigger] list@[j]).id != id,
            decreases list.len() - i,
        {
            if list[i].id == id {
                return Ok(i);
            }
            i += 1;
        }
        Err(InboxError::NotFound(id))
    }

    /// The first `count` emails of `list`, or all of them where there are fewer.
    pub fn first<'a>(list: &'a Vec<Email>, count: usize) -> (shown: Vec<&'a Email>)
        ensures
            shown@.len() == if count <= list@.len() {
                count as int
            } else {
                list@.len() as int
            },
            forall|i: int| 0 <= i < shown@.len() ==> *(#[trigger] shown@[i]) == list@[i],
    {
        let mut shown: Vec<&'a Email> = Vec::new();
        let mut i: usize = 0;
        while i < list.len() && i < count
            invariant
                i <= list.len(),
                i <= count,
                shown@.len() == i,
                forall|j: int| 0 <= j < i ==> *(#[trigger] shown@[j]) == list@[j],
            decreases list.len() - i,
        {
            shown.push(&list[i]);
            i += 1;
        }
        shown
    }
}

/// A list of emails that can be shown line by line.
pub trait EmailVector {
    /// The emails of the list, in order.
    spec fn emails(&self) -> Seq<EmailView>;

    /// One line for each email of the list, in order.
    fn lines(&self) -> (lines: Vec<String>)
        ensures
            lines@.len() == self.emails().len(),
            forall|i: int|
                0 <= i < lines@.len() ==> (#[trigger] lines@[i])@ == summary_line(self.emails()[i]),
    ;
}

impl EmailVector for Vec<&Email> {
    open spec fn emails(&self) -> Seq<EmailView> {
        Seq::new(self@.len(), |i: int| self@[i]@)
    }

    fn lines(&self) -> (lines: Vec<String>) {
        let mut lines: Vec<String> = Vec::new();
        let mut i: usize = 0;
        while i < self.len()
            invariant
                i <= self.len(),
                lines@.len() == i,
                forall|j: int| 0 <= j < i ==> (#[trigger] lines@[j])@ == summary_line(self@[j]@),
            decreases self.len() - i,
        {
            lines.push(self[i].summary());
            i += 1;
        }
        lines
    }
}

} // verus!
