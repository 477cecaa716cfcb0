//! The cookie jar that carries a session from one run to the next.
//!
//! The jar is a `reqwest_cookie_store::CookieStore`. The caller reads and
//! writes the cookie file; this module turns the file's bytes into a jar and
//! back, and decides what a request to delete the file comes to. Every cookie
//! of the jar goes into the file, and a file is handed out only after it has
//! been read back as the cookies of the jar.

use crate::error::{ConfigError, InboxError};
use vstd::prelude::*;

verus! {

/// The cookie jar of `reqwest_cookie_store`, which nothing here looks into.
#[verifier::external_type_specification]
#[verifier::external_body]
pub struct ExCookieStore(reqwest_cookie_store::CookieStore);

/// One cookie of a jar: domain, path, name and value.
pub struct CookieRecord {
    pub domain: Seq<char>,
    pub path: Seq<char>,
    pub name: Seq<char>,
    pub value: Seq<char>,
}

/// One cookie of a jar, taken out of it as text.
#[derive(Debug, Clone, PartialEq, Eq)]
pub struct StoredCookie {
    /// The domain that the cookie belongs to.
    pub domain: String,
    /// The path that the cookie belongs to.
    pub path: String,
    /// The name of the cookie.
    pub name: String,
    /// The value of the cookie.
    pub value: String,
}

impl View for StoredCookie {
    type V = CookieRecord;

    open spec fn view(&self) -> CookieRecord {
        CookieRecord {
            domain: self.domain@,
            path: self.path@,
            name: self.name@,
            value: self.value@,
        }
    }
}

/// The cookies of a list, as a set.
pub open spec fn record_set(list: Seq<StoredCookie>) -> Set<CookieRecord> {
    Set::new(
        |record: CookieRecord| exists|i: int| 0 <= i < list.len() && (#[trigger] list[i])@ == record,
    )
}

/// The cookies that a jar holds, expired or not.
pub uninterp spec fn jar_records(jar: reqwest_cookie_store::CookieStore) -> Set<CookieRecord>;

/// Whether `CookieStore::load_json_all` accepts a file with these bytes.
pub uninterp spec fn is_cookie_file(bytes: Seq<u8>) -> bool;

/// The cookies that `CookieStore::load_json_all` reads from a file with these bytes.
pub uninterp spec fn file_records(bytes: Seq<u8>) -> Set<CookieRecord>;

/// Calls `CookieStore::default`, which makes a jar without cookies.
#[verifier::external_body]
fn empty_store() -> (jar: reqwest_cookie_store::CookieStore)
    ensures
        jar_records(jar) == Set::<CookieRecord>::empty(),
{
    reqwest_cookie_store::CookieStore::default()
}

/// Calls `CookieStore::load_json_all` on the bytes of a cookie file.
///
/// `load_json_all` reads one cookie from each line and keeps them all, so
/// what it gives goes by the bytes alone. The contract names it: a jar comes
/// back exactly for the bytes that [`is_cookie_file`] speaks of, and it holds
/// the cookies that [`file_records`] speaks of.
#[verifier::external_body]
fn load_lines(bytes: &[u8]) -> (r: Option<reqwest_cookie_store::CookieStore>)
    ensures
        r is Some <==> is_cookie_file(bytes@),
        r matches Some(jar) ==> jar_records(jar) == file_records(bytes@),
{
    reqwest_cookie_store::CookieStore::load_json_all(bytes).ok()
}

/// Calls `CookieStore::save_incl_expired_and_nonpersistent_json` with a vector
/// to write to.
///
/// It writes one line for each cookie of the jar, in the order of a hash map.
/// A cookie is written as the text of its header, and a value that holds
/// quotes or blanks at its ends is not read back from that text as it was. So
/// the contract says nothing of the bytes; [`save_store`] reads them back.
#[verifier::external_body]
fn save_lines(jar: &reqwest_cookie_store::CookieStore) -> (r: Option<Vec<u8>>) {
    let mut bytes: Vec<u8> = Vec::new();
    jar.save_incl_expired_and_nonpersistent_json(&mut bytes).ok().map(|_| bytes)
}

/// Calls `CookieStore::iter_any` and takes domain, path, name and value of
/// each cookie it hands out. The order is that of a hash map, so the contract
/// speaks of the cookies as a set.
#[verifier::external_body]
fn stored_cookies(jar: &reqwest_cookie_store::CookieStore) -> (list: Vec<StoredCookie>)
    ensures
        record_set(list@) == jar_records(*jar),
{
    jar.iter_any().map(|c| StoredCookie {
        domain: String::from(&c.domain),
        path: String::from(&c.path),
        name: c.name().to_string(),
        value: c.value().to_string(),
    }).collect()
}

/// What the path of the cookie file leads to.
#[derive(Debug, Clone, Copy, PartialEq, Eq, Structural)]
pub enum PathState {
    /// Nothing can be found out about the path; as a rule, nothing is there.
    Unknown,
    /// A regular file.
    File,
    /// Something else, such as a directory.
    NotFile,
}

/// The cookies of the jar that loading makes of the content of the cookie
/// file: those of the file where there is one and its bytes are a cookie
/// file, and none otherwise.
pub open spec fn loaded_records(contents: Option<Seq<u8>>) -> Set<CookieRecord> {
    match contents {
        Some(bytes) => if is_cookie_file(bytes) {
            file_records(bytes)
        } else {
            Set::empty()
        },
        None => Set::empty(),
    }
}

/// What saving hands out: the bytes that were written, where they were read
/// back as the cookies that were kept, and an error in every other case.
pub open spec fn save_outcome(
    written: Option<Vec<u8>>,
    kept: Seq<StoredCookie>,
    read_back: Option<Vec<StoredCookie>>,
) -> Result<Vec<u8>, InboxError> {
    match (written, read_back) {
        (Some(bytes), Some(read)) => if record_set(read@) == record_set(kept) {
            Ok(bytes)
        } else {
            Err(InboxError::Io)
        },
        _ => Err(InboxError::Io),
    }
}

/// The cookies of a jar, in no particular order.
pub fn records(jar: &reqwest_cookie_store::CookieStore) -> (list: Vec<StoredCookie>)
    ensures
        record_set(list@) == jar_records(*jar),
{
    stored_cookies(jar)
}

/// Tells whether `cookie` is one of `list`.
pub fn holds(list: &Vec<StoredCookie>, cookie: &StoredCookie) -> (found: bool)
    ensures
        found == record_set(list@).contains(cookie@),
{
    let mut i: usize = 0;
    while i < list.len()
        invariant
            i <= list.len(),
            forall|j: int| 0 <= j < i ==> (#[trigger] list@[j])@ != cookie@,
        decreases list.len() - i,
    {
        let other = &list[i];
        if other.domain == cookie.domain && other.path == cookie.path && other.name == cookie.name
            && other.value == cookie.value {
            return true;
        }
        i += 1;
    }
    false
}

/// Tells whether every cookie of `part` is one of `whole`.
pub fn holds_all(whole: &Vec<StoredCookie>, part: &Vec<StoredCookie>) -> (all: bool)
    ensures
        all == record_set(part@).subset_of(record_set(whole@)),
{
    let mut i: usize = 0;
    while i < part.len()
        invariant
            i <= part.len(),
            forall|j: int| 0 <= j < i ==> record_set(whole@).contains((#[trigger] part@[j])@),
        decreases part.len() - i,
    {
        if !holds(whole, &part[i]) {
            return false;
        }
        i += 1;
    }
    true
}

/// Tells whether two lists hold the same cookies, whatever their order.
pub fn same_records(one: &Vec<StoredCookie>, other: &Vec<StoredCookie>) -> (same: bool)
    ensures
        same == (record_set(one@) == record_set(other@)),
{
    let same = holds_all(one, other) && holds_all(other, one);
    proof {
        if same {
            assert(record_set(one@) =~= record_set(other@));
        }
    }
    same
}

/// The jar that was loaded, or a jar without cookies where none was.
pub fn store_or_empty(loaded: Option<reqwest_cookie_store::CookieStore>) -> (jar:
    reqwest_cookie_store::CookieStore)
    ensures
        loaded matches Some(store) ==> jar == store,
        loaded is None ==> jar_records(jar) == Set::<CookieRecord>::empty(),
{
    match loaded {
        Some(store) => store,
        None => empty_store(),
    }
}

/// Retrieve the cookie jar from the content of the cookie file.
///
/// `contents` is `None` where the file is missing, is no regular file or
/// cannot be read. Then, and where the bytes are no cookie file, the jar is
/// empty: loading never fails. From a cookie file the jar takes every cookie.
pub fn get_store(contents: Option<&[u8]>) -> (jar: reqwest_cookie_store::CookieStore)
    ensures
        contents is None ==> jar_records(jar) == Set::<CookieRecord>::empty(),
        contents matches Some(bytes) && !is_cookie_file(bytes@) ==> jar_records(jar) == Set::<
            CookieRecord,
        >::empty(),
        contents matches Some(bytes) ==> (is_cookie_file(bytes@) ==> jar_records(jar)
            == file_records(bytes@)),
        jar_records(jar) == loaded_records(
            match contents {
                Some(bytes) => Some(bytes@),
                None => None,
            },
        ),
{
    match contents {
        Some(bytes) => store_or_empty(load_lines(bytes)),
        None => store_or_empty(None),
    }
}

/// What saving makes of what came of writing the jar out and reading it back:
/// `written` are the bytes, if the writing went well, `kept` the cookies of
/// the jar, and `read_back` the cookies that were read from the bytes, if they
/// could be read.
pub fn saved(
    written: Option<Vec<u8>>,
    kept: &Vec<StoredCookie>,
    read_back: Option<Vec<StoredCookie>>,
) -> (r: Result<Vec<u8>, InboxError>)
    ensures
        r == save_outcome(written, kept@, read_back),
{
    match (written, read_back) {
        (Some(bytes), Some(read)) => {
            if same_records(&read, kept) {
                Ok(bytes)
            } else {
                Err(InboxError::Io)
            }
        },
        _ => Err(InboxError::Io),
    }
}

/// The bytes to overwrite the cookie file with, so that the session of `jar`
/// can be restored.
///
/// Every cookie of the jar is written out, and the bytes are read back before
/// they are handed out. So bytes that come back are a cookie file that holds
/// the cookies of the jar and no others. Where the jar cannot be written, or
/// is not read back as it is, the error is [`InboxError::Io`].
pub fn save_store(jar: &reqwest_cookie_store::CookieStore) -> (r: Result<Vec<u8>, InboxError>)
    ensures
        r matches Ok(bytes) ==> is_cookie_file(bytes@) && file_records(bytes@) == jar_records(*jar),
        r matches Err(e) ==> e == InboxError::Io,
{
    let written = save_lines(jar);
    let read_back = match &written {
        Some(bytes) => match load_lines(bytes.as_slice()) {
            Some(restored) => Some(records(&restored)),
            None => None,
        },
        None => None,
    };
    let kept = records(jar);
    saved(written, &kept, read_back)
}

/// Saving and loading keeps the cookies: from bytes that [`save_store`] hands
/// out for a jar, [`get_store`] makes a jar with the same cookies, none lost,
/// none added and none changed.
pub proof fn saved_jar_is_restored(jar: reqwest_cookie_store::CookieStore, bytes: Seq<u8>)
    requires
        is_cookie_file(bytes),
        file_records(bytes) == jar_records(jar),
    ensures
        loaded_records(Some(bytes)) == jar_records(jar),
{
}

/// Decide on a request to delete the cookie file. `Ok` tells the caller to
/// remove the file.
pub fn delete_file(state: PathState) -> (r: Result<(), InboxError>)
    ensures
        r == match state {
            PathState::File => Ok::<(), InboxError>(()),
            PathState::NotFile => Err(InboxError::Config(ConfigError::CookiePathNotFile)),
            PathState::Unknown => Err(InboxError::Io),
        },
{
    match state {
        PathState::File => Ok(()),
        PathState::NotFile => Err(InboxError::Config(ConfigError::CookiePathNotFile)),
        PathState::Unknown => Err(InboxError::Io),
    }
}

} // verus!
