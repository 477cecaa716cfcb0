//! What the client asks the mail service for, and how it shows a page.

use crate::text::{decimal, lowered, push_decimal};
use vstd::prelude::*;

verus! {

/// The browser that the client says it is: Chrome 117 on Windows.
pub const USER_AGENT: &'static str =
    "Mozilla/5.0 (Windows NT 10.0; Win64; x64) AppleWebKit/537.36 (KHTML, like Gecko) Chrome/117.0.0.0 Safari/537.36";

/// The name of the header that carries [`USER_AGENT`].
pub const HEADER_USER_AGENT: &'static str = "User-Agent";

/// The name of the header that marks a request as made by a script of a page.
pub const HEADER_REQUESTED_WITH: &'static str = "X-Requested-With";

/// The value of [`HEADER_REQUESTED_WITH`] that makes the service answer in JSON.
pub const XML_HTTP_REQUEST: &'static str = "XMLHttpRequest";

/// The header map of `reqwest`, which nothing here looks into.
#[verifier::external_type_specification]
#[verifier::external_body]
#[verifier::reject_recursive_types(T)]
pub struct ExHeaderMap<T>(reqwest::header::HeaderMap<T>);

/// The header value of `reqwest`, which nothing here looks into.
#[verifier::external_type_specification]
#[verifier::external_body]
pub struct ExHeaderValue(reqwest::header::HeaderValue);

/// The headers of a map: the value under each name, names in lower case.
pub uninterp spec fn header_entries(
    map: reqwest::header::HeaderMap<reqwest::header::HeaderValue>,
) -> Map<Seq<char>, Seq<char>>;

/// Whether `name` can name a header: 1 to 64 characters, each an ASCII letter,
/// a digit or a hyphen.
pub open spec fn is_header_name(name: Seq<char>) -> bool {
    &&& 1 <= name.len() <= 64
    &&& forall|i: int|
        0 <= i < name.len() ==> {
            let c = #[trigger] name[i];
            ('a' <= c && c <= 'z') || ('A' <= c && c <= 'Z') || ('0' <= c && c <= '9') || c == '-'
        }
}

/// Whether `text` can be the value of a header: printable ASCII only.
pub open spec fn is_header_text(text: Seq<char>) -> bool {
    forall|i: int| 0 <= i < text.len() ==> ' ' <= #[trigger] text[i] && text[i] <= '~'
}

/// No headers at all.
pub open spec fn no_headers() -> Map<Seq<char>, Seq<char>> {
    Map::empty()
}

/// Calls `HeaderMap::new`, which makes a map without headers.
#[verifier::external_body]
fn new_header_map() -> (fresh: reqwest::header::HeaderMap<reqwest::header::HeaderValue>)
    ensures
        header_entries(fresh) == no_headers(),
{
    reqwest::header::HeaderMap::new()
}

/// Calls `HeaderMap::insert` with the value that `HeaderValue::from_static`
/// makes of `value`.
///
/// `insert` puts the value under the name in lower case and drops what stood
/// under that name before. It panics on a text that cannot name a header and on
/// a map that is full (2^15 entries); `from_static` panics on a character that
/// is not visible ASCII. The `requires` leaves those inputs out, with room to spare.
#[verifier::external_body]
fn insert_static(
    map: &mut reqwest::header::HeaderMap<reqwest::header::HeaderValue>,
    name: &'static str,
    value: &'static str,
)
    requires
        is_header_name(name@),
        is_header_text(value@),
        header_entries(*old(map)).dom().finite(),
        header_entries(*old(map)).dom().len() < 1024,
    ensures
        header_entries(*final(map)) == header_entries(*old(map)).insert(lowered(name@), value@),
{
    map.insert(name, reqwest::header::HeaderValue::from_static(value));
}

/// The headers of a request: the user agent, and for `xml_http` the mark of a
/// script's request as well.
pub open spec fn request_headers(xml_http: bool) -> Map<Seq<char>, Seq<char>> {
    let plain = no_headers().insert(lowered(HEADER_USER_AGENT@), USER_AGENT@);
    if xml_http {
        plain.insert(lowered(HEADER_REQUESTED_WITH@), XML_HTTP_REQUEST@)
    } else {
        plain
    }
}

/// The headers of a request as they go over the wire: `user-agent` always, and
/// `x-requested-with` for a script's request only.
pub proof fn request_headers_spelled_out(xml_http: bool)
    ensures
        request_headers(xml_http).contains_key("user-agent"@),
        request_headers(xml_http)["user-agent"@] == USER_AGENT@,
        request_headers(xml_http).contains_key("x-requested-with"@) == xml_http,
        xml_http ==> request_headers(xml_http)["x-requested-with"@] == XML_HTTP_REQUEST@,
        forall|name: Seq<char>| #[trigger]
            request_headers(xml_http).contains_key(name) ==> name == "user-agent"@ || name
                == "x-requested-with"@,
{
    reveal_strlit("User-Agent");
    reveal_strlit("user-agent");
    reveal_strlit("X-Requested-With");
    reveal_strlit("x-requested-with");
    assert(lowered(HEADER_USER_AGENT@) =~= "user-agent"@);
    assert(lowered(HEADER_REQUESTED_WITH@) =~= "x-requested-with"@);
}

/// Create header map to be used in web request.
pub fn headers(xml_http: bool) -> (map: reqwest::header::HeaderMap<reqwest::header::HeaderValue>)
    ensures
        header_entries(map) == request_headers(xml_http),
{
    proof {
        reveal_strlit(
            "Mozilla/5.0 (Windows NT 10.0; Win64; x64) AppleWebKit/537.36 (KHTML, like Gecko) Chrome/117.0.0.0 Safari/537.36",
        );
        reveal_strlit("User-Agent");
        reveal_strlit("X-Requested-With");
        reveal_strlit("XMLHttpRequest");
    }
    let mut map = new_header_map();
    insert_static(&mut map, HEADER_USER_AGENT, USER_AGENT);
    if xml_http {
        insert_static(&mut map, HEADER_REQUESTED_WITH, XML_HTTP_REQUEST);
    }
    map
}

/// The website of the mail service.
pub const DISPOSABLE_MAIL: &'static str = "https://www.disposablemail.com";

/// Where the address of the inbox is asked for, below the website.
pub const PATH_INDEX: &'static str = "/index/index";

/// Where the list of emails is asked for, below the website.
pub const PATH_REFRESH: &'static str = "/index/refresh";

/// Where the lifetime of the inbox is asked for, below the website.
pub const PATH_LIFETIME: &'static str = "/index/zivot";

/// Where the body of an email is asked for, below the website; the id follows.
pub const PATH_EMAIL: &'static str = "/email/id/";

/// The address of the request that answers with the inbox's address.
pub fn index_url() -> (url: String)
    ensures
        url@ == DISPOSABLE_MAIL@ + PATH_INDEX@,
{
    String::from_str(DISPOSABLE_MAIL).concat(PATH_INDEX)
}

/// The address of the request that answers with the list of emails.
pub fn refresh_url() -> (url: String)
    ensures
        url@ == DISPOSABLE_MAIL@ + PATH_REFRESH@,
{
    String::from_str(DISPOSABLE_MAIL).concat(PATH_REFRESH)
}

/// The address of the request that answers with the inbox's lifetime.
pub fn lifetime_url() -> (url: String)
    ensures
        url@ == DISPOSABLE_MAIL@ + PATH_LIFETIME@,
{
    String::from_str(DISPOSABLE_MAIL).concat(PATH_LIFETIME)
}

/// The address of the request that answers with the body of email `id`.
pub fn email_url(id: u32) -> (url: String)
    ensures
        url@ == DISPOSABLE_MAIL@ + PATH_EMAIL@ + decimal(id as nat),
{
    let mut url = String::from_str(DISPOSABLE_MAIL).concat(PATH_EMAIL);
    push_decimal(&mut url, id as u128);
    url
}

/// What the client can ask the mail service for.
#[derive(Debug, Clone, Copy, PartialEq, Eq, Structural)]
pub enum Operation {
    /// The website itself. The answer is dropped; asking begins the session.
    Prime,
    /// The address of the inbox.
    Address,
    /// The list of emails.
    Mail,
    /// The body of the email with this id.
    Content(u32),
    /// The lifetime of the inbox.
    Lifetime,
}

/// One request to the mail service. It is sent with GET.
#[derive(Debug, Clone, PartialEq, Eq)]
pub struct Request {
    /// The address to ask.
    pub url: String,
    /// Whether the request says that a script of a page made it. The service
    /// answers such a request with data, any other with a page.
    pub xml_http: bool,
}

/// The address that an operation asks.
pub open spec fn operation_url(operation: Operation) -> Seq<char> {
    match operation {
        Operation::Prime => DISPOSABLE_MAIL@,
        Operation::Address => DISPOSABLE_MAIL@ + PATH_INDEX@,
        Operation::Mail => DISPOSABLE_MAIL@ + PATH_REFRESH@,
        Operation::Content(id) => DISPOSABLE_MAIL@ + PATH_EMAIL@ + decimal(id as nat),
        Operation::Lifetime => DISPOSABLE_MAIL@ + PATH_LIFETIME@,
    }
}

impl Request {
    /// The request that performs `operation`. Every operation but
    /// [`Operation::Prime`] asks in the name of a script.
    pub fn new(operation: Operation) -> (request: Request)
        ensures
            request.url@ == operation_url(operation),
            request.xml_http == (operation != Operation::Prime),
    {
        match operation {
            Operation::Prime => Request { url: String::from_str(DISPOSABLE_MAIL), xml_http: false },
            Operation::Address => Request { url: index_url(), xml_http: true },
            Operation::Mail => Request { url: refresh_url(), xml_http: true },
            Operation::Content(id) => Request { url: email_url(id), xml_http: true },
            Operation::Lifetime => Request { url: lifetime_url(), xml_http: true },
        }
    }

    /// The headers to send the request with.
    pub fn headers(&self) -> (map: reqwest::header::HeaderMap<reqwest::header::HeaderValue>)
        ensures
            header_entries(map) == request_headers(self.xml_http),
    {
        headers(self.xml_http)
    }
}

/// The kind of system the client runs on, as far as opening a page goes.
#[derive(Debug, Clone, Copy, PartialEq, Eq, Structural)]
pub enum Platform {
    Windows,
    MacOs,
    Other,
}

/// A shell command that opens a file or an address in its default program.
#[derive(Debug, Clone, PartialEq, Eq)]
pub struct Launch {
    /// The shell to start.
    pub shell: String,
    /// The argument that makes the shell run one command.
    pub flag: String,
    /// The command for the shell.
    pub command: String,
}

/// The command that opens `path` on `platform`.
pub open spec fn open_command(path: Seq<char>, platform: Platform) -> Seq<char> {
    match platform {
        Platform::Windows => "rundll32 url.dll,FileProtocolHandler "@ + path,
        Platform::MacOs => "open '"@ + path + "'"@,
        Platform::Other => "xdg-open '"@ + path + "'"@,
    }
}

/// Says how to open the provided file path or URL in the default program or
/// browser of `platform`.
pub fn open(path: String, platform: Platform) -> (launch: Launch)
    ensures
        launch.shell@ == (if platform == Platform::Windows {
            "cmd"@
        } else {
            "sh"@
        }),
        launch.flag@ == (if platform == Platform::Windows {
            "/c"@
        } else {
            "-c"@
        }),
        launch.command@ == open_command(path@, platform),
{
    match platform {
        Platform::Windows => Launch {
            shell: String::from_str("cmd"),
            flag: String::from_str("/c"),
            command: String::from_str("rundll32 url.dll,FileProtocolHandler ").concat(
                path.as_str(),
            ),
        },
        Platform::MacOs => Launch {
            shell: String::from_str("sh"),
            flag: String::from_str("-c"),
            command: String::from_str("open '").concat(path.as_str()).concat("'"),
        },
        Platform::Other => Launch {
            shell: String::from_str("sh"),
            flag: String::from_str("-c"),
            command: String::from_str("xdg-open '").concat(path.as_str()).concat("'"),
        },
    }
}

/// How a time to wait is written: hours, minutes and seconds, as in
/// `0h 2m 0s`. A time that is over is written as no time at all.
pub open spec fn duration_text(seconds: int) -> Seq<char> {
    let left = if seconds < 0 {
        0
    } else {
        seconds
    };
    decimal((left / 3600) as nat) + "h "@ + decimal(((left % 3600) / 60) as nat) + "m "@ + decimal(
        (left % 60) as nat,
    ) + "s"@
}

/// Writes a number of seconds as hours, minutes and seconds.
pub fn format_duration(seconds: i128) -> (text: String)
    ensures
        text@ == duration_text(seconds as int),
{
    let left: u128 = if seconds < 0 {
        0
    } else {
        seconds as u128
    };
    let mut text = String::new();
    push_decimal(&mut text, left / 3600);
    text.append("h ");
    push_decimal(&mut text, (left % 3600) / 60);
    text.append("m ");
    push_decimal(&mut text, left % 60);
    text.append("s");
    text
}

} // verus!
