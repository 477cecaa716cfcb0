use clinbox::args::{Commands, CLI, DEFAULT_COUNT, DEFAULT_INTERVAL, DEFAULT_TIMEOUT};
use clinbox::inbox::utils::{
    email_url, format_duration, headers, index_url, lifetime_url, open, refresh_url, Launch,
    Operation, Platform, Request, DISPOSABLE_MAIL,
};

#[test]
fn urls_lie_below_the_website() {
    assert_eq!(DISPOSABLE_MAIL, "https://www.disposablemail.com");
    assert_eq!(index_url(), "https://www.disposablemail.com/index/index");
    assert_eq!(refresh_url(), "https://www.disposablemail.com/index/refresh");
    assert_eq!(lifetime_url(), "https://www.disposablemail.com/index/zivot");
    assert_eq!(email_url(0), "https://www.disposablemail.com/email/id/0");
    assert_eq!(email_url(907), "https://www.disposablemail.com/email/id/907");
    assert_eq!(email_url(u32::MAX), "https://www.disposablemail.com/email/id/4294967295");
}

#[test]
fn each_operation_has_its_request() {
    let request = |operation: Operation| {
        let made = Request::new(operation);
        (made.url, made.xml_http)
    };
    assert_eq!(
        request(Operation::Prime),
        (String::from("https://www.disposablemail.com"), false)
    );
    assert_eq!(
        request(Operation::Address),
        (String::from("https://www.disposablemail.com/index/index"), true)
    );
    assert_eq!(
        request(Operation::Mail),
        (String::from("https://www.disposablemail.com/index/refresh"), true)
    );
    assert_eq!(
        request(Operation::Content(31)),
        (String::from("https://www.disposablemail.com/email/id/31"), true)
    );
    assert_eq!(
        request(Operation::Lifetime),
        (String::from("https://www.disposablemail.com/index/zivot"), true)
    );
}

#[test]
fn a_request_carries_the_headers_of_its_kind() {
    assert_eq!(Request::new(Operation::Prime).headers(), headers(false));
    assert_eq!(Request::new(Operation::Mail).headers(), headers(true));
    assert_ne!(headers(false), headers(true));
}

#[test]
fn plain_headers_carry_the_user_agent() {
    let map = headers(false);
    assert_eq!(map.len(), 1);
    assert_eq!(
        map.get("user-agent").unwrap(),
        "Mozilla/5.0 (Windows NT 10.0; Win64; x64) AppleWebKit/537.36 (KHTML, like Gecko) Chrome/117.0.0.0 Safari/537.36"
    );
    assert!(map.get("x-requested-with").is_none());
}

#[test]
fn script_headers_carry_the_mark_as_well() {
    let map = headers(true);
    assert_eq!(map.len(), 2);
    assert_eq!(
        map.get("User-Agent").unwrap(),
        "Mozilla/5.0 (Windows NT 10.0; Win64; x64) AppleWebKit/537.36 (KHTML, like Gecko) Chrome/117.0.0.0 Safari/537.36"
    );
    assert_eq!(map.get("x-requested-with").unwrap(), "XMLHttpRequest");
    let names: Vec<String> = map.keys().map(|k| k.as_str().to_string()).collect();
    assert!(names.contains(&String::from("user-agent")));
    assert!(names.contains(&String::from("x-requested-with")));
}

#[test]
fn open_goes_by_the_platform() {
    assert_eq!(
        open(String::from("/tmp/a.html"), Platform::Other),
        Launch {
            shell: String::from("sh"),
            flag: String::from("-c"),
            command: String::from("xdg-open '/tmp/a.html'"),
        }
    );
    assert_eq!(
        open(String::from("/tmp/a.html"), Platform::MacOs),
        Launch {
            shell: String::from("sh"),
            flag: String::from("-c"),
            command: String::from("open '/tmp/a.html'"),
        }
    );
    assert_eq!(
        open(String::from("C:\\Temp\\a.html"), Platform::Windows),
        Launch {
            shell: String::from("cmd"),
            flag: String::from("/c"),
            command: String::from("rundll32 url.dll,FileProtocolHandler C:\\Temp\\a.html"),
        }
    );
    assert_eq!(open(String::new(), Platform::Other).command, "xdg-open ''");
}

#[test]
fn durations_are_written_in_hours_minutes_and_seconds() {
    assert_eq!(format_duration(120), "0h 2m 0s");
    assert_eq!(format_duration(0), "0h 0m 0s");
    assert_eq!(format_duration(59), "0h 0m 59s");
    assert_eq!(format_duration(3600), "1h 0m 0s");
    assert_eq!(format_duration(3661), "1h 1m 1s");
    assert_eq!(format_duration(86399), "23h 59m 59s");
    assert_eq!(format_duration(360000), "100h 0m 0s");
    assert_eq!(format_duration(-5), "0h 0m 0s");
    assert_eq!(format_duration(i128::MIN), "0h 0m 0s");
}

#[test]
fn commands_that_copy_the_address() {
    assert!(Commands::Copy.copies_address());
    assert!(Commands::Show { count: 5, copy: true }.copies_address());
    assert!(!Commands::Show { count: 5, copy: false }.copies_address());
    assert!(Commands::Delete { copy: true }.copies_address());
    assert!(!Commands::Delete { copy: false }.copies_address());
    assert!(!Commands::Open { id: 1 }.copies_address());
    assert!(!Commands::Next { timeout: 120, interval: 10 }.copies_address());
    assert!(!Commands::Expires.copies_address());
    assert!(!Commands::Website.copies_address());
    assert!(!Commands::Github.copies_address());
}

#[test]
fn only_delete_deletes_the_session() {
    assert!(Commands::Delete { copy: false }.deletes_session());
    assert!(Commands::Delete { copy: true }.deletes_session());
    assert!(!Commands::Copy.deletes_session());
    assert!(!Commands::Show { count: 1, copy: true }.deletes_session());
    assert!(!Commands::Expires.deletes_session());
}

#[test]
fn website_and_github_open_an_address() {
    assert_eq!(Commands::Website.address_to_open(), Some("https://www.disposablemail.com"));
    assert_eq!(
        Commands::Github.address_to_open(),
        Some("https://github.com/ooojustin/clinbox")
    );
    assert_eq!(Commands::Copy.address_to_open(), None);
    assert_eq!(Commands::Open { id: 3 }.address_to_open(), None);
}

#[test]
fn defaults_of_the_commands() {
    assert_eq!(DEFAULT_COUNT, 5);
    assert_eq!(DEFAULT_TIMEOUT, 120);
    assert_eq!(DEFAULT_INTERVAL, 10);
    let cli = CLI { command: Commands::Next { timeout: DEFAULT_TIMEOUT, interval: DEFAULT_INTERVAL } };
    assert_eq!(cli.command, Commands::Next { timeout: 120, interval: 10 });
}
