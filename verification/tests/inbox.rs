use clinbox::cookies::PathState;
use clinbox::error::{ConfigError, InboxError, ReplyError};
use clinbox::inbox::date_time::{deserialize, seconds_between, Timestamp};
use clinbox::inbox::email::Email;
use clinbox::inbox::utils::{Operation, Request};
use clinbox::inbox::{AddressInfo, Inbox, Lifetime, Reply};
use clinbox::json::Json;

fn reply(status: u16, body: &str) -> Reply {
    Reply { status, body: String::from(body) }
}

fn empty_email(id: u32) -> Email {
    Email {
        id,
        subject: String::from("s"),
        from: String::from("f"),
        when: String::from("w"),
        read: false,
        content: String::new(),
    }
}

#[test]
fn a_new_inbox_has_no_address() {
    assert_eq!(Inbox::new().address_info, None);
}

#[test]
fn status_from_200_to_299_is_success() {
    assert!(!reply(199, "").is_success());
    assert!(reply(200, "").is_success());
    assert!(reply(204, "").is_success());
    assert!(reply(299, "").is_success());
    assert!(!reply(300, "").is_success());
    assert!(!reply(404, "").is_success());
    assert!(!reply(0, "").is_success());
    assert_eq!(reply(200, "").error_for_status(), Ok(()));
    assert_eq!(reply(302, "").error_for_status(), Err(InboxError::Remote(302)));
    assert_eq!(reply(500, "").error_for_status(), Err(InboxError::Remote(500)));
}

#[test]
fn establish_address_sets_the_address() {
    let mut inbox = Inbox::new();
    let answer = reply(200, "{\"email\":\"fox@example.com\",\"heslo\":\"s3cret\"}");
    assert_eq!(inbox.establish_address(&answer), Ok(()));
    assert_eq!(
        inbox.address_info,
        Some(AddressInfo {
            email: String::from("fox@example.com"),
            password: String::from("s3cret"),
        })
    );
    assert_eq!(inbox.address_info.unwrap().email, "fox@example.com");
}

#[test]
fn establish_address_fails_on_a_status_outside_2xx() {
    let mut inbox = Inbox::new();
    let answer = reply(503, "{\"email\":\"fox@example.com\",\"heslo\":\"s3cret\"}");
    assert_eq!(inbox.establish_address(&answer), Err(InboxError::Remote(503)));
    assert_eq!(inbox.address_info, None);
}

#[test]
fn establish_address_fails_on_an_unreadable_body() {
    let mut inbox = Inbox::new();
    assert_eq!(
        inbox.establish_address(&reply(200, "<html>")),
        Err(InboxError::Parse(ReplyError::Syntax))
    );
    assert_eq!(
        inbox.establish_address(&reply(200, "{\"email\":\"fox@example.com\"}")),
        Err(InboxError::Parse(ReplyError::Shape))
    );
    assert_eq!(
        inbox.establish_address(&reply(200, "{\"email\":1,\"heslo\":\"x\"}")),
        Err(InboxError::Parse(ReplyError::Shape))
    );
    assert_eq!(
        inbox.establish_address(&reply(200, "[]")),
        Err(InboxError::Parse(ReplyError::Shape))
    );
    assert_eq!(inbox.address_info, None);
}

#[test]
fn a_failed_establish_keeps_the_address_that_was_there() {
    let mut inbox = Inbox::new();
    let first = reply(200, "{\"email\":\"fox@example.com\",\"heslo\":\"s3cret\"}");
    inbox.establish_address(&first).unwrap();
    let before = inbox.clone();
    assert_eq!(inbox.establish_address(&reply(500, "")), Err(InboxError::Remote(500)));
    assert_eq!(inbox, before);
    let second = reply(200, "{\"email\":\"owl@example.com\",\"heslo\":\"other\"}");
    inbox.establish_address(&second).unwrap();
    assert_eq!(inbox.address_info.unwrap().email, "owl@example.com");
}

#[test]
fn address_from_json_reads_both_members() {
    let document = Json::Object(vec![
        (String::from("heslo"), Json::Text(String::from("pw"))),
        (String::from("email"), Json::Text(String::from("a@b.c"))),
        (String::from("other"), Json::Null),
    ]);
    assert_eq!(
        AddressInfo::from_json(&document),
        Ok(AddressInfo { email: String::from("a@b.c"), password: String::from("pw") })
    );
    assert_eq!(AddressInfo::from_json(&Json::Null), Err(ReplyError::Shape));
}

#[test]
fn get_mail_lists_the_emails_of_the_reply() {
    let inbox = Inbox::new();
    let body = "[{\"id\":1,\"predmet\":\"a\",\"od\":\"x\",\"kdy\":\"t\",\"precteno\":\"New\"},\
                 {\"id\":2,\"predmet\":\"b\",\"od\":\"y\",\"kdy\":\"u\",\"precteno\":\"seen\"}]";
    let list = inbox.get_mail(&reply(200, body)).unwrap();
    assert_eq!(list.len(), 2);
    assert_eq!((list[0].id, list[0].read), (1, false));
    assert_eq!((list[1].id, list[1].read), (2, true));
    assert_eq!(list[1].subject, "b");
    assert_eq!(list[1].from, "y");
    assert_eq!(list[1].when, "u");
}

#[test]
fn get_mail_reports_status_before_body() {
    let inbox = Inbox::new();
    assert_eq!(inbox.get_mail(&reply(404, "[]")), Err(InboxError::Remote(404)));
    assert_eq!(inbox.get_mail(&reply(404, "oops")), Err(InboxError::Remote(404)));
    assert_eq!(inbox.get_mail(&reply(200, "oops")), Err(InboxError::Parse(ReplyError::Syntax)));
    assert_eq!(inbox.get_mail(&reply(200, "{}")), Err(InboxError::Parse(ReplyError::Shape)));
}

#[test]
fn content_request_names_the_email() {
    let inbox = Inbox::new();
    let mut mail = empty_email(1234);
    assert_eq!(
        inbox.content_request(&mail),
        Some(Request {
            url: String::from("https://www.disposablemail.com/email/id/1234"),
            xml_http: true,
        })
    );
    mail.content = String::from("<p>x</p>");
    assert_eq!(inbox.content_request(&mail), None);
}

#[test]
fn populate_content_takes_the_body() {
    let inbox = Inbox::new();
    let mut mail = empty_email(1);
    assert_eq!(inbox.populate_content(&mut mail, &reply(200, "<p>hello</p>")), Ok(()));
    assert_eq!(mail.content, "<p>hello</p>");
    assert!(mail.has_content());
    assert_eq!(mail.id, 1);
    assert_eq!(mail.subject, "s");
    assert!(!mail.read);
}

#[test]
fn populate_content_is_idempotent() {
    let inbox = Inbox::new();
    let mut mail = empty_email(1);
    inbox.populate_content(&mut mail, &reply(200, "<p>first</p>")).unwrap();
    let once = mail.clone();
    assert_eq!(inbox.content_request(&mail), None);
    assert_eq!(inbox.populate_content(&mut mail, &reply(200, "<p>second</p>")), Ok(()));
    assert_eq!(mail, once);
    assert_eq!(inbox.populate_content(&mut mail, &reply(500, "")), Ok(()));
    assert_eq!(mail, once);
}

#[test]
fn populate_content_fails_on_a_status_outside_2xx() {
    let inbox = Inbox::new();
    let mut mail = empty_email(1);
    assert_eq!(
        inbox.populate_content(&mut mail, &reply(403, "<p>no</p>")),
        Err(InboxError::Remote(403))
    );
    assert_eq!(mail, empty_email(1));
}

#[test]
fn an_empty_body_leaves_the_email_without_content() {
    let inbox = Inbox::new();
    let mut mail = empty_email(1);
    assert_eq!(inbox.populate_content(&mut mail, &reply(200, "")), Ok(()));
    assert!(!mail.has_content());
    assert_eq!(inbox.populate_content(&mut mail, &reply(200, "late")), Ok(()));
    assert_eq!(mail.content, "late");
}

#[test]
fn expiry_delta_of_two_minutes_is_120_seconds() {
    let inbox = Inbox::new();
    let body = "{\"ted\":\"2024-01-01 00:00:00\",\"konec\":\"2024-01-01 00:02:00\"}";
    assert_eq!(inbox.get_exp_delta(&reply(200, body)), Ok(120));
}

#[test]
fn expiry_delta_is_negative_after_the_end() {
    let inbox = Inbox::new();
    let body = "{\"ted\":\"2024-03-01 00:00:00\",\"konec\":\"2024-02-28 23:59:59\"}";
    assert_eq!(inbox.get_exp_delta(&reply(200, body)), Ok(-86401));
    let same = "{\"ted\":\"2024-03-01 12:00:00\",\"konec\":\"2024-03-01 12:00:00\"}";
    assert_eq!(inbox.get_exp_delta(&reply(200, same)), Ok(0));
}

#[test]
fn expiry_delta_reports_each_failure() {
    let inbox = Inbox::new();
    let good = "{\"ted\":\"2024-01-01 00:00:00\",\"konec\":\"2024-01-01 00:02:00\"}";
    assert_eq!(inbox.get_exp_delta(&reply(500, good)), Err(InboxError::Remote(500)));
    assert_eq!(
        inbox.get_exp_delta(&reply(200, "not json")),
        Err(InboxError::Parse(ReplyError::Syntax))
    );
    assert_eq!(
        inbox.get_exp_delta(&reply(200, "{\"ted\":\"2024-01-01 00:00:00\"}")),
        Err(InboxError::Parse(ReplyError::Shape))
    );
    assert_eq!(
        inbox.get_exp_delta(&reply(200, "{\"ted\":1704067200,\"konec\":\"2024-01-01 00:02:00\"}")),
        Err(InboxError::Parse(ReplyError::Shape))
    );
    assert_eq!(
        inbox.get_exp_delta(&reply(
            200,
            "{\"ted\":\"2024-01-01T00:00:00\",\"konec\":\"2024-01-01 00:02:00\"}"
        )),
        Err(InboxError::Parse(ReplyError::Timestamp))
    );
    assert_eq!(
        inbox.get_exp_delta(&reply(
            200,
            "{\"ted\":\"2024-01-01 00:00:00\",\"konec\":\"2024-13-01 00:02:00\"}"
        )),
        Err(InboxError::Parse(ReplyError::Timestamp))
    );
}

fn at(seconds: i64) -> Timestamp {
    Timestamp { seconds, nanos: 0 }
}

#[test]
fn deserialize_reads_seconds_since_the_epoch() {
    assert_eq!(deserialize("1970-01-01 00:00:00"), Ok(at(0)));
    assert_eq!(deserialize("1970-01-01 00:00:01"), Ok(at(1)));
    assert_eq!(deserialize("2024-01-01 00:00:00"), Ok(at(1704067200)));
    assert_eq!(deserialize("1969-12-31 23:59:59"), Ok(at(-1)));
    assert_eq!(deserialize("2024-02-29 12:34:56"), Ok(at(1709210096)));
}

#[test]
fn deserialize_keeps_a_leap_second_apart() {
    assert_eq!(
        deserialize("2016-12-31 23:59:60"),
        Ok(Timestamp { seconds: 1483228799, nanos: 1_000_000_000 })
    );
    assert_eq!(deserialize("2016-12-31 23:59:59"), Ok(at(1483228799)));
    assert_eq!(deserialize("2024-01-01 00:00:61"), Err(ReplyError::Timestamp));
}

#[test]
fn deserialize_rejects_other_forms() {
    assert_eq!(deserialize(""), Err(ReplyError::Timestamp));
    assert_eq!(deserialize("2024-01-01"), Err(ReplyError::Timestamp));
    assert_eq!(deserialize("2023-02-29 00:00:00"), Err(ReplyError::Timestamp));
    assert_eq!(deserialize("2024-01-01 24:00:00"), Err(ReplyError::Timestamp));
    assert_eq!(deserialize("2024-01-01 00:00:00 UTC"), Err(ReplyError::Timestamp));
    assert_eq!(deserialize("yesterday"), Err(ReplyError::Timestamp));
}

#[test]
fn remaining_is_end_minus_now() {
    assert_eq!(Lifetime { now: at(10), end: at(130) }.remaining(), 120);
    assert_eq!(Lifetime { now: at(130), end: at(10) }.remaining(), -120);
    assert_eq!(
        Lifetime { now: at(i64::MIN), end: at(i64::MAX) }.remaining(),
        i64::MAX as i128 - i64::MIN as i128
    );
    assert_eq!(
        Lifetime { now: at(i64::MAX), end: at(i64::MIN) }.remaining(),
        i64::MIN as i128 - i64::MAX as i128
    );
}

#[test]
fn a_leap_second_counts_as_a_second() {
    let inbox = Inbox::new();
    let body = "{\"ted\":\"2024-01-01 00:00:59\",\"konec\":\"2024-01-01 00:00:60\"}";
    assert_eq!(inbox.get_exp_delta(&reply(200, body)), Ok(1));
    let back = "{\"ted\":\"2024-01-01 00:00:60\",\"konec\":\"2024-01-01 00:00:59\"}";
    assert_eq!(inbox.get_exp_delta(&reply(200, back)), Ok(-1));
    let later = "{\"ted\":\"2024-01-01 10:00:60\",\"konec\":\"2024-01-01 10:01:05\"}";
    assert_eq!(inbox.get_exp_delta(&reply(200, later)), Ok(6));
}

#[test]
fn seconds_between_round_towards_zero() {
    let early = Timestamp { seconds: 100, nanos: 900_000_000 };
    let late = Timestamp { seconds: 102, nanos: 100_000_000 };
    assert_eq!(seconds_between(&early, &late), 1);
    assert_eq!(seconds_between(&late, &early), -1);
    assert_eq!(seconds_between(&early, &early), 0);
    let almost = Timestamp { seconds: 100, nanos: 999_999_999 };
    assert_eq!(seconds_between(&at(100), &almost), 0);
    assert_eq!(seconds_between(&almost, &at(100)), 0);
    assert_eq!(seconds_between(&almost, &at(101)), 0);
    assert_eq!(seconds_between(&at(99), &almost), 1);
}

#[test]
fn seconds_between_agrees_with_the_subtraction_of_dates() {
    let format = "%Y-%m-%d %H:%M:%S";
    let texts = [
        "2024-01-01 00:00:00",
        "2024-01-01 00:00:59",
        "2024-01-01 00:00:60",
        "2024-01-01 00:01:00",
        "2024-01-01 10:00:60",
        "2024-01-01 10:01:05",
        "2024-01-01 23:59:59",
        "2024-01-01 23:59:60",
        "2024-01-02 00:00:00",
        "2024-01-02 23:59:60",
        "2023-12-31 23:59:60",
        "1969-12-31 23:59:60",
        "1969-12-31 12:00:00",
        "1970-01-01 00:00:00",
        "0001-01-01 00:00:60",
        "9999-12-31 23:59:60",
    ];
    for now in texts {
        for end in texts {
            let expected = (chrono::NaiveDateTime::parse_from_str(end, format).unwrap().and_utc()
                - chrono::NaiveDateTime::parse_from_str(now, format).unwrap().and_utc())
            .num_seconds();
            let lifetime =
                Lifetime { now: deserialize(now).unwrap(), end: deserialize(end).unwrap() };
            assert_eq!(lifetime.remaining(), expected as i128, "from {} to {}", now, end);
        }
    }
}

#[test]
fn lifetime_from_json_reads_both_timestamps() {
    let document = Json::Object(vec![
        (String::from("konec"), Json::Text(String::from("2024-01-01 00:10:00"))),
        (String::from("ted"), Json::Text(String::from("2024-01-01 00:00:00"))),
    ]);
    assert_eq!(
        Lifetime::from_json(&document),
        Ok(Lifetime { now: at(1704067200), end: at(1704067800) })
    );
}

#[test]
fn the_website_is_asked_before_the_address() {
    assert_eq!(Inbox::establish_operations(), vec![Operation::Prime, Operation::Address]);
}

#[test]
fn delete_goes_by_what_the_path_leads_to() {
    assert_eq!(Inbox::delete(PathState::File), Ok(()));
    assert_eq!(
        Inbox::delete(PathState::NotFile),
        Err(InboxError::Config(ConfigError::CookiePathNotFile))
    );
    assert_eq!(Inbox::delete(PathState::Unknown), Err(InboxError::Io));
}

#[test]
fn every_error_has_its_message() {
    assert_eq!(
        InboxError::Config(ConfigError::CookiePathNotFile).message(),
        "Cookies path must be a file."
    );
    assert_eq!(
        InboxError::Config(ConfigError::ZeroTimeout).message(),
        "Timeout must be at least one second."
    );
    assert_eq!(
        InboxError::Config(ConfigError::ZeroInterval).message(),
        "Interval must be at least one second."
    );
    assert_eq!(InboxError::Io.message(), "Failed to access the cookies file.");
    assert_eq!(
        InboxError::Remote(404).message(),
        "The mail service answered with status 404."
    );
    assert_eq!(
        InboxError::Parse(ReplyError::Syntax).message(),
        "The reply of the mail service is not JSON."
    );
    assert_eq!(
        InboxError::Parse(ReplyError::Shape).message(),
        "The reply of the mail service lacks an expected field."
    );
    assert_eq!(
        InboxError::Parse(ReplyError::Timestamp).message(),
        "Failed to parse DateTime from string."
    );
    assert_eq!(
        InboxError::NotFound(17).message(),
        "Failed to find email with specified ID: 17"
    );
    assert_eq!(
        InboxError::MissingContent(8).message(),
        "Failed to open email [id: 8] because it is missing content."
    );
}
