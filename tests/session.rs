use ddns_server::session::{Action, Event, Forwarded, Phase, Session};
use ddns_server::store::stored_ip;

fn http(credential: &str, ip: &str) -> Session {
    Session::http(
        String::from("secret"),
        String::from(credential),
        Forwarded::Value(String::from(ip)),
    )
}

fn expect_finish(a: Action) -> (u64, Option<(u16, String)>, Option<String>) {
    match a {
        Action::Finish { delay_ms, reply, post } => {
            (delay_ms, reply.map(|r| (r.status, r.message)), post)
        }
        _ => panic!("expected the session to finish"),
    }
}

/// Runs a session against an in-memory record; returns the record after,
/// the propagated IP and the reply.
fn run_on(mut s: Session, record: &mut String) -> (Option<String>, Option<(u16, String)>) {
    let mut a = s.step(Event::Start);
    loop {
        a = match a {
            Action::Acquire => s.step(Event::Locked),
            Action::ReadStore => s.step(Event::ReadDone(Some(record.clone()))),
            Action::WriteStore(ip) => {
                *record = ip;
                s.step(Event::Written(true))
            }
            Action::Finish { reply, post, .. } => {
                return (post, reply.map(|r| (r.status, r.message)));
            }
            _ => panic!("unexpected action"),
        };
    }
}

#[test]
fn empty_store_takes_new_ip() {
    let mut s = http("secret", "1.2.3.4");
    assert!(matches!(s.step(Event::Start), Action::Acquire));
    assert!(matches!(s.step(Event::Locked), Action::ReadStore));
    match s.step(Event::ReadDone(Some(String::new()))) {
        Action::WriteStore(ip) => assert_eq!(ip, "1.2.3.4"),
        _ => panic!("expected a write"),
    }
    let (delay, reply, post) = expect_finish(s.step(Event::Written(true)));
    assert_eq!(delay, 0);
    assert_eq!(reply, Some((200, String::from("New IP \"1.2.3.4\" written"))));
    assert_eq!(post, Some(String::from("1.2.3.4")));
    assert!(s.is_closed());
}

#[test]
fn same_ip_is_no_change() {
    let mut record = String::from("1.2.3.4");
    let (post, reply) = run_on(http("secret", "1.2.3.4"), &mut record);
    assert_eq!(post, None);
    assert_eq!(reply, Some((200, String::from("No change in IP: \"1.2.3.4\""))));
    assert_eq!(record, "1.2.3.4");
}

#[test]
fn stored_ip_is_trimmed_before_comparing() {
    let mut record = String::from("1.2.3.4\n");
    let (post, reply) = run_on(http("secret", "1.2.3.4"), &mut record);
    assert_eq!(post, None);
    assert_eq!(reply, Some((200, String::from("No change in IP: \"1.2.3.4\""))));
    assert_eq!(record, "1.2.3.4\n");
}

#[test]
fn wrong_credential_is_refused_after_delay() {
    let mut s = http("guess", "1.2.3.4");
    let (delay, reply, post) = expect_finish(s.step(Event::Start));
    assert_eq!(delay, 5000);
    assert_eq!(reply, Some((403, String::from("No entrance with that password"))));
    assert_eq!(post, None);
    assert!(s.is_closed());
    let (_, reply, post) = expect_finish(s.step(Event::Locked));
    assert_eq!(reply, None);
    assert_eq!(post, None);
}

#[test]
fn wrong_credential_leaves_record_alone() {
    let mut record = String::from("5.6.7.8");
    let (post, reply) = run_on(http("nope", "1.2.3.4"), &mut record);
    assert_eq!(post, None);
    assert_eq!(reply.map(|r| r.0), Some(403));
    assert_eq!(record, "5.6.7.8");
}

#[test]
fn missing_header_is_precondition_failed() {
    let mut s = Session::http(String::from("secret"), String::from("secret"), Forwarded::Missing);
    let (_, reply, post) = expect_finish(s.step(Event::Start));
    assert_eq!(reply, Some((412, String::from("x-forwarded-for is not set"))));
    assert_eq!(post, None);
}

#[test]
fn unreadable_header_is_precondition_failed() {
    let mut s =
        Session::http(String::from("secret"), String::from("secret"), Forwarded::Unreadable);
    let (_, reply, _) = expect_finish(s.step(Event::Start));
    assert_eq!(
        reply,
        Some((412, String::from("\"x-forwarded-for\" is set, but can't be parsed to str")))
    );
}

#[test]
fn deleted_file_is_recreated_once_then_fails() {
    let mut s = http("secret", "1.2.3.4");
    s.step(Event::Start);
    s.step(Event::Locked);
    assert!(matches!(s.step(Event::ReadDone(None)), Action::CheckExists));
    assert!(matches!(s.step(Event::Exists(Some(false))), Action::Recreate));
    assert!(matches!(s.step(Event::Recreated(true)), Action::ReadStore));
    assert!(matches!(s.step(Event::ReadDone(None)), Action::CheckExists));
    let (_, reply, post) = expect_finish(s.step(Event::Exists(Some(false))));
    assert_eq!(reply, Some((500, String::from("Can't read existing IP"))));
    assert_eq!(post, None);
}

#[test]
fn deleted_file_recreated_then_written() {
    let mut s = http("secret", "1.2.3.4");
    s.step(Event::Start);
    s.step(Event::Locked);
    s.step(Event::ReadDone(None));
    s.step(Event::Exists(Some(false)));
    s.step(Event::Recreated(true));
    match s.step(Event::ReadDone(Some(String::new()))) {
        Action::WriteStore(ip) => assert_eq!(ip, "1.2.3.4"),
        _ => panic!("expected a write"),
    }
}

#[test]
fn unreadable_existing_file_fails_at_once() {
    let mut s = http("secret", "1.2.3.4");
    s.step(Event::Start);
    s.step(Event::Locked);
    s.step(Event::ReadDone(None));
    let (_, reply, _) = expect_finish(s.step(Event::Exists(Some(true))));
    assert_eq!(reply.map(|r| r.0), Some(500));
}

#[test]
fn failed_recreate_fails() {
    let mut s = http("secret", "1.2.3.4");
    s.step(Event::Start);
    s.step(Event::Locked);
    s.step(Event::ReadDone(None));
    s.step(Event::Exists(Some(false)));
    let (_, reply, _) = expect_finish(s.step(Event::Recreated(false)));
    assert_eq!(reply, Some((500, String::from("Can't read existing IP"))));
}

#[test]
fn failed_write_is_server_error_without_post() {
    let mut s = http("secret", "1.2.3.4");
    s.step(Event::Start);
    s.step(Event::Locked);
    s.step(Event::ReadDone(Some(String::from("9.9.9.9"))));
    let (_, reply, post) = expect_finish(s.step(Event::Written(false)));
    assert_eq!(reply, Some((500, String::from("Can't write new IP \"1.2.3.4\" to file"))));
    assert_eq!(post, None);
}

#[test]
fn a_then_b_ends_with_b_posted_once() {
    let mut record = String::from("1.1.1.1");
    let (p1, _) = run_on(http("secret", "1.1.1.1"), &mut record);
    let (p2, _) = run_on(http("secret", "2.2.2.2"), &mut record);
    assert_eq!(p1, None);
    assert_eq!(p2, Some(String::from("2.2.2.2")));
    assert_eq!(record, "2.2.2.2");
}

#[test]
fn same_ip_twice_posts_once() {
    let mut record = String::new();
    let (p1, _) = run_on(http("secret", "10.0.0.1"), &mut record);
    let (p2, _) = run_on(http("secret", "10.0.0.1"), &mut record);
    assert_eq!(p1, Some(String::from("10.0.0.1")));
    assert_eq!(p2, None);
    assert_eq!(record, "10.0.0.1");
}

#[test]
fn raw_session_reads_line_across_chunks() {
    let mut s = Session::raw(String::from("secret"), Some(String::from("7.7.7.7")));
    match s.step(Event::Start) {
        Action::Receive { within_ms } => assert_eq!(within_ms, 5000),
        _ => panic!("expected a receive"),
    }
    assert_eq!(s.phase(), Phase::AwaitLine);
    match s.step(Event::Received { data: b"sec".to_vec(), elapsed_ms: 1200 }) {
        Action::Receive { within_ms } => assert_eq!(within_ms, 3800),
        _ => panic!("expected a receive"),
    }
    assert!(matches!(
        s.step(Event::Received { data: b"ret \r\nrest".to_vec(), elapsed_ms: 2000 }),
        Action::Acquire
    ));
    s.step(Event::Locked);
    match s.step(Event::ReadDone(Some(String::from("1.2.3.4")))) {
        Action::WriteStore(ip) => assert_eq!(ip, "7.7.7.7"),
        _ => panic!("expected a write"),
    }
}

#[test]
fn raw_wrong_credential_closes_silently() {
    let mut s = Session::raw(String::from("secret"), Some(String::from("7.7.7.7")));
    s.step(Event::Start);
    let (_, reply, post) =
        expect_finish(s.step(Event::Received { data: b"secrets\n".to_vec(), elapsed_ms: 10 }));
    assert_eq!(reply, None);
    assert_eq!(post, None);
    assert!(s.is_closed());
}

#[test]
fn raw_invalid_utf8_line_closes() {
    let mut s = Session::raw(String::from("secret"), Some(String::from("7.7.7.7")));
    s.step(Event::Start);
    let (_, reply, _) =
        expect_finish(s.step(Event::Received { data: vec![0xff, 0xfe, b'\n'], elapsed_ms: 10 }));
    assert_eq!(reply, None);
}

#[test]
fn raw_timeout_closes_without_reply() {
    let mut s = Session::raw(String::from("secret"), Some(String::from("7.7.7.7")));
    s.step(Event::Start);
    match s.step(Event::Quiet { elapsed_ms: 4999 }) {
        Action::Receive { within_ms } => assert_eq!(within_ms, 1),
        _ => panic!("expected a receive"),
    }
    let (_, reply, _) = expect_finish(s.step(Event::Quiet { elapsed_ms: 5000 }));
    assert_eq!(reply, None);
    assert!(s.is_closed());
}

#[test]
fn raw_late_line_is_a_timeout() {
    let mut s = Session::raw(String::from("secret"), Some(String::from("7.7.7.7")));
    s.step(Event::Start);
    let (_, reply, post) =
        expect_finish(s.step(Event::Received { data: b"secret\n".to_vec(), elapsed_ms: 5000 }));
    assert_eq!(reply, None);
    assert_eq!(post, None);
}

#[test]
fn raw_without_peer_address_closes() {
    let mut s = Session::raw(String::from("secret"), None);
    let (_, reply, _) = expect_finish(s.step(Event::Start));
    assert_eq!(reply, None);
}

#[test]
fn raw_hangup_closes() {
    let mut s = Session::raw(String::from("secret"), Some(String::from("7.7.7.7")));
    s.step(Event::Start);
    let (_, reply, _) = expect_finish(s.step(Event::Hangup));
    assert_eq!(reply, None);
}

#[test]
fn written_ip_reads_back() {
    let mut record = String::from("  ");
    let (post, _) = run_on(http("secret", "192.168.0.17"), &mut record);
    assert_eq!(post, Some(String::from("192.168.0.17")));
    assert_eq!(record, "192.168.0.17");
    assert_eq!(stored_ip(&record), "192.168.0.17");
}

#[test]
fn reply_escapes_like_debug() {
    let mut s = http("secret", "a\"b\\c");
    s.step(Event::Start);
    s.step(Event::Locked);
    s.step(Event::ReadDone(Some(String::new())));
    let (_, reply, _) = expect_finish(s.step(Event::Written(true)));
    assert_eq!(reply, Some((200, String::from("New IP \"a\\\"b\\\\c\" written"))));
}
