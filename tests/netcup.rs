use ddns_server::netcup::{
    confirm_update, login_payload, login_session, session_from_login, update_outcome,
    update_payload, DnsRecord, NetcupConfig, PropagationError,
};
use ddns_server::post_update::command_plan;

fn account() -> NetcupConfig {
    NetcupConfig {
        api_key: String::from("key"),
        api_password: String::from("p\"w"),
        customer: String::from("12345"),
        domain: String::from("example.org"),
        records: vec![
            DnsRecord { id: String::from("11"), hostname: String::from("*") },
            DnsRecord { id: String::from("22"), hostname: String::from("@") },
        ],
    }
}

#[test]
fn login_body_is_exact() {
    assert_eq!(
        login_payload(&account()),
        "{\"action\":\"login\",\"param\":{\"apikey\":\"key\",\"apipassword\":\"p\\\"w\",\"customernumber\":\"12345\"}}"
    );
}

#[test]
fn login_body_escapes_control_characters() {
    let mut c = account();
    c.api_key = String::from("a\\b\n\u{1}");
    let body = login_payload(&c);
    assert!(body.contains("\"apikey\":\"a\\\\b\\n\\u0001\""));
}

#[test]
fn update_body_is_exact() {
    let body = update_payload(&account(), "sess", "1.2.3.4");
    let rec = |id: &str, host: &str| {
        format!(
            "{{\"id\":\"{id}\",\"hostname\":\"{host}\",\"type\":\"A\",\"priority\":\"0\",\"destination\":\"1.2.3.4\",\"deleterecord\":\"FALSE\",\"state\":\"yes\"}}"
        )
    };
    let expected = format!(
        "{{\"action\":\"updateDnsRecords\",\"param\":{{\"customernumber\":\"12345\",\"apikey\":\"key\",\"apisessionid\":\"sess\",\"clientrequestid\":\"\",\"domainname\":\"example.org\",\"dnsrecordset\":{{\"dnsrecords\":[{},{}]}}}}}}",
        rec("11", "*"),
        rec("22", "@")
    );
    assert_eq!(body, expected);
    let parsed: serde_json::Value = serde_json::from_str(&body).unwrap();
    assert_eq!(parsed["param"]["dnsrecordset"]["dnsrecords"][1]["hostname"], "@");
}

#[test]
fn update_body_without_records() {
    let mut c = account();
    c.records.clear();
    let body = update_payload(&c, "s", "1.2.3.4");
    assert!(body.ends_with("\"dnsrecords\":[]}}}"));
}

#[test]
fn session_id_is_found() {
    let reply = "{\"status\":\"success\",\"responsedata\":{\"apisessionid\":\"abc123\"}}";
    match login_session(reply) {
        Ok(id) => assert_eq!(id, "abc123"),
        Err(_) => panic!("expected a session id"),
    }
}

#[test]
fn missing_session_id_is_an_error() {
    let reply = "{\"status\":\"error\",\"responsedata\":\"\"}";
    match login_session(reply) {
        Err(PropagationError::NoSession { response }) => assert_eq!(response, reply),
        _ => panic!("expected NoSession"),
    }
    assert!(matches!(login_session("not json"), Err(PropagationError::NoSession { .. })));
    assert!(matches!(
        session_from_login(Some(String::from("x")), "r"),
        Ok(ref id) if id == "x"
    ));
}

#[test]
fn confirmation_is_accepted_trimmed() {
    let reply = "{\"shortmessage\":\" DNS records successful updated \"}";
    assert!(update_outcome(reply).is_ok());
    assert!(confirm_update(Some(String::from("DNS records successful updated\n")), "").is_ok());
}

#[test]
fn other_message_is_rejected() {
    match update_outcome("{\"shortmessage\":\"Login failed\"}") {
        Err(PropagationError::Rejected { message }) => assert_eq!(message, "Login failed"),
        _ => panic!("expected Rejected"),
    }
}

#[test]
fn missing_message_is_an_error() {
    match update_outcome("{\"status\":\"error\"}") {
        Err(PropagationError::NoShortMessage { response }) => {
            assert_eq!(response, "{\"status\":\"error\"}")
        }
        _ => panic!("expected NoShortMessage"),
    }
    assert!(matches!(
        update_outcome("{\"shortmessage\":5}"),
        Err(PropagationError::NoShortMessage { .. })
    ));
}

#[test]
fn command_runs_in_its_own_directory() {
    let plan = command_plan("/opt/hooks/post_ip", "1.2.3.4");
    assert_eq!(plan.program, "/opt/hooks/post_ip");
    assert_eq!(plan.argument, "1.2.3.4");
    assert_eq!(plan.dir, Some(String::from("/opt/hooks")));
    assert_eq!(command_plan("post_ip", "1.2.3.4").dir, None);
}
