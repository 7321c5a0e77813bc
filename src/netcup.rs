//! Propagation of a new IP through the netcup DNS API: a login that yields a
//! session id, then one request that points the configured A records at the
//! new IP. This module writes the request bodies and judges the replies; the
//! caller sends them.

use vstd::prelude::*;

use crate::json::{json_quote, json_string, json_text_at, text_at};
use crate::text::{trim, trimmed};

verus! {

/// The API's endpoint; every request is a JSON POST to it.
pub const ENDPOINT: &'static str = "https://ccp.netcup.net/run/webservice/servers/endpoint.php?JSON";

/// Where the login reply holds the session id.
pub const SESSION_POINTER: &'static str = "/responsedata/apisessionid";

/// Where a reply holds its short status message.
pub const MESSAGE_POINTER: &'static str = "/shortmessage";

/// The short message of a successful update.
pub const CONFIRMATION: &'static str = "DNS records successful updated";

/// One A record to point at the new IP: its id at the provider and its host
/// name (`*`, `@`, ...).
pub struct DnsRecord {
    pub id: String,
    pub hostname: String,
}

/// The account and the records to update.
pub struct NetcupConfig {
    pub api_key: String,
    pub api_password: String,
    pub customer: String,
    pub domain: String,
    pub records: Vec<DnsRecord>,
}

/// What propagating an IP can end in, short of success.
pub enum PropagationError {
    /// The login request failed on its way (the transport's reason).
    LoginFailed(String),
    /// The login reply held no session id.
    NoSession { response: String },
    /// The update request failed on its way (the transport's reason).
    UpdateFailed(String),
    /// The update reply held no short message.
    NoShortMessage { response: String },
    /// The update reply's short message is not the confirmation.
    Rejected { message: String },
}

/// The body of the login request.
pub open spec fn login_body(key: Seq<char>, password: Seq<char>, customer: Seq<char>) -> Seq<
    char,
> {
    "{\"action\":\"login\",\"param\":{\"apikey\":"@ + json_string(key) + ",\"apipassword\":"@
        + json_string(password) + ",\"customernumber\":"@ + json_string(customer) + "}}"@
}

/// One record of the update request.
pub open spec fn record_body(r: DnsRecord, ip: Seq<char>) -> Seq<char> {
    "{\"id\":"@ + json_string(r.id@) + ",\"hostname\":"@ + json_string(r.hostname@)
        + ",\"type\":\"A\",\"priority\":\"0\",\"destination\":"@ + json_string(ip)
        + ",\"deleterecord\":\"FALSE\",\"state\":\"yes\"}"@
}

/// The records of the update request, comma-separated.
pub open spec fn records_body(rs: Seq<DnsRecord>, ip: Seq<char>) -> Seq<char>
    decreases rs.len(),
{
    if rs.len() == 0 {
        Seq::empty()
    } else if rs.len() == 1 {
        record_body(rs[0], ip)
    } else {
        records_body(rs.drop_last(), ip) + ","@ + record_body(rs.last(), ip)
    }
}

/// The body of the update request.
pub open spec fn update_body(c: NetcupConfig, session: Seq<char>, ip: Seq<char>) -> Seq<char> {
    "{\"action\":\"updateDnsRecords\",\"param\":{\"customernumber\":"@ + json_string(c.customer@)
        + ",\"apikey\":"@ + json_string(c.api_key@) + ",\"apisessionid\":"@ + json_string(session)
        + ",\"clientrequestid\":\"\",\"domainname\":"@ + json_string(c.domain@)
        + ",\"dnsrecordset\":{\"dnsrecords\":["@ + records_body(c.records@, ip) + "]}}}"@
}

/// The body of the login request for `c`.
pub fn login_payload(c: &NetcupConfig) -> (r: String)
    ensures
        r@ == login_body(c.api_key@, c.api_password@, c.customer@),
{
    let mut r = String::from_str("{\"action\":\"login\",\"param\":{\"apikey\":");
    r.append(json_quote(c.api_key.as_str()).as_str());
    r.append(",\"apipassword\":");
    r.append(json_quote(c.api_password.as_str()).as_str());
    r.append(",\"customernumber\":");
    r.append(json_quote(c.customer.as_str()).as_str());
    r.append("}}");
    r
}

fn record_payload(rec: &DnsRecord, ip: &str) -> (r: String)
    ensures
        r@ == record_body(*rec, ip@),
{
    let mut r = String::from_str("{\"id\":");
    r.append(json_quote(rec.id.as_str()).as_str());
    r.append(",\"hostname\":");
    r.append(json_quote(rec.hostname.as_str()).as_str());
    r.append(",\"type\":\"A\",\"priority\":\"0\",\"destination\":");
    r.append(json_quote(ip).as_str());
    r.append(",\"deleterecord\":\"FALSE\",\"state\":\"yes\"}");
    r
}

fn records_payload(rs: &Vec<DnsRecord>, ip: &str) -> (r: String)
    ensures
        r@ == records_body(rs@, ip@),
{
    let mut out = String::new();
    let mut i: usize = 0;
    while i < rs.len()
        invariant
            i <= rs@.len(),
            out@ == records_body(rs@.take(i as int), ip@),
        decreases rs@.len() - i,
    {
        let part = record_payload(&rs[i], ip);
        proof {
            let next = rs@.take(i + 1);
            assert(next.drop_last() =~= rs@.take(i as int));
            assert(next.last() == rs@[i as int]);
        }
        if i > 0 {
            out.append(",");
        } else {
            assert(rs@.take(1)[0] == rs@[0]);
        }
        out.append(part.as_str());
        i = i + 1;
    }
    assert(rs@.take(rs@.len() as int) =~= rs@);
    out
}

/// The body of the update request: `c`'s records, pointed at `ip`, under the
/// login's `session`.
pub fn update_payload(c: &NetcupConfig, session: &str, ip: &str) -> (r: String)
    ensures
        r@ == update_body(*c, session@, ip@),
{
    let mut r = String::from_str(
        "{\"action\":\"updateDnsRecords\",\"param\":{\"customernumber\":",
    );
    r.append(json_quote(c.customer.as_str()).as_str());
    r.append(",\"apikey\":");
    r.append(json_quote(c.api_key.as_str()).as_str());
    r.append(",\"apisessionid\":");
    r.append(json_quote(session).as_str());
    r.append(",\"clientrequestid\":\"\",\"domainname\":");
    r.append(json_quote(c.domain.as_str()).as_str());
    r.append(",\"dnsrecordset\":{\"dnsrecords\":[");
    r.append(records_payload(&c.records, ip).as_str());
    r.append("]}}}");
    r
}

/// The session id, given what the login reply `response` held at the
/// session id's place.
pub fn session_from_login(found: Option<String>, response: &str) -> (r: Result<
    String,
    PropagationError,
>)
    ensures
        match found {
            Some(s) => r matches Ok(t) && t@ == s@,
            None => r matches Err(PropagationError::NoSession { response: x }) && x@ == response@,
        },
{
    match found {
        Some(s) => Ok(s),
        None => Err(PropagationError::NoSession { response: String::from_str(response) }),
    }
}

/// The session id that the login reply `response` carries.
pub fn login_session(response: &str) -> (r: Result<String, PropagationError>)
    ensures
        match json_text_at(response@, SESSION_POINTER@) {
            Some(s) => r matches Ok(t) && t@ == s,
            None => r matches Err(PropagationError::NoSession { response: x }) && x@ == response@,
        },
{
    session_from_login(text_at(response, SESSION_POINTER), response)
}

/// Whether the update succeeded, given what its reply `response` held at the
/// short message's place: only the confirmation, trimmed, counts.
pub fn confirm_update(found: Option<String>, response: &str) -> (r: Result<(), PropagationError>)
    ensures
        match found {
            Some(m) => if trimmed(m@) == CONFIRMATION@ {
                r is Ok
            } else {
                r matches Err(PropagationError::Rejected { message: x }) && x@ == m@
            },
            None => r matches Err(PropagationError::NoShortMessage { response: x }) && x@
                == response@,
        },
{
    match found {
        Some(m) => {
            let t = trim(m.as_str());
            let expected = String::from_str(CONFIRMATION);
            if t == expected {
                Ok(())
            } else {
                Err(PropagationError::Rejected { message: m })
            }
        },
        None => Err(PropagationError::NoShortMessage { response: String::from_str(response) }),
    }
}

/// Whether the update reply `response` confirms the update.
pub fn update_outcome(response: &str) -> (r: Result<(), PropagationError>)
    ensures
        match json_text_at(response@, MESSAGE_POINTER@) {
            Some(m) => if trimmed(m) == CONFIRMATION@ {
                r is Ok
            } else {
                r matches Err(PropagationError::Rejected { message: x }) && x@ == m
            },
            None => r matches Err(PropagationError::NoShortMessage { response: x }) && x@
                == response@,
        },
{
    confirm_update(text_at(response, MESSAGE_POINTER), response)
}

} // verus!
