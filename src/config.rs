//! Validation of the server's settings at startup.

use vstd::prelude::*;

use crate::admission::DEFAULT_MAX_CONCURRENT;
use crate::netcup::{DnsRecord, NetcupConfig};
use crate::store::DEFAULT_IP_PATH;
use crate::text::{decimal_u16, opt_chars, parse_u16};

verus! {

pub const DEFAULT_PORT: u16 = 8080;

/// How clients reach the server.
#[derive(Clone, Copy, PartialEq, Eq, Structural, Debug)]
pub enum TransportKind {
    /// `POST /ip` behind a reverse proxy.
    Http,
    /// A credential line on a plain TCP connection.
    Raw,
}

/// What is done, detached, once the IP changed.
pub enum PostUpdate {
    Nothing,
    /// Run this executable with the new IP as its argument.
    Command(String),
    /// Update A records through the netcup API.
    Netcup(NetcupConfig),
}

/// The settings as found, each `None` when unset.
pub struct Settings {
    pub auth: Option<String>,
    pub port: Option<String>,
    pub ip_path: Option<String>,
    pub max_concurrent: Option<String>,
    pub transport: Option<String>,
    pub post_command: Option<String>,
    pub nc_api_key: Option<String>,
    pub nc_api_pw: Option<String>,
    pub nc_customer: Option<String>,
    pub nc_domain: Option<String>,
    pub nc_star_id: Option<String>,
    pub nc_at_id: Option<String>,
}

/// The validated configuration.
pub struct ServerConfig {
    pub secret: String,
    pub port: u16,
    pub ip_path: String,
    pub max_concurrent: u32,
    pub transport: TransportKind,
    pub post_update: PostUpdate,
}

/// A setting that is missing (`value` is `None`) or holds an invalid value.
pub struct ConfigError {
    pub name: String,
    pub value: Option<String>,
}

/// The port that the setting gives, `None` if it is invalid.
pub open spec fn port_of(v: Option<Seq<char>>) -> Option<u16> {
    match v {
        None => Some(DEFAULT_PORT),
        Some(x) => decimal_u16(x),
    }
}

/// The connection limit that the setting gives, `None` if it is invalid.
pub open spec fn limit_of(v: Option<Seq<char>>) -> Option<u32> {
    match v {
        None => Some(DEFAULT_MAX_CONCURRENT),
        Some(x) => match decimal_u16(x) {
            Some(n) => if n > 0 {
                Some(n as u32)
            } else {
                None
            },
            None => None,
        },
    }
}

/// The transport that the setting names, `None` if it names none.
pub open spec fn transport_of(v: Option<Seq<char>>) -> Option<TransportKind> {
    match v {
        None => Some(TransportKind::Http),
        Some(x) => if x == "http"@ {
            Some(TransportKind::Http)
        } else if x == "raw"@ {
            Some(TransportKind::Raw)
        } else {
            None
        },
    }
}

/// The first missing netcup setting, once `NC_API_KEY` is set.
pub open spec fn netcup_gap(s: Settings) -> Option<Seq<char>> {
    if s.nc_api_pw is None {
        Some("NC_API_PW"@)
    } else if s.nc_customer is None {
        Some("NC_CUS_ID"@)
    } else if s.nc_domain is None {
        Some("NC_DOMAIN_NAME"@)
    } else if s.nc_star_id is None {
        Some("NC_STAR_ID"@)
    } else if s.nc_at_id is None {
        Some("NC_AT_ID"@)
    } else {
        None
    }
}

/// The first problem of the settings, as the setting's name and value, in
/// the order AUTH, PORT, MAX_CONCURRENT, TRANSPORT, then the netcup settings
/// if `NC_API_KEY` is set.
pub open spec fn problem(s: Settings) -> Option<(Seq<char>, Option<Seq<char>>)> {
    if s.auth is None {
        Some(("AUTH"@, None))
    } else if port_of(opt_chars(s.port)) is None {
        Some(("PORT"@, opt_chars(s.port)))
    } else if limit_of(opt_chars(s.max_concurrent)) is None {
        Some(("MAX_CONCURRENT"@, opt_chars(s.max_concurrent)))
    } else if transport_of(opt_chars(s.transport)) is None {
        Some(("TRANSPORT"@, opt_chars(s.transport)))
    } else if s.nc_api_key is Some && netcup_gap(s) is Some {
        Some((netcup_gap(s)->0, None))
    } else {
        None
    }
}

/// `p` is the post-update action that valid settings `s` choose: netcup
/// when `NC_API_KEY` is set, else the command of `POST_IP_PATH` if set.
pub open spec fn chosen_post_update(s: Settings, p: PostUpdate) -> bool {
    if s.nc_api_key is Some {
        p matches PostUpdate::Netcup(c) && c.api_key@ == s.nc_api_key->0@ && c.api_password@
            == s.nc_api_pw->0@ && c.customer@ == s.nc_customer->0@ && c.domain@
            == s.nc_domain->0@ && c.records@.len() == 2 && c.records@[0].id@
            == s.nc_star_id->0@ && c.records@[0].hostname@ == "*"@ && c.records@[1].id@
            == s.nc_at_id->0@ && c.records@[1].hostname@ == "@"@
    } else if s.post_command is Some {
        p matches PostUpdate::Command(cmd) && cmd@ == s.post_command->0@
    } else {
        p is Nothing
    }
}

/// `c` is what valid settings `s` configure.
pub open spec fn configured(s: Settings, c: ServerConfig) -> bool {
    &&& c.secret@ == s.auth->0@
    &&& port_of(opt_chars(s.port)) == Some(c.port)
    &&& c.ip_path@ == match s.ip_path {
        Some(p) => p@,
        None => DEFAULT_IP_PATH@,
    }
    &&& limit_of(opt_chars(s.max_concurrent)) == Some(c.max_concurrent)
    &&& transport_of(opt_chars(s.transport)) == Some(c.transport)
    &&& chosen_post_update(s, c.post_update)
}

fn missing(name: &str) -> (e: ConfigError)
    ensures
        e.name@ == name@,
        e.value is None,
{
    ConfigError { name: String::from_str(name), value: None }
}

fn invalid(name: &str, value: &String) -> (e: ConfigError)
    ensures
        e.name@ == name@,
        opt_chars(e.value) == Some(value@),
{
    ConfigError { name: String::from_str(name), value: Some(value.clone()) }
}

/// The port setting: 8080 when unset.
pub fn port_setting(v: &Option<String>) -> (r: Result<u16, ConfigError>)
    ensures
        match port_of(opt_chars(*v)) {
            Some(n) => r == Ok::<u16, ConfigError>(n),
            None => r matches Err(e) && e.name@ == "PORT"@ && opt_chars(e.value) == opt_chars(*v),
        },
{
    match v {
        None => Ok(DEFAULT_PORT),
        Some(x) => match parse_u16(x.as_str()) {
            Some(n) => Ok(n),
            None => Err(invalid("PORT", x)),
        },
    }
}

/// The connection limit setting: 5 when unset, at least 1.
pub fn limit_setting(v: &Option<String>) -> (r: Result<u32, ConfigError>)
    ensures
        match limit_of(opt_chars(*v)) {
            Some(n) => r == Ok::<u32, ConfigError>(n),
            None => r matches Err(e) && e.name@ == "MAX_CONCURRENT"@ && opt_chars(e.value)
                == opt_chars(*v),
        },
{
    match v {
        None => Ok(DEFAULT_MAX_CONCURRENT),
        Some(x) => match parse_u16(x.as_str()) {
            Some(n) => {
                if n > 0 {
                    Ok(n as u32)
                } else {
                    Err(invalid("MAX_CONCURRENT", x))
                }
            },
            None => Err(invalid("MAX_CONCURRENT", x)),
        },
    }
}

/// The transport setting: `http` (the default) or `raw`.
pub fn transport_setting(v: &Option<String>) -> (r: Result<TransportKind, ConfigError>)
    ensures
        match transport_of(opt_chars(*v)) {
            Some(t) => r == Ok::<TransportKind, ConfigError>(t),
            None => r matches Err(e) && e.name@ == "TRANSPORT"@ && opt_chars(e.value)
                == opt_chars(*v),
        },
{
    match v {
        None => Ok(TransportKind::Http),
        Some(x) => {
            let http = String::from_str("http");
            let raw = String::from_str("raw");
            if *x == http {
                Ok(TransportKind::Http)
            } else if *x == raw {
                Ok(TransportKind::Raw)
            } else {
                Err(invalid("TRANSPORT", x))
            }
        },
    }
}

fn netcup_setting(s: &Settings, key: String) -> (r: Result<NetcupConfig, ConfigError>)
    ensures
        match netcup_gap(*s) {
            Some(n) => r matches Err(e) && e.name@ == n && e.value is None,
            None => r matches Ok(c) && c.api_key@ == key@ && c.api_password@ == s.nc_api_pw->0@
                && c.customer@ == s.nc_customer->0@ && c.domain@ == s.nc_domain->0@
                && c.records@.len() == 2 && c.records@[0].id@ == s.nc_star_id->0@
                && c.records@[0].hostname@ == "*"@ && c.records@[1].id@ == s.nc_at_id->0@
                && c.records@[1].hostname@ == "@"@,
        },
{
    let api_password = match &s.nc_api_pw {
        Some(v) => v.clone(),
        None => return Err(missing("NC_API_PW")),
    };
    let customer = match &s.nc_customer {
        Some(v) => v.clone(),
        None => return Err(missing("NC_CUS_ID")),
    };
    let domain = match &s.nc_domain {
        Some(v) => v.clone(),
        None => return Err(missing("NC_DOMAIN_NAME")),
    };
    let star = match &s.nc_star_id {
        Some(v) => v.clone(),
        None => return Err(missing("NC_STAR_ID")),
    };
    let at = match &s.nc_at_id {
        Some(v) => v.clone(),
        None => return Err(missing("NC_AT_ID")),
    };
    let mut records: Vec<DnsRecord> = Vec::new();
    records.push(DnsRecord { id: star, hostname: String::from_str("*") });
    records.push(DnsRecord { id: at, hostname: String::from_str("@") });
    Ok(NetcupConfig { api_key: key, api_password, customer, domain, records })
}

impl ServerConfig {
    /// Validates the settings: the configuration they give, or their first
    /// problem.
    pub fn from_settings(s: &Settings) -> (r: Result<ServerConfig, ConfigError>)
        ensures
            match problem(*s) {
                Some((name, value)) => r matches Err(e) && e.name@ == name && opt_chars(e.value)
                    == value,
                None => r matches Ok(c) && configured(*s, c),
            },
    {
        let secret = match &s.auth {
            Some(a) => a.clone(),
            None => return Err(missing("AUTH")),
        };
        let port = match port_setting(&s.port) {
            Ok(p) => p,
            Err(e) => return Err(e),
        };
        let max_concurrent = match limit_setting(&s.max_concurrent) {
            Ok(n) => n,
            Err(e) => return Err(e),
        };
        let transport = match transport_setting(&s.transport) {
            Ok(t) => t,
            Err(e) => return Err(e),
        };
        let post_update = match &s.nc_api_key {
            Some(key) => match netcup_setting(s, key.clone()) {
                Ok(c) => PostUpdate::Netcup(c),
                Err(e) => return Err(e),
            },
            None => match &s.post_command {
                Some(cmd) => PostUpdate::Command(cmd.clone()),
                None => PostUpdate::Nothing,
            },
        };
        let ip_path = match &s.ip_path {
            Some(p) => p.clone(),
            None => String::from_str(DEFAULT_IP_PATH),
        };
        Ok(ServerConfig { secret, port, ip_path, max_concurrent, transport, post_update })
    }
}

} // verus!
