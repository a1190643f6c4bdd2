use vstd::prelude::*;
use vstd::string::StringExecFns;
use crate::strutil::{dec_digits, u16_to_string};

verus! {

/// The default PostgreSQL server port, applied when none is configured.
pub const DEFAULT_POSTGRES_PORT: u16 = 5432;

/// The configuration fields the persistence core consumes, as plain
/// values. The caller owns the full configuration object; the core never
/// keeps its own copy of the credential fields beyond a single call.
pub struct DbConfig {
    pub dbip: Option<String>,
    pub dbport: Option<u16>,
    pub dbuser: String,
    pub dbpassword: String,
    pub dbname: String,
    pub db_type: String,
    pub time: u8,
    pub create_table: bool,
}

/// How the blocking backend reaches its server: an explicit host, or the
/// well-known local socket when no host is configured.
pub enum MysqlTransport {
    Tcp(String),
    Socket(String),
}

/// Resolved session parameters for the blocking backend.
pub struct MysqlConnParams {
    pub transport: MysqlTransport,
    pub port: Option<u16>,
    pub read_timeout_secs: u64,
    pub user: String,
    pub password: String,
    pub dbname: String,
}

/// Resolves the blocking backend's session parameters from configuration:
/// TCP to the configured host when one is given, otherwise the local
/// socket; the configured port only as an explicit override; and the
/// configured per-call timeout in whole seconds.
pub fn mysql_conn_params(cfg: &DbConfig) -> (p: MysqlConnParams)
    ensures
        cfg.dbip matches Some(ip) ==> (p.transport matches MysqlTransport::Tcp(h) && h@ == ip@),
        cfg.dbip is None ==> (p.transport matches MysqlTransport::Socket(path) && path@
            == "/run/mysqld/mysqld.sock"@),
        p.port == cfg.dbport,
        p.read_timeout_secs == cfg.time as u64,
        p.user@ == cfg.dbuser@,
        p.password@ == cfg.dbpassword@,
        p.dbname@ == cfg.dbname@,
{
    let transport = match &cfg.dbip {
        Some(ip) => MysqlTransport::Tcp(ip.clone()),
        None => MysqlTransport::Socket(String::from_str("/run/mysqld/mysqld.sock")),
    };
    MysqlConnParams {
        transport,
        port: cfg.dbport,
        read_timeout_secs: cfg.time as u64,
        user: cfg.dbuser.clone(),
        password: cfg.dbpassword.clone(),
        dbname: cfg.dbname.clone(),
    }
}

/// Resolved session parameters for the bridged backend.
pub struct PostgresConnParams {
    pub host: String,
    pub port: u16,
    pub user: String,
    pub password: String,
    pub dbname: String,
}

/// Resolves the bridged backend's session parameters from configuration:
/// the configured host or the loopback default, and the configured port or
/// the backend's standard port.
pub fn postgres_conn_params(cfg: &DbConfig) -> (p: PostgresConnParams)
    ensures
        cfg.dbip matches Some(ip) ==> p.host@ == ip@,
        cfg.dbip is None ==> p.host@ == "localhost"@,
        p.port == (match cfg.dbport {
            Some(pt) => pt,
            None => DEFAULT_POSTGRES_PORT,
        }),
        p.user@ == cfg.dbuser@,
        p.password@ == cfg.dbpassword@,
        p.dbname@ == cfg.dbname@,
{
    let host = match &cfg.dbip {
        Some(ip) => ip.clone(),
        None => String::from_str("localhost"),
    };
    let port = match cfg.dbport {
        Some(pt) => pt,
        None => DEFAULT_POSTGRES_PORT,
    };
    PostgresConnParams {
        host,
        port,
        user: cfg.dbuser.clone(),
        password: cfg.dbpassword.clone(),
        dbname: cfg.dbname.clone(),
    }
}

/// The exact key=value connection string the bridged backend hands to its
/// client for the given resolved parameters.
pub open spec fn spec_postgres_conn_string(p: PostgresConnParams) -> Seq<char> {
    "host="@ + p.host@ + " port="@ + dec_digits(p.port as int) + " user="@ + p.user@
        + " password="@ + p.password@ + " dbname="@ + p.dbname@
}

/// Builds the bridged backend's connection string from resolved parameters.
pub fn postgres_conn_string(p: &PostgresConnParams) -> (s: String)
    ensures
        s@ == spec_postgres_conn_string(*p),
{
    let mut s = String::from_str("host=");
    s.append(p.host.as_str());
    s.append(" port=");
    let port = u16_to_string(p.port);
    s.append(port.as_str());
    s.append(" user=");
    s.append(p.user.as_str());
    s.append(" password=");
    s.append(p.password.as_str());
    s.append(" dbname=");
    s.append(p.dbname.as_str());
    proof {
        assert(s@ =~= spec_postgres_conn_string(*p));
    }
    s
}

} // verus!
