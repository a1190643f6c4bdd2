use cert_status::conn::{
    mysql_conn_params, postgres_conn_params, postgres_conn_string, DbConfig, MysqlTransport,
    DEFAULT_POSTGRES_PORT,
};
use cert_status::selector::DatabaseType;
use cert_status::strutil::{eq_ignore_ascii_case, str_eq, u16_to_string};
use cert_status::timestamp::Timestamp;

fn config(dbip: Option<&str>, dbport: Option<u16>, db_type: &str) -> DbConfig {
    DbConfig {
        dbip: dbip.map(|s| s.to_string()),
        dbport,
        dbuser: "scott".to_string(),
        dbpassword: "tiger".to_string(),
        dbname: "certs".to_string(),
        db_type: db_type.to_string(),
        time: 5,
        create_table: false,
    }
}

#[test]
fn selector_matches_postgres_synonyms_case_insensitively() {
    assert_eq!(DatabaseType::from_string("postgres"), DatabaseType::PostgreSQL);
    assert_eq!(DatabaseType::from_string("postgresql"), DatabaseType::PostgreSQL);
    assert_eq!(DatabaseType::from_string("POSTGRES"), DatabaseType::PostgreSQL);
    assert_eq!(DatabaseType::from_string("PostgreSQL"), DatabaseType::PostgreSQL);
}

#[test]
fn selector_defaults_to_mysql() {
    assert_eq!(DatabaseType::from_string("mysql"), DatabaseType::MySQL);
    assert_eq!(DatabaseType::from_string("MySQL"), DatabaseType::MySQL);
    assert_eq!(DatabaseType::from_string(""), DatabaseType::MySQL);
    assert_eq!(DatabaseType::from_string("postgresx"), DatabaseType::MySQL);
    assert_eq!(DatabaseType::from_string("sqlite"), DatabaseType::MySQL);
}

#[test]
fn mysql_params_use_tcp_when_host_is_configured() {
    let cfg = config(Some("db.example.org"), Some(3307), "mysql");
    let p = mysql_conn_params(&cfg);
    match p.transport {
        MysqlTransport::Tcp(host) => assert_eq!(host, "db.example.org"),
        MysqlTransport::Socket(_) => panic!("expected TCP transport"),
    }
    assert_eq!(p.port, Some(3307));
    assert_eq!(p.read_timeout_secs, 5);
    assert_eq!(p.user, "scott");
    assert_eq!(p.password, "tiger");
    assert_eq!(p.dbname, "certs");
}

#[test]
fn mysql_params_use_local_socket_when_no_host_is_configured() {
    let cfg = config(None, None, "mysql");
    let p = mysql_conn_params(&cfg);
    match p.transport {
        MysqlTransport::Socket(path) => assert_eq!(path, "/run/mysqld/mysqld.sock"),
        MysqlTransport::Tcp(_) => panic!("expected socket transport"),
    }
    assert_eq!(p.port, None);
}

#[test]
fn postgres_params_default_host_and_port() {
    let cfg = config(None, None, "postgres");
    let p = postgres_conn_params(&cfg);
    assert_eq!(p.host, "localhost");
    assert_eq!(p.port, DEFAULT_POSTGRES_PORT);
    assert_eq!(p.port, 5432);
}

#[test]
fn postgres_params_use_configured_host_and_port() {
    let cfg = config(Some("10.0.0.7"), Some(6000), "postgres");
    let p = postgres_conn_params(&cfg);
    assert_eq!(p.host, "10.0.0.7");
    assert_eq!(p.port, 6000);
}

#[test]
fn postgres_conn_string_is_exact() {
    let cfg = config(None, None, "postgres");
    let p = postgres_conn_params(&cfg);
    let s = postgres_conn_string(&p);
    assert_eq!(s, "host=localhost port=5432 user=scott password=tiger dbname=certs");
}

#[test]
fn u16_renders_in_decimal() {
    assert_eq!(u16_to_string(0), "0");
    assert_eq!(u16_to_string(7), "7");
    assert_eq!(u16_to_string(5432), "5432");
    assert_eq!(u16_to_string(9000), "9000");
    assert_eq!(u16_to_string(65535), "65535");
}

#[test]
fn string_equality_is_exact() {
    assert!(str_eq("Revoked", "Revoked"));
    assert!(!str_eq("Revoked", "revoked"));
    assert!(!str_eq("Revoked", "Revoked "));
    assert!(str_eq("", ""));
    assert!(str_eq("héllo", "héllo"));
    assert!(!str_eq("héllo", "hello"));
}

#[test]
fn case_insensitive_equality_folds_ascii_only() {
    assert!(eq_ignore_ascii_case("POSTGRES", "postgres"));
    assert!(eq_ignore_ascii_case("PoStGrEs", "postgres"));
    assert!(!eq_ignore_ascii_case("postgres", "postgresql"));
    assert!(eq_ignore_ascii_case("", ""));
}

#[test]
fn timestamp_wellformedness_follows_the_calendar() {
    let base = Timestamp { year: 2023, month: 5, day: 1, hour: 12, minute: 0, second: 0 };
    assert!(base.is_well_formed());
    assert!(Timestamp { year: 2000, month: 2, day: 29, ..base }.is_well_formed());
    assert!(Timestamp { year: 2024, month: 2, day: 29, ..base }.is_well_formed());
    assert!(!Timestamp { year: 1900, month: 2, day: 29, ..base }.is_well_formed());
    assert!(!Timestamp { year: 2023, month: 2, day: 29, ..base }.is_well_formed());
    assert!(!Timestamp { month: 13, ..base }.is_well_formed());
    assert!(!Timestamp { month: 0, ..base }.is_well_formed());
    assert!(!Timestamp { day: 32, ..base }.is_well_formed());
    assert!(!Timestamp { day: 0, ..base }.is_well_formed());
    assert!(!Timestamp { hour: 24, ..base }.is_well_formed());
    assert!(!Timestamp { minute: 60, ..base }.is_well_formed());
    assert!(!Timestamp { second: 60, ..base }.is_well_formed());
    assert!(Timestamp { year: 262142, ..base }.is_well_formed());
    assert!(!Timestamp { year: 262143, ..base }.is_well_formed());
    assert!(Timestamp { year: -262143, ..base }.is_well_formed());
    assert!(!Timestamp { year: -262144, ..base }.is_well_formed());
    assert!(Timestamp { year: 2023, month: 4, day: 30, ..base }.is_well_formed());
    assert!(!Timestamp { year: 2023, month: 4, day: 31, ..base }.is_well_formed());
}
