use crdb_harness::pg_config::{
    client_config, client_url, find_settings_error, make_pg_config, try_make_pg_config, Host,
    ParseError, PgConfigError, PgServer, PgSession, PgSettings, SslMode, DEFAULT_KEEPALIVES_IDLE,
};

fn settings() -> PgSettings {
    PgSettings {
        session: PgSession {
            user: Some(String::from("root")),
            password: None,
            dbname: Some(String::from("defaultdb")),
            options: None,
            application_name: None,
            connect_timeout: None,
            keepalives: true,
            keepalives_idle: DEFAULT_KEEPALIVES_IDLE,
        },
        server: PgServer {
            ssl_mode: SslMode::Disable,
            hosts: vec![Host::Tcp(String::from("::1"))],
            ports: vec![45913],
        },
    }
}

fn error_of(listen_url: &str) -> PgConfigError {
    try_make_pg_config(listen_url)
        .expect("ports and hosts differ")
        .unwrap_err()
}

#[test]
fn test_make_pg_config_fail() {
    // failure to parse initial listen URL
    let error = make_pg_config("").unwrap_err().to_string();
    println!("found error: {}", error);
    assert!(error.contains("unsupported PostgreSQL listen URL"));

    // unexpected contents in initial listen URL (wrong db name)
    let error = make_pg_config("postgresql://root@[::1]:45913/foobar?sslmode=disable")
        .unwrap_err()
        .to_string();
    println!("found error: {}", error);
    assert!(error.contains(
        "unsupported PostgreSQL listen URL \
        (unexpected database name other than \"defaultdb\"): "
    ));

    // unexpected contents in initial listen URL (extra param)
    let error = make_pg_config("postgresql://root@[::1]:45913/foobar?application_name=foo")
        .unwrap_err()
        .to_string();
    println!("found error: {}", error);
    assert!(error.contains(
        "unsupported PostgreSQL listen URL \
        (did not expect any of these fields: application_name)"
    ));
}

#[test]
fn reported_url_leads_to_test_database() {
    let config = make_pg_config("postgresql://root@[::1]:45913/defaultdb?sslmode=disable").unwrap();
    assert_eq!(
        config.url,
        "postgresql://root@[::1]:45913/test?sslmode=disable"
    );
    assert_eq!(config.parsed.session.user, Some(String::from("root")));
    assert_eq!(config.parsed.session.dbname, Some(String::from("test")));
    assert_eq!(config.parsed.server.hosts, vec![Host::Tcp(String::from("::1"))]);
    assert_eq!(config.parsed.server.ports, vec![45913]);
    assert_eq!(config.parsed.server.ssl_mode, SslMode::Disable);
    assert!(config.parsed.session.keepalives);
    assert_eq!(config.parsed.session.keepalives_idle, DEFAULT_KEEPALIVES_IDLE);
    assert_eq!(config.parsed.session.password, None);
    assert_eq!(config.parsed.session.options, None);
    assert_eq!(config.parsed.session.application_name, None);
    assert_eq!(config.parsed.session.connect_timeout, None);
}

#[test]
fn other_user_and_host_keep_host_and_port() {
    let url = "postgresql://somebody@[db.example]:1/defaultdb?sslmode=disable";
    let config = try_make_pg_config(url).unwrap().unwrap();
    assert_eq!(
        config.url,
        "postgresql://root@[db.example]:1/test?sslmode=disable"
    );
}

#[test]
fn missing_database_name_is_accepted() {
    let config = make_pg_config("postgresql://root@[::1]:26257?sslmode=disable").unwrap();
    assert_eq!(
        config.url,
        "postgresql://root@[::1]:26257/test?sslmode=disable"
    );
}

#[test]
fn host_without_brackets_is_kept() {
    let config = make_pg_config("postgresql://127.0.0.1:26257/defaultdb?sslmode=disable").unwrap();
    assert_eq!(
        config.url,
        "postgresql://root@[127.0.0.1]:26257/test?sslmode=disable"
    );
    assert_eq!(
        config.parsed.server.hosts,
        vec![Host::Tcp(String::from("127.0.0.1"))]
    );
    assert_eq!(config.parsed.server.ports, vec![26257]);
}

#[test]
fn parsed_configuration_is_that_of_the_client_library() {
    let config = make_pg_config("postgresql://root@[::1]:45913/defaultdb?sslmode=disable").unwrap();
    let parsed: tokio_postgres::Config = config.url.parse().unwrap();
    assert_eq!(parsed.get_user(), Some("root"));
    assert_eq!(parsed.get_dbname(), Some("test"));
    assert_eq!(parsed.get_ports(), &[45913]);
    assert_eq!(
        parsed.get_hosts(),
        &[tokio_postgres::config::Host::Tcp(String::from("::1"))]
    );
}

#[test]
fn unparsable_url_has_a_source() {
    let url = "postgresql://root@[::1:45913/defaultdb";
    let error = error_of(url);
    assert!(matches!(error, PgConfigError::Parse { .. }));
    assert_eq!(
        error.to_string(),
        "parse PostgreSQL config: \"postgresql://root@[::1:45913/defaultdb\""
    );
    let parsed = url.parse::<tokio_postgres::Config>().unwrap_err();
    let source = error.parse_error().unwrap();
    assert_eq!(source.text, parsed.to_string());
    assert_eq!(
        source.cause,
        parsed.into_source().map(|cause| cause.to_string())
    );
    assert_eq!(source.cause, Some(String::from("invalid value for option `host`")));
}

#[test]
fn unsupported_fields_are_listed_in_order() {
    let url = "postgresql://root:secret@[::1]:1/other?options=x&connect_timeout=5&application_name=a";
    let error = error_of(url);
    assert_eq!(
        error.to_string(),
        format!(
            "unsupported PostgreSQL listen URL (did not expect any of these fields: \
            application_name, connect_timeout, options, password): {:?}",
            url
        )
    );
    assert_eq!(error.parse_error(), None);
}

#[test]
fn keepalives_must_be_on() {
    let url = "postgresql://root@[::1]:1/defaultdb?sslmode=disable&keepalives=0";
    let error = error_of(url);
    assert!(matches!(error, PgConfigError::KeepalivesDisabled { .. }));
    assert_eq!(
        error.to_string(),
        format!(
            "unsupported PostgreSQL listen URL (keepalives disabled): {:?}",
            url
        )
    );
}

#[test]
fn keepalive_idle_time_must_be_the_default() {
    let url = "postgresql://root@[::1]:1/defaultdb?sslmode=disable&keepalives_idle=60";
    let error = error_of(url);
    assert!(matches!(error, PgConfigError::KeepalivesIdle { .. }));
    assert_eq!(
        error.to_string(),
        format!(
            "unsupported PostgreSQL listen URL (keepalive idle time): {:?}",
            url
        )
    );
    // Two hours spelled out are the default.
    let url = "postgresql://root@[::1]:1/defaultdb?sslmode=disable&keepalives_idle=7200";
    assert!(try_make_pg_config(url).unwrap().is_ok());
}

#[test]
fn tls_must_be_off() {
    for url in [
        "postgresql://root@[::1]:1/defaultdb",
        "postgresql://root@[::1]:1/defaultdb?sslmode=prefer",
        "postgresql://root@[::1]:1/defaultdb?sslmode=require",
    ] {
        let error = error_of(url);
        assert!(matches!(error, PgConfigError::SslMode { .. }));
        assert_eq!(
            error.to_string(),
            format!("unsupported PostgreSQL listen URL (ssl mode): {:?}", url)
        );
    }
}

#[test]
fn there_must_be_one_host() {
    let url = "postgresql://root@a:1,b:2/defaultdb?sslmode=disable";
    let error = error_of(url);
    assert!(matches!(error, PgConfigError::HostCount { .. }));
    assert_eq!(
        error.to_string(),
        format!(
            "unsupported PostgresQL listen URL (expected exactly one host): {:?}",
            url
        )
    );
    let error = error_of("postgresql://?sslmode=disable");
    assert!(matches!(error, PgConfigError::HostCount { .. }));
}

#[test]
fn the_host_must_not_be_a_socket() {
    let url = "postgresql://root@%2Frun:1/defaultdb?sslmode=disable";
    let error = error_of(url);
    assert!(matches!(error, PgConfigError::NotTcp { .. }));
    assert_eq!(
        error.to_string(),
        format!("unsupported PostsgreSQL listen URL (not TCP): {:?}", url)
    );
}

#[test]
fn ports_without_hosts_are_set_apart() {
    assert!(try_make_pg_config("sslmode=disable port=1,2 host=a").is_none());
    // An earlier reason hides the difference.
    assert!(try_make_pg_config("port=1,2 host=a").is_some());
}

#[test]
fn settings_errors_come_in_order() {
    let url = "any";
    assert_eq!(find_settings_error(url, &settings()), None);

    let mut given = settings();
    given.server.ssl_mode = SslMode::Other;
    assert_eq!(
        find_settings_error(url, &given),
        Some(PgConfigError::SslMode {
            listen_url: String::from(url)
        })
    );
    given.session.keepalives_idle = 1;
    assert!(matches!(
        find_settings_error(url, &given),
        Some(PgConfigError::KeepalivesIdle { .. })
    ));
    given.session.keepalives = false;
    assert!(matches!(
        find_settings_error(url, &given),
        Some(PgConfigError::KeepalivesDisabled { .. })
    ));
    given.session.dbname = Some(String::from("test"));
    assert!(matches!(
        find_settings_error(url, &given),
        Some(PgConfigError::UnexpectedDatabase { .. })
    ));
    given.session.password = Some(vec![1]);
    assert_eq!(
        find_settings_error(url, &given),
        Some(PgConfigError::UnsupportedFields {
            fields: vec![String::from("password")],
            listen_url: String::from(url)
        })
    );
}

#[test]
fn client_url_is_written_from_settings() {
    assert_eq!(
        client_url("any", &settings()),
        Ok(String::from(
            "postgresql://root@[::1]:45913/test?sslmode=disable"
        ))
    );
    let mut given = settings();
    given.server.hosts = vec![Host::Unix];
    assert!(matches!(
        client_url("any", &given),
        Err(PgConfigError::NotTcp { .. })
    ));
}

#[test]
fn unparsable_client_url_is_reported() {
    let why = |cause: Option<&str>| ParseError {
        text: String::from("why"),
        cause: cause.map(String::from),
    };
    let error = client_config(String::from("u"), Err(why(Some("that")))).unwrap_err();
    assert_eq!(
        error.to_string(),
        "parse modified PostgreSQL config \"u\""
    );
    assert_eq!(error.parse_error(), Some(&why(Some("that"))));
    let config = client_config(String::from("u"), Ok(settings())).unwrap();
    assert_eq!(config.url, "u");
    assert_eq!(config.parsed, settings());
}

#[test]
fn host_that_breaks_the_client_url_is_reported() {
    // The host is decoded to one that cannot stand in brackets.
    let url = "postgresql://root@a%5Db:1/defaultdb?sslmode=disable";
    let error = error_of(url);
    assert!(matches!(error, PgConfigError::ParseModified { .. }));
    assert_eq!(
        error.to_string(),
        "parse modified PostgreSQL config \"postgresql://root@[a]b]:1/test?sslmode=disable\""
    );
}
