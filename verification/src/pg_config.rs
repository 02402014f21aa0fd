//! From the listen URL that CockroachDB reports to the settings with which a
//! SQL client connects to it.

use crate::text::{decimal, decimal_text, debug_quoted, join, joined, quote, same_text};
use std::str::FromStr;
use tokio_postgres::config as client;
use tokio_postgres::Config;
use vstd::prelude::*;
use vstd::string::*;

verus! {

/// How a connection uses TLS.
#[derive(Clone, Copy, Debug, PartialEq, Eq, Structural)]
pub enum SslMode {
    Disable,
    Prefer,
    Require,
    /// A mode that a later version of the client library may add.
    Other,
}

/// A host that a connection may go to.
#[derive(Debug, PartialEq, Eq)]
pub enum Host {
    /// A host name or an address.
    Tcp(String),
    /// A directory that holds a Unix socket.
    Unix,
}

/// A host, by its text.
pub enum HostView {
    Tcp(Seq<char>),
    Unix,
}

impl DeepView for Host {
    type V = HostView;

    open spec fn deep_view(&self) -> HostView {
        match self {
            Host::Tcp(name) => HostView::Tcp(name@),
            Host::Unix => HostView::Unix,
        }
    }
}

/// What a PostgreSQL client configuration says of the session. Times are in
/// nanoseconds.
#[derive(Debug, PartialEq, Eq)]
pub struct PgSession {
    pub user: Option<String>,
    pub password: Option<Vec<u8>>,
    pub dbname: Option<String>,
    pub options: Option<String>,
    pub application_name: Option<String>,
    pub connect_timeout: Option<u128>,
    pub keepalives: bool,
    pub keepalives_idle: u128,
}

/// What a PostgreSQL client configuration says of the server.
#[derive(Debug, PartialEq, Eq)]
pub struct PgServer {
    pub ssl_mode: SslMode,
    pub hosts: Vec<Host>,
    pub ports: Vec<u16>,
}

/// What the harness reads of a PostgreSQL client configuration.
#[derive(Debug, PartialEq, Eq)]
pub struct PgSettings {
    pub session: PgSession,
    pub server: PgServer,
}

/// What is said of the session, by its texts.
#[verifier::ext_equal]
pub struct PgSessionView {
    pub user: Option<Seq<char>>,
    pub password: Option<Seq<u8>>,
    pub dbname: Option<Seq<char>>,
    pub options: Option<Seq<char>>,
    pub application_name: Option<Seq<char>>,
    pub connect_timeout: Option<u128>,
    pub keepalives: bool,
    pub keepalives_idle: u128,
}

/// What is said of the server, by its texts.
#[verifier::ext_equal]
pub struct PgServerView {
    pub ssl_mode: SslMode,
    pub hosts: Seq<HostView>,
    pub ports: Seq<u16>,
}

/// The settings, by their texts.
#[verifier::ext_equal]
pub struct PgSettingsView {
    pub session: PgSessionView,
    pub server: PgServerView,
}

impl View for PgSession {
    type V = PgSessionView;

    open spec fn view(&self) -> PgSessionView {
        PgSessionView {
            user: self.user.deep_view(),
            password: self.password.deep_view(),
            dbname: self.dbname.deep_view(),
            options: self.options.deep_view(),
            application_name: self.application_name.deep_view(),
            connect_timeout: self.connect_timeout,
            keepalives: self.keepalives,
            keepalives_idle: self.keepalives_idle,
        }
    }
}

impl View for PgServer {
    type V = PgServerView;

    open spec fn view(&self) -> PgServerView {
        PgServerView {
            ssl_mode: self.ssl_mode,
            hosts: self.hosts.deep_view(),
            ports: self.ports@,
        }
    }
}

impl View for PgSettings {
    type V = PgSettingsView;

    open spec fn view(&self) -> PgSettingsView {
        PgSettingsView { session: self.session@, server: self.server@ }
    }
}

/// Two hours, the idle time after which keepalives start unless one is set.
pub const DEFAULT_KEEPALIVES_IDLE: u128 = 7_200_000_000_000;

/// The URL of a database on a host, with TLS switched off.
pub open spec fn database_url(
    user: Seq<char>,
    host: Seq<char>,
    port: u16,
    dbname: Seq<char>,
) -> Seq<char> {
    "postgresql://"@ + user + "@["@ + host + "]:"@ + decimal(port as nat) + "/"@ + dbname
        + "?sslmode=disable"@
}

/// Whether the parts of a URL stand for themselves: none of them holds a
/// character that ends it or that is decoded.
pub open spec fn plain_parts(user: Seq<char>, host: Seq<char>, dbname: Seq<char>) -> bool {
    &&& !user.contains('@') && !user.contains(':') && !user.contains('%')
    &&& !host.contains('/') && !host.contains('?') && !host.contains(',') && !host.contains(']')
        && !host.contains('%')
    &&& dbname.len() > 0 && !dbname.contains('?') && !dbname.contains('%')
}

/// The settings that the URL of a database on a host spells out.
pub open spec fn database_settings(
    user: Seq<char>,
    host: Seq<char>,
    port: u16,
    dbname: Seq<char>,
) -> PgSettingsView {
    PgSettingsView {
        session: PgSessionView {
            user: Some(user),
            password: None,
            dbname: Some(dbname),
            options: None,
            application_name: None,
            connect_timeout: None,
            keepalives: true,
            keepalives_idle: DEFAULT_KEEPALIVES_IDLE,
        },
        server: PgServerView {
            ssl_mode: SslMode::Disable,
            hosts: seq![HostView::Tcp(host)],
            ports: seq![port],
        },
    }
}

/// Why something is not a connection string.
#[derive(Debug, PartialEq, Eq)]
pub struct ParseError {
    /// The text of the error.
    pub text: String,
    /// The text of what caused it, where there is such a thing.
    pub cause: Option<String>,
}

/// Why something is not a connection string, by the texts.
pub struct ParseErrorView {
    pub text: Seq<char>,
    pub cause: Option<Seq<char>>,
}

impl View for ParseError {
    type V = ParseErrorView;

    open spec fn view(&self) -> ParseErrorView {
        ParseErrorView { text: self.text@, cause: self.cause.deep_view() }
    }
}

/// What `tokio_postgres` parses a connection string to, or the texts of its error
/// and of what caused that.
pub uninterp spec fn parsed_settings(url: Seq<char>) -> Result<PgSettingsView, ParseErrorView>;

/// The outcome of a parse, by its texts.
pub open spec fn parse_outcome(r: Result<PgSettings, ParseError>) -> Result<
    PgSettingsView,
    ParseErrorView,
> {
    match r {
        Ok(settings) => Ok(settings@),
        Err(error) => Err(error@),
    }
}

/// What a parse says of the session.
pub open spec fn session_part(outcome: Result<PgSettingsView, ParseErrorView>) -> Result<
    PgSessionView,
    ParseErrorView,
> {
    match outcome {
        Ok(settings) => Ok(settings.session),
        Err(error) => Err(error),
    }
}

/// What a parse says of the server.
pub open spec fn server_part(outcome: Result<PgSettingsView, ParseErrorView>) -> Result<
    PgServerView,
    ParseErrorView,
> {
    match outcome {
        Ok(settings) => Ok(settings.server),
        Err(error) => Err(error),
    }
}

/// Whether `outcome` is right for `url`, where it is the URL of a database on a
/// host and its parts stand for themselves.
pub open spec fn reads_session(url: Seq<char>, outcome: Result<PgSessionView, ParseErrorView>) -> bool {
    forall|user: Seq<char>, host: Seq<char>, port: u16, dbname: Seq<char>|
        url == #[trigger] database_url(user, host, port, dbname) && plain_parts(user, host, dbname)
            ==> outcome == Ok::<PgSessionView, ParseErrorView>(
            database_settings(user, host, port, dbname).session,
        )
}

/// Whether `outcome` is right for `url`, where it is the URL of a database on a
/// host and its parts stand for themselves.
pub open spec fn reads_server(url: Seq<char>, outcome: Result<PgServerView, ParseErrorView>) -> bool {
    forall|user: Seq<char>, host: Seq<char>, port: u16, dbname: Seq<char>|
        url == #[trigger] database_url(user, host, port, dbname) && plain_parts(user, host, dbname)
            ==> outcome == Ok::<PgServerView, ParseErrorView>(
            database_settings(user, host, port, dbname).server,
        )
}

/// Whether `outcome` is right for `url`, where it is the URL of a database on a
/// host and its parts stand for themselves.
pub open spec fn reads_database_url(
    url: Seq<char>,
    outcome: Result<PgSettingsView, ParseErrorView>,
) -> bool {
    forall|user: Seq<char>, host: Seq<char>, port: u16, dbname: Seq<char>|
        url == #[trigger] database_url(user, host, port, dbname) && plain_parts(user, host, dbname)
            ==> outcome == Ok::<PgSettingsView, ParseErrorView>(
            database_settings(user, host, port, dbname),
        )
}

/// What is said of the session, or why there is nothing, by its texts.
pub open spec fn session_outcome(r: Result<PgSession, ParseError>) -> Result<
    PgSessionView,
    ParseErrorView,
> {
    match r {
        Ok(session) => Ok(session@),
        Err(error) => Err(error@),
    }
}

/// What is said of the server, or why there is nothing, by its texts.
pub open spec fn server_outcome(r: Result<PgServer, ParseError>) -> Result<PgServerView, ParseErrorView> {
    match r {
        Ok(server) => Ok(server@),
        Err(error) => Err(error@),
    }
}

/// Parses a connection string with `tokio_postgres::Config::from_str` and reads
/// what it says of the session through the getters of `tokio_postgres::Config`. An
/// error is read by its text and by that of `tokio_postgres::Error::into_source`.
///
/// Not proved: that the outcome is a fixed one for each string, and that a URL
/// of the form `postgresql://user@[host]:port/dbname?sslmode=disable`, whose parts
/// hold no character with a meaning of its own, is parsed to this user and this
/// database, with everything else at its default. The rest of the grammar is not
/// stated.
#[verifier::external_body]
fn parse_session(url: &str) -> (r: Result<PgSession, ParseError>)
    ensures
        session_outcome(r) == session_part(parsed_settings(url@)),
        reads_session(url@, session_outcome(r)),
{
    let parsed = Config::from_str(url)
        .map_err(|e| ParseError { text: e.to_string(), cause: e.into_source().map(|c| c.to_string()) })?;
    Ok(PgSession {
        user: parsed.get_user().map(String::from),
        password: parsed.get_password().map(Vec::from),
        dbname: parsed.get_dbname().map(String::from),
        options: parsed.get_options().map(String::from),
        application_name: parsed.get_application_name().map(String::from),
        connect_timeout: parsed.get_connect_timeout().map(|time| time.as_nanos()),
        keepalives: parsed.get_keepalives(),
        keepalives_idle: parsed.get_keepalives_idle().as_nanos(),
    })
}

/// Parses a connection string with `tokio_postgres::Config::from_str` and reads
/// what it says of the server through the getters of `tokio_postgres::Config`. An
/// error is read by its text and by that of `tokio_postgres::Error::into_source`.
///
/// Not proved: that the outcome is a fixed one for each string, the other part of
/// that of [`parse_session`], and that a URL of the form
/// `postgresql://user@[host]:port/dbname?sslmode=disable`, whose parts hold no
/// character with a meaning of its own, is parsed to this one host with this one
/// port, with TLS switched off. The rest of the grammar is not stated.
#[verifier::external_body]
fn parse_server(url: &str) -> (r: Result<PgServer, ParseError>)
    ensures
        server_outcome(r) == server_part(parsed_settings(url@)),
        reads_server(url@, server_outcome(r)),
{
    let parsed = Config::from_str(url)
        .map_err(|e| ParseError { text: e.to_string(), cause: e.into_source().map(|c| c.to_string()) })?;
    Ok(PgServer {
        ssl_mode: match parsed.get_ssl_mode() {
            client::SslMode::Disable => SslMode::Disable,
            client::SslMode::Prefer => SslMode::Prefer,
            client::SslMode::Require => SslMode::Require,
            _ => SslMode::Other,
        },
        hosts: parsed.get_hosts().iter().map(|host| match host {
            client::Host::Tcp(name) => Host::Tcp(name.clone()),
            client::Host::Unix(_) => Host::Unix,
        }).collect(),
        ports: parsed.get_ports().to_vec(),
    })
}

/// Parses a connection string.
fn parse_settings(url: &str) -> (r: Result<PgSettings, ParseError>)
    ensures
        parse_outcome(r) == parsed_settings(url@),
        reads_database_url(url@, parse_outcome(r)),
{
    let session = match parse_session(url) {
        Ok(session) => session,
        Err(error) => {
            return Err(error);
        },
    };
    match parse_server(url) {
        Ok(server) => Ok(PgSettings { session, server }),
        Err(error) => Err(error),
    }
}

/// Why a listen URL does not lead to a client configuration.
#[derive(Debug, PartialEq, Eq)]
pub enum PgConfigError {
    /// The listen URL is not a connection string.
    Parse { listen_url: String, source: ParseError },
    /// The listen URL sets fields that the harness has no use for.
    UnsupportedFields { fields: Vec<String>, listen_url: String },
    /// The listen URL names a database other than the default one.
    UnexpectedDatabase { listen_url: String },
    /// The listen URL switches keepalives off.
    KeepalivesDisabled { listen_url: String },
    /// The listen URL changes the keepalive idle time.
    KeepalivesIdle { listen_url: String },
    /// The listen URL does not switch TLS off.
    SslMode { listen_url: String },
    /// The listen URL names no host, or more than one.
    HostCount { listen_url: String },
    /// The listen URL names a Unix socket.
    NotTcp { listen_url: String },
    /// The URL for clients is not a connection string.
    ParseModified { url: String, source: ParseError },
}

/// An error, by its texts.
pub enum PgConfigErrorView {
    Parse { listen_url: Seq<char>, source: ParseErrorView },
    UnsupportedFields { fields: Seq<Seq<char>>, listen_url: Seq<char> },
    UnexpectedDatabase { listen_url: Seq<char> },
    KeepalivesDisabled { listen_url: Seq<char> },
    KeepalivesIdle { listen_url: Seq<char> },
    SslMode { listen_url: Seq<char> },
    HostCount { listen_url: Seq<char> },
    NotTcp { listen_url: Seq<char> },
    ParseModified { url: Seq<char>, source: ParseErrorView },
}

impl View for PgConfigError {
    type V = PgConfigErrorView;

    open spec fn view(&self) -> PgConfigErrorView {
        match self {
            PgConfigError::Parse { listen_url, source } => PgConfigErrorView::Parse {
                listen_url: listen_url@,
                source: source@,
            },
            PgConfigError::UnsupportedFields { fields, listen_url } =>
                PgConfigErrorView::UnsupportedFields {
                fields: fields.deep_view(),
                listen_url: listen_url@,
            },
            PgConfigError::UnexpectedDatabase { listen_url } =>
                PgConfigErrorView::UnexpectedDatabase { listen_url: listen_url@ },
            PgConfigError::KeepalivesDisabled { listen_url } =>
                PgConfigErrorView::KeepalivesDisabled { listen_url: listen_url@ },
            PgConfigError::KeepalivesIdle { listen_url } => PgConfigErrorView::KeepalivesIdle {
                listen_url: listen_url@,
            },
            PgConfigError::SslMode { listen_url } => PgConfigErrorView::SslMode {
                listen_url: listen_url@,
            },
            PgConfigError::HostCount { listen_url } => PgConfigErrorView::HostCount {
                listen_url: listen_url@,
            },
            PgConfigError::NotTcp { listen_url } => PgConfigErrorView::NotTcp {
                listen_url: listen_url@,
            },
            PgConfigError::ParseModified { url, source } => PgConfigErrorView::ParseModified {
                url: url@,
                source: source@,
            },
        }
    }
}

impl PgConfigErrorView {
    /// The text of the error, without that of its source.
    pub open spec fn text(self) -> Seq<char> {
        match self {
            PgConfigErrorView::Parse { listen_url, source } => "parse PostgreSQL config: "@
                + debug_quoted(listen_url),
            PgConfigErrorView::UnsupportedFields { fields, listen_url } =>
                "unsupported PostgreSQL listen URL (did not expect any of these fields: "@
                + joined(fields, ", "@) + "): "@ + debug_quoted(listen_url),
            PgConfigErrorView::UnexpectedDatabase { listen_url } =>
                "unsupported PostgreSQL listen URL (unexpected database name other than \"defaultdb\"): "@
                + debug_quoted(listen_url),
            PgConfigErrorView::KeepalivesDisabled { listen_url } =>
                "unsupported PostgreSQL listen URL (keepalives disabled): "@ + debug_quoted(
                listen_url,
            ),
            PgConfigErrorView::KeepalivesIdle { listen_url } =>
                "unsupported PostgreSQL listen URL (keepalive idle time): "@ + debug_quoted(
                listen_url,
            ),
            PgConfigErrorView::SslMode { listen_url } =>
                "unsupported PostgreSQL listen URL (ssl mode): "@ + debug_quoted(listen_url),
            PgConfigErrorView::HostCount { listen_url } =>
                "unsupported PostgresQL listen URL (expected exactly one host): "@ + debug_quoted(
                listen_url,
            ),
            PgConfigErrorView::NotTcp { listen_url } =>
                "unsupported PostsgreSQL listen URL (not TCP): "@ + debug_quoted(listen_url),
            PgConfigErrorView::ParseModified { url, source } => "parse modified PostgreSQL config "@
                + debug_quoted(url),
        }
    }

    /// What caused the error, where there is such a thing.
    pub open spec fn parse_error(self) -> Option<ParseErrorView> {
        match self {
            PgConfigErrorView::Parse { listen_url, source } => Some(source),
            PgConfigErrorView::ParseModified { url, source } => Some(source),
            _ => None,
        }
    }
}

impl PgConfigError {
    /// The text of the error, without that of its source.
    pub fn to_string(&self) -> (r: String)
        ensures
            r@ == self@.text(),
    {
        match self {
            PgConfigError::Parse { listen_url, .. } => "parse PostgreSQL config: ".to_owned().concat(
                quote(listen_url.as_str()).as_str(),
            ),
            PgConfigError::UnsupportedFields { fields, listen_url } =>
            "unsupported PostgreSQL listen URL (did not expect any of these fields: ".to_owned().concat(
                join(fields, ", ").as_str(),
            ).concat("): ").concat(quote(listen_url.as_str()).as_str()),
            PgConfigError::UnexpectedDatabase { listen_url } =>
            "unsupported PostgreSQL listen URL (unexpected database name other than \"defaultdb\"): ".to_owned().concat(
            quote(listen_url.as_str()).as_str()),
            PgConfigError::KeepalivesDisabled { listen_url } =>
            "unsupported PostgreSQL listen URL (keepalives disabled): ".to_owned().concat(
                quote(listen_url.as_str()).as_str(),
            ),
            PgConfigError::KeepalivesIdle { listen_url } =>
            "unsupported PostgreSQL listen URL (keepalive idle time): ".to_owned().concat(
                quote(listen_url.as_str()).as_str(),
            ),
            PgConfigError::SslMode { listen_url } =>
            "unsupported PostgreSQL listen URL (ssl mode): ".to_owned().concat(
                quote(listen_url.as_str()).as_str(),
            ),
            PgConfigError::HostCount { listen_url } =>
            "unsupported PostgresQL listen URL (expected exactly one host): ".to_owned().concat(
                quote(listen_url.as_str()).as_str(),
            ),
            PgConfigError::NotTcp { listen_url } =>
            "unsupported PostsgreSQL listen URL (not TCP): ".to_owned().concat(
                quote(listen_url.as_str()).as_str(),
            ),
            PgConfigError::ParseModified { url, .. } => "parse modified PostgreSQL config ".to_owned().concat(
            quote(url.as_str()).as_str()),
        }
    }

    /// What caused the error, where there is such a thing.
    pub fn parse_error(&self) -> (r: Option<&ParseError>)
        ensures
            (match r {
                Some(error) => Some(error@),
                None => None,
            }) == self@.parse_error(),
    {
        match self {
            PgConfigError::Parse { source, .. } => Some(source),
            PgConfigError::ParseModified { source, .. } => Some(source),
            _ => None,
        }
    }
}

/// The fields set in `settings` that the harness has no use for.
pub open spec fn unsupported_fields(settings: PgSettingsView) -> Seq<Seq<char>> {
    let none = Seq::<Seq<char>>::empty();
    (if settings.session.application_name is Some {
        seq!["application_name"@]
    } else {
        none
    }) + (if settings.session.connect_timeout is Some {
        seq!["connect_timeout"@]
    } else {
        none
    }) + (if settings.session.options is Some {
        seq!["options"@]
    } else {
        none
    }) + (if settings.session.password is Some {
        seq!["password"@]
    } else {
        none
    })
}

/// Lists the fields that are set and that the harness has no use for.
fn list_unsupported(settings: &PgSettings) -> (r: Vec<String>)
    ensures
        r.deep_view() == unsupported_fields(settings@),
{
    let mut fields: Vec<String> = Vec::new();
    if settings.session.application_name.is_some() {
        fields.push("application_name".to_owned());
    }
    if settings.session.connect_timeout.is_some() {
        fields.push("connect_timeout".to_owned());
    }
    if settings.session.options.is_some() {
        fields.push("options".to_owned());
    }
    if settings.session.password.is_some() {
        fields.push("password".to_owned());
    }
    assert(fields.deep_view() == unsupported_fields(settings@));
    fields
}

/// The first reason, other than its hosts, for which a listen URL is not
/// supported.
pub open spec fn settings_error(
    listen_url: Seq<char>,
    settings: PgSettingsView,
) -> Option<PgConfigErrorView> {
    if unsupported_fields(settings).len() > 0 {
        Some(
            PgConfigErrorView::UnsupportedFields {
                fields: unsupported_fields(settings),
                listen_url,
            },
        )
    } else if settings.session.dbname is Some && settings.session.dbname != Some("defaultdb"@) {
        Some(PgConfigErrorView::UnexpectedDatabase { listen_url })
    } else if !settings.session.keepalives {
        Some(PgConfigErrorView::KeepalivesDisabled { listen_url })
    } else if settings.session.keepalives_idle != DEFAULT_KEEPALIVES_IDLE {
        Some(PgConfigErrorView::KeepalivesIdle { listen_url })
    } else if settings.server.ssl_mode != SslMode::Disable {
        Some(PgConfigErrorView::SslMode { listen_url })
    } else {
        None
    }
}

/// Whether there is one port for each host, where the listen URL is supported
/// up to its hosts.
pub open spec fn ports_match_hosts(listen_url: Seq<char>, settings: PgSettingsView) -> bool {
    settings_error(listen_url, settings) is None ==> settings.server.hosts.len() == settings.server.ports.len()
}

/// The URL for clients of the database behind a listen URL, or why there is
/// none.
pub open spec fn client_url_of(
    listen_url: Seq<char>,
    settings: PgSettingsView,
) -> Result<Seq<char>, PgConfigErrorView> {
    match settings_error(listen_url, settings) {
        Some(error) => Err(error),
        None => if settings.server.hosts.len() != 1 {
            Err(PgConfigErrorView::HostCount { listen_url })
        } else {
            match settings.server.hosts[0] {
                HostView::Tcp(host) => Ok(
                    database_url("root"@, host, settings.server.ports[0], "test"@),
                ),
                HostView::Unix => Err(PgConfigErrorView::NotTcp { listen_url }),
            }
        },
    }
}

/// The outcome of making a URL, by its texts.
pub open spec fn url_outcome(r: Result<String, PgConfigError>) -> Result<
    Seq<char>,
    PgConfigErrorView,
> {
    match r {
        Ok(url) => Ok(url@),
        Err(error) => Err(error@),
    }
}

/// Finds the first reason, other than its hosts, for which a listen URL is not
/// supported.
pub fn find_settings_error(listen_url: &str, settings: &PgSettings) -> (r: Option<PgConfigError>)
    ensures
        (match r {
            Some(error) => Some(error@),
            None => None,
        }) == settings_error(listen_url@, settings@),
{
    let fields = list_unsupported(settings);
    if fields.len() > 0 {
        return Some(
            PgConfigError::UnsupportedFields { fields, listen_url: listen_url.to_owned() },
        );
    }
    if let Some(dbname) = &settings.session.dbname {
        if !same_text(dbname.as_str(), "defaultdb") {
            return Some(PgConfigError::UnexpectedDatabase { listen_url: listen_url.to_owned() });
        }
    }
    if !settings.session.keepalives {
        return Some(PgConfigError::KeepalivesDisabled { listen_url: listen_url.to_owned() });
    }
    if settings.session.keepalives_idle != DEFAULT_KEEPALIVES_IDLE {
        return Some(PgConfigError::KeepalivesIdle { listen_url: listen_url.to_owned() });
    }
    if settings.server.ssl_mode != SslMode::Disable {
        return Some(PgConfigError::SslMode { listen_url: listen_url.to_owned() });
    }
    None
}

/// Makes the URL of the test database on a host.
fn write_client_url(host: &str, port: u16) -> (r: String)
    ensures
        r@ == database_url("root"@, host@, port, "test"@),
{
    "postgresql://".to_owned().concat("root").concat("@[").concat(host).concat("]:").concat(
        decimal_text(port as u64).as_str(),
    ).concat("/").concat("test").concat("?sslmode=disable")
}

/// Makes the URL for clients of the database behind a listen URL, from what the
/// listen URL was parsed to.
pub fn client_url(listen_url: &str, settings: &PgSettings) -> (r: Result<String, PgConfigError>)
    requires
        ports_match_hosts(listen_url@, settings@),
    ensures
        url_outcome(r) == client_url_of(listen_url@, settings@),
{
    if let Some(error) = find_settings_error(listen_url, settings) {
        return Err(error);
    }
    if settings.server.hosts.len() != 1 {
        return Err(PgConfigError::HostCount { listen_url: listen_url.to_owned() });
    }
    assert(settings@.server.hosts[0] == settings.server.hosts@[0].deep_view());
    match &settings.server.hosts[0] {
        Host::Tcp(host) => Ok(write_client_url(host.as_str(), settings.server.ports[0])),
        Host::Unix => Err(PgConfigError::NotTcp { listen_url: listen_url.to_owned() }),
    }
}

/// The configuration of a client of the test database: what its URL was parsed
/// to, and the URL.
#[derive(Debug, PartialEq, Eq)]
pub struct PostgresConfig {
    pub parsed: PgSettings,
    pub url: String,
}

/// A client configuration, by its texts.
pub struct PostgresConfigView {
    pub parsed: PgSettingsView,
    pub url: Seq<char>,
}

impl View for PostgresConfig {
    type V = PostgresConfigView;

    open spec fn view(&self) -> PostgresConfigView {
        PostgresConfigView { parsed: self.parsed@, url: self.url@ }
    }
}

/// The outcome of making a client configuration, by its texts.
pub open spec fn config_outcome(r: Result<PostgresConfig, PgConfigError>) -> Result<
    PostgresConfigView,
    PgConfigErrorView,
> {
    match r {
        Ok(config) => Ok(config@),
        Err(error) => Err(error@),
    }
}

/// The client configuration for a URL, from what the URL was parsed to.
pub open spec fn client_config_of(
    url: Seq<char>,
    outcome: Result<PgSettingsView, ParseErrorView>,
) -> Result<PostgresConfigView, PgConfigErrorView> {
    match outcome {
        Ok(parsed) => Ok(PostgresConfigView { parsed, url }),
        Err(source) => Err(PgConfigErrorView::ParseModified { url, source }),
    }
}

/// The client configuration that a listen URL leads to.
pub open spec fn pg_config_of(listen_url: Seq<char>) -> Result<
    PostgresConfigView,
    PgConfigErrorView,
> {
    match parsed_settings(listen_url) {
        Err(source) => Err(PgConfigErrorView::Parse { listen_url, source }),
        Ok(settings) => match client_url_of(listen_url, settings) {
            Err(error) => Err(error),
            Ok(url) => client_config_of(url, parsed_settings(url)),
        },
    }
}

/// Whether what a listen URL is parsed to has one port for each host, as far as
/// that is looked at.
pub open spec fn listen_ports_match(listen_url: Seq<char>) -> bool {
    match parsed_settings(listen_url) {
        Ok(settings) => ports_match_hosts(listen_url, settings),
        Err(_) => true,
    }
}

/// The client configuration for the test database on a host.
pub open spec fn test_database_config(host: Seq<char>, port: u16) -> PostgresConfigView {
    PostgresConfigView {
        parsed: database_settings("root"@, host, port, "test"@),
        url: database_url("root"@, host, port, "test"@),
    }
}

/// Whether a listen URL in the form in which CockroachDB reports it leads to the
/// test database on the same host and port.
pub open spec fn keeps_host_and_port(
    listen_url: Seq<char>,
    outcome: Result<PostgresConfigView, PgConfigErrorView>,
) -> bool {
    forall|user: Seq<char>, host: Seq<char>, port: u16|
        listen_url == #[trigger] database_url(user, host, port, "defaultdb"@) && plain_parts(
            user,
            host,
            "defaultdb"@,
        ) ==> outcome == Ok::<PostgresConfigView, PgConfigErrorView>(
            test_database_config(host, port),
        )
}

/// Whether a listen URL that is supported leads to the test database on the host and
/// port that it was parsed to, where the host can stand in a URL as it is.
pub open spec fn keeps_parsed_host_and_port(
    listen_url: Seq<char>,
    outcome: Result<PostgresConfigView, PgConfigErrorView>,
) -> bool {
    parsed_settings(listen_url) matches Ok(settings) ==> (settings_error(listen_url, settings) is None
        && settings.server.hosts.len() == 1 ==> (settings.server.hosts[0] matches HostView::Tcp(host)
        ==> (plain_parts("root"@, host, "test"@) ==> outcome == Ok::<
        PostgresConfigView,
        PgConfigErrorView,
    >(test_database_config(host, settings.server.ports[0])))))
}

/// Whether the URL for clients that a listen URL leads to is parsed to what it spells
/// out, where its parts stand for themselves.
pub open spec fn reads_client_url(listen_url: Seq<char>) -> bool {
    parsed_settings(listen_url) matches Ok(settings) ==> (client_url_of(listen_url, settings)
        matches Ok(url) ==> reads_database_url(url, parsed_settings(url)))
}

/// Whether a listen URL has the form in which CockroachDB reports it.
pub open spec fn reported_form(listen_url: Seq<char>) -> bool {
    exists|user: Seq<char>, host: Seq<char>, port: u16|
        listen_url == #[trigger] database_url(user, host, port, "defaultdb"@) && plain_parts(
            user,
            host,
            "defaultdb"@,
        )
}

/// Makes the client configuration for a URL, from what the URL was parsed to.
pub fn client_config(url: String, outcome: Result<PgSettings, ParseError>) -> (r: Result<
    PostgresConfig,
    PgConfigError,
>)
    ensures
        config_outcome(r) == client_config_of(url@, parse_outcome(outcome)),
{
    match outcome {
        Ok(parsed) => Ok(PostgresConfig { parsed, url }),
        Err(source) => Err(PgConfigError::ParseModified { url, source }),
    }
}

/// The default settings of a host lead to its test database.
proof fn lemma_default_database(
    listen_url: Seq<char>,
    user: Seq<char>,
    host: Seq<char>,
    port: u16,
)
    requires
        plain_parts(user, host, "defaultdb"@),
    ensures
        client_url_of(listen_url, database_settings(user, host, port, "defaultdb"@)) == Ok::<
            Seq<char>,
            PgConfigErrorView,
        >(database_url("root"@, host, port, "test"@)),
        plain_parts("root"@, host, "test"@),
{
    reveal_strlit("root");
    reveal_strlit("test");
    let settings = database_settings(user, host, port, "defaultdb"@);
    assert(unsupported_fields(settings) == Seq::<Seq<char>>::empty());
}

/// Given a listen URL reported by CockroachDB, makes the configuration with which
/// a client connects to the test database.
///
/// The listen URL must not lead to a different number of ports than hosts; see
/// [`try_make_pg_config`].
pub fn make_pg_config(listen_url: &str) -> (r: Result<PostgresConfig, PgConfigError>)
    requires
        listen_ports_match(listen_url@),
    ensures
        config_outcome(r) == pg_config_of(listen_url@),
        keeps_host_and_port(listen_url@, config_outcome(r)),
        keeps_parsed_host_and_port(listen_url@, config_outcome(r)),
        reads_database_url(listen_url@, parsed_settings(listen_url@)),
        reads_client_url(listen_url@),
{
    match parse_settings(listen_url) {
        Err(source) => Err(PgConfigError::Parse { listen_url: listen_url.to_owned(), source }),
        Ok(settings) => match client_url(listen_url, &settings) {
            Err(error) => {
                proof {
                    assert forall|user: Seq<char>, host: Seq<char>, port: u16|
                        listen_url@ == #[trigger] database_url(user, host, port, "defaultdb"@)
                            && plain_parts(user, host, "defaultdb"@) implies false by {
                        lemma_default_database(listen_url@, user, host, port);
                    }
                }
                Err(error)
            },
            Ok(url) => {
                let outcome = parse_settings(url.as_str());
                proof {
                    assert forall|user: Seq<char>, host: Seq<char>, port: u16|
                        listen_url@ == #[trigger] database_url(user, host, port, "defaultdb"@)
                            && plain_parts(user, host, "defaultdb"@) implies parse_outcome(outcome)
                        == Ok::<PgSettingsView, ParseErrorView>(
                        database_settings("root"@, host, port, "test"@),
                    ) && url@ == database_url("root"@, host, port, "test"@) by {
                        lemma_default_database(listen_url@, user, host, port);
                    }
                }
                client_config(url, outcome)
            },
        },
    }
}

/// Given a listen URL reported by CockroachDB, makes the configuration with which
/// a client connects to the test database, or nothing if the listen URL leads to
/// a different number of ports than hosts.
pub fn try_make_pg_config(listen_url: &str) -> (r: Option<Result<PostgresConfig, PgConfigError>>)
    ensures
        r is Some <==> listen_ports_match(listen_url@),
        reported_form(listen_url@) ==> r is Some,
        r matches Some(outcome) ==> config_outcome(outcome) == pg_config_of(listen_url@),
        r matches Some(outcome) ==> keeps_host_and_port(listen_url@, config_outcome(outcome)),
        r matches Some(outcome) ==> keeps_parsed_host_and_port(
            listen_url@,
            config_outcome(outcome),
        ),
        reads_database_url(listen_url@, parsed_settings(listen_url@)),
        r is Some ==> reads_client_url(listen_url@),
{
    if let Ok(settings) = parse_settings(listen_url) {
        if find_settings_error(listen_url, &settings).is_none() && settings.server.hosts.len()
            != settings.server.ports.len() {
            return None;
        }
    }
    Some(make_pg_config(listen_url))
}

/// How many of the settings before a place are set.
spec fn count(a: bool, b: bool, c: bool) -> int {
    (if a {
        1int
    } else {
        0
    }) + (if b {
        1int
    } else {
        0
    }) + (if c {
        1int
    } else {
        0
    })
}

/// The fields that a listen URL must not set are listed if and only if they are set,
/// each once, always in the same order.
pub proof fn law_unsupported_fields(settings: PgSettingsView)
    ensures
        ({
            let fields = unsupported_fields(settings);
            let session = settings.session;
            &&& fields.contains("application_name"@) <==> session.application_name is Some
            &&& fields.contains("connect_timeout"@) <==> session.connect_timeout is Some
            &&& fields.contains("options"@) <==> session.options is Some
            &&& fields.contains("password"@) <==> session.password is Some
            &&& fields.no_duplicates()
            &&& forall|i: int, j: int|
                0 <= i < j < fields.len() ==> field_rank(#[trigger] fields[i]) < field_rank(
                    #[trigger] fields[j],
                )
            &&& forall|i: int| 0 <= i < fields.len() ==> 1 <= field_rank(#[trigger] fields[i]) <= 4
        }),
{
    reveal_strlit("application_name");
    reveal_strlit("connect_timeout");
    reveal_strlit("options");
    reveal_strlit("password");
    assert("application_name"@.len() == 16);
    assert("connect_timeout"@.len() == 15);
    assert("options"@.len() == 7);
    assert("password"@.len() == 8);
    let a = settings.session.application_name is Some;
    let c = settings.session.connect_timeout is Some;
    let o = settings.session.options is Some;
    let p = settings.session.password is Some;
    let fields = unsupported_fields(settings);
    let at_c = count(a, false, false);
    let at_o = count(a, c, false);
    let at_p = count(a, c, o);
    assert(fields.len() == at_p + count(p, false, false));
    assert(a ==> fields[0] == "application_name"@);
    assert(c ==> fields[at_c] == "connect_timeout"@);
    assert(o ==> fields[at_o] == "options"@);
    assert(p ==> fields[at_p] == "password"@);
    assert forall|i: int| 0 <= i < fields.len() implies 1 <= field_rank(#[trigger] fields[i]) <= 4
        && (field_rank(fields[i]) == 1 ==> a) && (field_rank(fields[i]) == 2 ==> c) && (field_rank(
        fields[i],
    ) == 3 ==> o) && (field_rank(fields[i]) == 4 ==> p) by {
        if a && i == 0 {
        } else if c && i == at_c {
        } else if o && i == at_o {
        } else {
            assert(p && i == at_p);
        }
    }
}

/// The place of a field among those that a listen URL must not set.
pub open spec fn field_rank(field: Seq<char>) -> int {
    if field == "application_name"@ {
        1
    } else if field == "connect_timeout"@ {
        2
    } else if field == "options"@ {
        3
    } else if field == "password"@ {
        4
    } else {
        0
    }
}

/// Whether a session sets none of the fields that a listen URL must not set.
pub open spec fn is_plain_session(session: PgSessionView) -> bool {
    session.application_name is None && session.connect_timeout is None && session.options is None
        && session.password is None
}

/// A listen URL is supported, up to its hosts, if and only if it sets no field that it
/// must not set, names the default database or none, leaves the keepalives as they
/// are, and switches TLS off. If it is not, the first of these that fails is reported,
/// with the URL.
pub proof fn law_settings_error(listen_url: Seq<char>, settings: PgSettingsView)
    ensures
        ({
            let error = settings_error(listen_url, settings);
            let plain = is_plain_session(settings.session);
            let named = settings.session.dbname is None || settings.session.dbname == Some(
                "defaultdb"@,
            );
            let alive = settings.session.keepalives;
            let idle = settings.session.keepalives_idle == 7_200_000_000_000;
            let open = settings.server.ssl_mode == SslMode::Disable;
            &&& error is None <==> plain && named && alive && idle && open
            &&& !plain ==> error == Some(
                PgConfigErrorView::UnsupportedFields {
                    fields: unsupported_fields(settings),
                    listen_url,
                },
            )
            &&& plain && !named ==> error == Some(
                PgConfigErrorView::UnexpectedDatabase { listen_url },
            )
            &&& plain && named && !alive ==> error == Some(
                PgConfigErrorView::KeepalivesDisabled { listen_url },
            )
            &&& plain && named && alive && !idle ==> error == Some(
                PgConfigErrorView::KeepalivesIdle { listen_url },
            )
            &&& plain && named && alive && idle && !open ==> error == Some(
                PgConfigErrorView::SslMode { listen_url },
            )
        }),
{
    if is_plain_session(settings.session) {
        assert(unsupported_fields(settings) == Seq::<Seq<char>>::empty());
    }
}

/// The URL of a database spells out its user, host, port and name, and switches TLS
/// off.
pub proof fn law_database_url(user: Seq<char>, host: Seq<char>, port: u16, dbname: Seq<char>)
    ensures
        database_url(user, host, port, dbname) == ("postgresql://"@ + user) + ("@["@ + host
            + "]:"@) + decimal(port as nat) + ("/"@ + dbname) + "?sslmode=disable"@,
{
    assert(database_url(user, host, port, dbname) =~= ("postgresql://"@ + user) + ("@["@ + host
        + "]:"@) + decimal(port as nat) + ("/"@ + dbname) + "?sslmode=disable"@);
}

/// A listen URL that is supported leads to a URL for clients if and only if it names
/// one host, and that by TCP. It is that of the database `test` for the user `root` on
/// the same host and port.
pub proof fn law_client_url(listen_url: Seq<char>, settings: PgSettingsView, host: Seq<char>)
    ensures
        settings_error(listen_url, settings) is Some ==> client_url_of(listen_url, settings)
            == Err::<Seq<char>, PgConfigErrorView>(settings_error(listen_url, settings)->0),
        settings_error(listen_url, settings) is None && settings.server.hosts.len() != 1
            ==> client_url_of(listen_url, settings) == Err::<Seq<char>, PgConfigErrorView>(
            PgConfigErrorView::HostCount { listen_url },
        ),
        settings_error(listen_url, settings) is None && settings.server.hosts == seq![
            HostView::Unix,
        ] ==> client_url_of(listen_url, settings) == Err::<Seq<char>, PgConfigErrorView>(
            PgConfigErrorView::NotTcp { listen_url },
        ),
        settings_error(listen_url, settings) is None && settings.server.hosts == seq![
            HostView::Tcp(host),
        ] ==> client_url_of(listen_url, settings) == Ok::<Seq<char>, PgConfigErrorView>(
            "postgresql://root"@ + ("@["@ + host + "]:"@) + decimal(
                settings.server.ports[0] as nat,
            ) + "/test?sslmode=disable"@,
        ),
{
    if settings_error(listen_url, settings) is None && settings.server.hosts == seq![
        HostView::Tcp(host),
    ] {
        reveal_strlit("postgresql://root");
        reveal_strlit("postgresql://");
        reveal_strlit("root");
        reveal_strlit("/test?sslmode=disable");
        reveal_strlit("/");
        reveal_strlit("test");
        reveal_strlit("?sslmode=disable");
        assert("postgresql://root"@ == "postgresql://"@ + "root"@);
        assert("/test?sslmode=disable"@ == "/"@ + "test"@ + "?sslmode=disable"@);
        assert(database_url("root"@, host, settings.server.ports[0], "test"@)
            =~= "postgresql://root"@ + ("@["@ + host + "]:"@) + decimal(
            settings.server.ports[0] as nat,
        ) + "/test?sslmode=disable"@);
    }
}

/// A listen URL leads to a configuration if and only if it is parsed, is supported, and
/// the URL for clients is parsed; the configuration is what the URL for clients is
/// parsed to, and that URL. Otherwise the first step that fails is reported.
pub proof fn law_pg_config(listen_url: Seq<char>)
    ensures
        parsed_settings(listen_url) matches Err(source) ==> pg_config_of(listen_url) == Err::<
            PostgresConfigView,
            PgConfigErrorView,
        >(PgConfigErrorView::Parse { listen_url, source }),
        parsed_settings(listen_url) matches Ok(settings) ==> (client_url_of(listen_url, settings)
            matches Err(error) ==> pg_config_of(listen_url) == Err::<
            PostgresConfigView,
            PgConfigErrorView,
        >(error)),
        parsed_settings(listen_url) matches Ok(settings) ==> (client_url_of(listen_url, settings)
            matches Ok(url) ==> match parsed_settings(url) {
            Ok(parsed) => pg_config_of(listen_url) == Ok::<PostgresConfigView, PgConfigErrorView>(
                PostgresConfigView { parsed, url },
            ),
            Err(source) => pg_config_of(listen_url) == Err::<
                PostgresConfigView,
                PgConfigErrorView,
            >(PgConfigErrorView::ParseModified { url, source }),
        }),
{
}

/// The URL for clients and what it was parsed to make the configuration, whatever they
/// are.
pub proof fn law_client_config(url: Seq<char>, parsed: PgSettingsView, source: ParseErrorView)
    ensures
        client_config_of(url, Ok(parsed)) == Ok::<PostgresConfigView, PgConfigErrorView>(
            PostgresConfigView { parsed, url },
        ),
        client_config_of(url, Err(source)) == Err::<PostgresConfigView, PgConfigErrorView>(
            PgConfigErrorView::ParseModified { url, source },
        ),
{
}

/// Only a listen URL that is parsed, and is supported up to its hosts, can have a
/// different number of ports than hosts.
pub proof fn law_listen_ports_match(listen_url: Seq<char>)
    ensures
        parsed_settings(listen_url) is Err ==> listen_ports_match(listen_url),
        parsed_settings(listen_url) matches Ok(settings) ==> (listen_ports_match(listen_url) <==> (
        settings_error(listen_url, settings) is Some || settings.server.hosts.len()
            == settings.server.ports.len())),
{
}

/// The configuration for the test database is that of its URL: the user `root`, the
/// database `test`, the one host and port, no TLS, and nothing else.
pub proof fn law_test_database(host: Seq<char>, port: u16)
    ensures
        ({
            let config = test_database_config(host, port);
            &&& config.url == database_url("root"@, host, port, "test"@)
            &&& config.parsed.session.user == Some("root"@)
            &&& config.parsed.session.dbname == Some("test"@)
            &&& is_plain_session(config.parsed.session)
            &&& config.parsed.session.keepalives
            &&& config.parsed.session.keepalives_idle == 7_200_000_000_000
            &&& config.parsed.server.ssl_mode == SslMode::Disable
            &&& config.parsed.server.hosts == seq![HostView::Tcp(host)]
            &&& config.parsed.server.ports == seq![port]
        }),
{
}

/// Every error reads as a fixed sentence, and ends with the URL that it is about, in
/// quotes; only one that comes from parsing has a cause.
pub proof fn law_config_error_texts(
    url: Seq<char>,
    fields: Seq<Seq<char>>,
    source: ParseErrorView,
)
    ensures
        ({
            let quoted = debug_quoted(url);
            let error = PgConfigErrorView::Parse { listen_url: url, source };
            &&& error.text() == "parse PostgreSQL config: "@ + quoted
            &&& error.parse_error() == Some(source)
        }),
        ({
            let error = PgConfigErrorView::ParseModified { url, source };
            &&& error.text() == "parse modified PostgreSQL config "@ + debug_quoted(url)
            &&& error.parse_error() == Some(source)
        }),
        ({
            let error = PgConfigErrorView::UnsupportedFields { fields, listen_url: url };
            &&& error.text()
                == "unsupported PostgreSQL listen URL (did not expect any of these fields: "@ + (
            joined(fields, ", "@) + "): "@) + debug_quoted(url)
            &&& error.parse_error() is None
        }),
        ({
            let error = PgConfigErrorView::UnexpectedDatabase { listen_url: url };
            &&& error.text()
                == "unsupported PostgreSQL listen URL (unexpected database name other than \"defaultdb\"): "@
                + debug_quoted(url)
            &&& error.parse_error() is None
        }),
        ({
            let error = PgConfigErrorView::KeepalivesDisabled { listen_url: url };
            &&& error.text() == "unsupported PostgreSQL listen URL (keepalives disabled): "@
                + debug_quoted(url)
            &&& error.parse_error() is None
        }),
        ({
            let error = PgConfigErrorView::KeepalivesIdle { listen_url: url };
            &&& error.text() == "unsupported PostgreSQL listen URL (keepalive idle time): "@
                + debug_quoted(url)
            &&& error.parse_error() is None
        }),
        ({
            let error = PgConfigErrorView::SslMode { listen_url: url };
            &&& error.text() == "unsupported PostgreSQL listen URL (ssl mode): "@ + debug_quoted(
                url,
            )
            &&& error.parse_error() is None
        }),
        ({
            let error = PgConfigErrorView::HostCount { listen_url: url };
            &&& error.text() == "unsupported PostgresQL listen URL (expected exactly one host): "@
                + debug_quoted(url)
            &&& error.parse_error() is None
        }),
        ({
            let error = PgConfigErrorView::NotTcp { listen_url: url };
            &&& error.text() == "unsupported PostsgreSQL listen URL (not TCP): "@ + debug_quoted(url)
            &&& error.parse_error() is None
        }),
{
    assert((PgConfigErrorView::UnsupportedFields { fields, listen_url: url }).text()
        =~= "unsupported PostgreSQL listen URL (did not expect any of these fields: "@ + (joined(
        fields,
        ", "@,
    ) + "): "@) + debug_quoted(url));
}

/// What is said of settings by their view is said of the settings.
pub proof fn law_settings_view(settings: PgSettings, i: int)
    ensures
        settings@.session.user is Some <==> settings.session.user is Some,
        settings.session.user is Some ==> settings@.session.user->0 == settings.session.user->0@,
        settings@.session.password is Some <==> settings.session.password is Some,
        settings@.session.dbname is Some <==> settings.session.dbname is Some,
        settings.session.dbname is Some ==> settings@.session.dbname->0
            == settings.session.dbname->0@,
        settings@.session.options is Some <==> settings.session.options is Some,
        settings@.session.application_name is Some <==> settings.session.application_name is Some,
        settings@.session.connect_timeout == settings.session.connect_timeout,
        settings@.session.keepalives == settings.session.keepalives,
        settings@.session.keepalives_idle == settings.session.keepalives_idle,
        settings@.server.ssl_mode == settings.server.ssl_mode,
        settings@.server.ports == settings.server.ports@,
        settings@.server.hosts.len() == settings.server.hosts@.len(),
        0 <= i < settings.server.hosts@.len() ==> (match settings.server.hosts@[i] {
            Host::Tcp(name) => settings@.server.hosts[i] == HostView::Tcp(name@),
            Host::Unix => settings@.server.hosts[i] is Unix,
        }),
{
}

/// What is said of a configuration and of an error by their views is said of them.
pub proof fn law_config_views(config: PostgresConfig, error: PgConfigError)
    ensures
        config_outcome(Ok(config)) == Ok::<PostgresConfigView, PgConfigErrorView>(
            PostgresConfigView { parsed: config.parsed@, url: config.url@ },
        ),
        config_outcome(Err(error)) == Err::<PostgresConfigView, PgConfigErrorView>(error@),
        url_outcome(Err(error)) == Err::<Seq<char>, PgConfigErrorView>(error@),
        match error {
            PgConfigError::Parse { listen_url, source } => error@ == (PgConfigErrorView::Parse {
                listen_url: listen_url@,
                source: source@,
            }),
            PgConfigError::UnsupportedFields { fields, listen_url } => error@ == (
            PgConfigErrorView::UnsupportedFields {
                fields: fields.deep_view(),
                listen_url: listen_url@,
            }),
            PgConfigError::UnexpectedDatabase { listen_url } => error@ == (
            PgConfigErrorView::UnexpectedDatabase { listen_url: listen_url@ }),
            PgConfigError::KeepalivesDisabled { listen_url } => error@ == (
            PgConfigErrorView::KeepalivesDisabled { listen_url: listen_url@ }),
            PgConfigError::KeepalivesIdle { listen_url } => error@ == (
            PgConfigErrorView::KeepalivesIdle { listen_url: listen_url@ }),
            PgConfigError::SslMode { listen_url } => error@ == (PgConfigErrorView::SslMode {
                listen_url: listen_url@,
            }),
            PgConfigError::HostCount { listen_url } => error@ == (PgConfigErrorView::HostCount {
                listen_url: listen_url@,
            }),
            PgConfigError::NotTcp { listen_url } => error@ == (PgConfigErrorView::NotTcp {
                listen_url: listen_url@,
            }),
            PgConfigError::ParseModified { url, source } => error@ == (
            PgConfigErrorView::ParseModified { url: url@, source: source@ }),
        },
{
}

/// The parts of a URL stand for themselves if and only if they hold none of the
/// characters that end them or are decoded, and there is a database name.
pub proof fn law_plain_parts(user: Seq<char>, host: Seq<char>, dbname: Seq<char>)
    ensures
        plain_parts(user, host, dbname) <==> dbname.len() > 0 && (forall|i: int|
            0 <= i < user.len() ==> (#[trigger] user[i]) != '@' && user[i] != ':' && user[i] != '%')
            && (forall|i: int|
            0 <= i < host.len() ==> (#[trigger] host[i]) != '/' && host[i] != '?' && host[i] != ','
                && host[i] != ']' && host[i] != '%') && (forall|i: int|
            0 <= i < dbname.len() ==> (#[trigger] dbname[i]) != '?' && dbname[i] != '%'),
{
    assert forall|c: char| #[trigger] user.contains(c) <==> exists|i: int|
        0 <= i < user.len() && user[i] == c by {}
    assert forall|c: char| #[trigger] host.contains(c) <==> exists|i: int|
        0 <= i < host.len() && host[i] == c by {}
    assert forall|c: char| #[trigger] dbname.contains(c) <==> exists|i: int|
        0 <= i < dbname.len() && dbname[i] == c by {}
}

/// The settings of a URL are its user, its database, its host and its port, with
/// keepalives at their default, without TLS, and without anything else.
pub proof fn law_database_settings(user: Seq<char>, host: Seq<char>, port: u16, dbname: Seq<char>)
    ensures
        ({
            let settings = database_settings(user, host, port, dbname);
            &&& settings.session.user == Some(user)
            &&& settings.session.dbname == Some(dbname)
            &&& is_plain_session(settings.session)
            &&& settings.session.keepalives
            &&& settings.session.keepalives_idle == 7_200_000_000_000
            &&& settings.server.ssl_mode == SslMode::Disable
            &&& settings.server.hosts == seq![HostView::Tcp(host)]
            &&& settings.server.ports == seq![port]
        }),
{
}

/// What is said of the outcomes of parsing and of making a URL by their views is said of
/// them.
pub proof fn law_outcome_views(settings: PgSettings, error: ParseError, url: String)
    ensures
        parse_outcome(Ok(settings)) == Ok::<PgSettingsView, ParseErrorView>(settings@),
        parse_outcome(Err(error)) == Err::<PgSettingsView, ParseErrorView>(error@),
        url_outcome(Ok(url)) == Ok::<Seq<char>, PgConfigErrorView>(url@),
        error@.text == error.text@,
        error.cause is None ==> error@.cause is None,
        error.cause is Some ==> error@.cause == Some(error.cause->0@),
{
}

/// A URL for clients is asked for only where there is one port for each host, or where
/// that is not looked at.
pub proof fn law_ports_match_hosts(listen_url: Seq<char>, settings: PgSettingsView)
    ensures
        ports_match_hosts(listen_url, settings) <==> settings_error(listen_url, settings) is Some
            || settings.server.hosts.len() == settings.server.ports.len(),
{
}

/// A listen URL in the form in which CockroachDB reports it is known to be that, and
/// what keeps its host and port is the configuration of the test database there.
pub proof fn law_reported_form(
    user: Seq<char>,
    host: Seq<char>,
    port: u16,
    outcome: Result<PostgresConfigView, PgConfigErrorView>,
)
    requires
        plain_parts(user, host, "defaultdb"@),
    ensures
        reported_form(database_url(user, host, port, "defaultdb"@)),
        keeps_host_and_port(database_url(user, host, port, "defaultdb"@), outcome)
            ==> outcome == Ok::<PostgresConfigView, PgConfigErrorView>(
            test_database_config(host, port),
        ),
{
    assert(database_url(user, host, port, "defaultdb"@) == database_url(
        user,
        host,
        port,
        "defaultdb"@,
    ));
}

} // verus!
