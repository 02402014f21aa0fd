//! The steps of starting the database: what to do next, given what happened.

use crate::error::{CockroachStartError, StartErrorView};
use crate::exit::{exit_error, process_exited, ExitStatus, ExitStatusView};
use crate::instance::{CockroachInstance, InstanceView};
use crate::pg_config::{
    config_outcome, database_url, keeps_parsed_host_and_port, listen_ports_match, parsed_settings,
    pg_config_of, plain_parts, reads_client_url, reads_database_url, test_database_config,
    try_make_pg_config, PgConfigError, PgConfigErrorView, PostgresConfig,
    PostgresConfigView,
};
use crate::starter::{CockroachStarter, StarterView};
use crate::text::{
    contains_char, debug_quoted, decimal, decimal_text, is_blank, is_white_space, law_trimmed_end,
    lossy_text, quote, reads_as_text, trim_end, trimmed, trimmed_end,
};
use crate::version::{
    check_db_version, law_right_version_is_accepted, names_version, output_view, version_check,
    CommandOutput, CommandOutputView,
};
use vstd::prelude::*;
use vstd::string::*;

verus! {

/// How long to sleep before the listening URL is looked for again.
pub const POLL_INTERVAL_MS: u64 = 100;

/// How long to wait, in all, for the database to report its listening URL.
pub const START_TIMEOUT_MS: u64 = 30_000;

/// A start of the database that is under way.
#[derive(Debug)]
pub struct StartRun {
    /// the binary whose version is checked
    bin: String,
    /// the version that it should have
    expected_version: String,
    /// the program that is run
    cmd: String,
    /// path to listen URL file
    listen_url_file: String,
    /// path to temporary directory
    temp_dir: String,
    /// child process id, once there is one
    pid: u32,
    /// how long the listening URL was waited for
    waited_ms: u64,
}

/// A start that is under way, by its texts.
#[verifier::ext_equal]
pub struct StartRunView {
    pub bin: Seq<char>,
    pub expected_version: Seq<char>,
    pub cmd: Seq<char>,
    pub listen_url_file: Seq<char>,
    pub temp_dir: Seq<char>,
    pub pid: u32,
    pub waited_ms: u64,
}

impl View for StartRun {
    type V = StartRunView;

    closed spec fn view(&self) -> StartRunView {
        StartRunView {
            bin: self.bin@,
            expected_version: self.expected_version@,
            cmd: self.cmd@,
            listen_url_file: self.listen_url_file@,
            temp_dir: self.temp_dir@,
            pid: self.pid,
            waited_ms: self.waited_ms,
        }
    }
}

/// What reading the listen URL file gave.
#[derive(Debug, PartialEq, Eq)]
pub enum ListenFile {
    /// The file, as far as it is written.
    Contents(String),
    /// There is no such file yet.
    NotFound,
    /// The file could not be read; this is the text of the error.
    Failed(String),
}

/// What has happened while the database is started.
#[derive(Debug, PartialEq, Eq)]
pub enum StartEvent {
    /// The start begins.
    Begin,
    /// The version command ended, or could not be run.
    VersionRun(Result<CommandOutput, String>),
    /// The database process was started, with this pid, or could not be.
    Spawned(Result<u32, String>),
    /// The database process was looked at: it has ended like this, or it runs.
    ExitChecked(Option<ExitStatus>),
    /// The listen URL file was read.
    FileRead(ListenFile),
    /// The time to sleep is over.
    Slept,
}

/// How a start ended.
#[derive(Debug)]
pub enum StartOutcome {
    /// The database runs.
    Started(CockroachInstance),
    /// The start failed. If the temporary directory is kept, the database may
    /// still be running, and the user can debug it.
    Failed { error: CockroachStartError, keep_temp_dir: bool },
    /// The listening URL leads to a different number of ports than hosts, which
    /// breaks an assumption of the harness.
    PortsDiffer,
}

/// What to do next to start the database.
#[derive(Debug)]
pub enum StartAction {
    /// Run the version command of the binary.
    RunVersionCommand,
    /// Start the database process.
    Spawn,
    /// See whether the database process has ended.
    CheckExit,
    /// Read the listen URL file.
    ReadListenFile,
    /// Sleep for this many milliseconds.
    Sleep(u64),
    /// Nothing: the start has ended.
    Finish(StartOutcome),
}

/// What reading the listen URL file gave, by its texts.
pub enum ListenFileView {
    Contents(Seq<char>),
    NotFound,
    Failed(Seq<char>),
}

/// What has happened, by its texts.
pub enum StartEventView {
    Begin,
    VersionRun(Result<CommandOutputView, Seq<char>>),
    Spawned(Result<u32, Seq<char>>),
    ExitChecked(Option<ExitStatusView>),
    FileRead(ListenFileView),
    Slept,
}

/// How a start ended, by its texts.
pub enum StartOutcomeView {
    Started(InstanceView),
    Failed { error: StartErrorView, keep_temp_dir: bool },
    PortsDiffer,
}

/// What to do next, by its texts.
pub enum StartActionView {
    RunVersionCommand,
    Spawn,
    CheckExit,
    ReadListenFile,
    Sleep(u64),
    Finish(StartOutcomeView),
}

impl View for ListenFile {
    type V = ListenFileView;

    open spec fn view(&self) -> ListenFileView {
        match self {
            ListenFile::Contents(text) => ListenFileView::Contents(text@),
            ListenFile::NotFound => ListenFileView::NotFound,
            ListenFile::Failed(text) => ListenFileView::Failed(text@),
        }
    }
}

/// The outcome of starting the process, by the text of its error.
pub open spec fn spawn_view(r: Result<u32, String>) -> Result<u32, Seq<char>> {
    match r {
        Ok(pid) => Ok(pid),
        Err(source) => Err(source@),
    }
}

impl View for StartEvent {
    type V = StartEventView;

    open spec fn view(&self) -> StartEventView {
        match self {
            StartEvent::Begin => StartEventView::Begin,
            StartEvent::VersionRun(output) => StartEventView::VersionRun(output_view(*output)),
            StartEvent::Spawned(r) => StartEventView::Spawned(spawn_view(*r)),
            StartEvent::ExitChecked(status) => StartEventView::ExitChecked(status.deep_view()),
            StartEvent::FileRead(file) => StartEventView::FileRead(file@),
            StartEvent::Slept => StartEventView::Slept,
        }
    }
}

impl View for StartOutcome {
    type V = StartOutcomeView;

    open spec fn view(&self) -> StartOutcomeView {
        match self {
            StartOutcome::Started(instance) => StartOutcomeView::Started(instance@),
            StartOutcome::Failed { error, keep_temp_dir } => StartOutcomeView::Failed {
                error: error@,
                keep_temp_dir: *keep_temp_dir,
            },
            StartOutcome::PortsDiffer => StartOutcomeView::PortsDiffer,
        }
    }
}

impl View for StartAction {
    type V = StartActionView;

    open spec fn view(&self) -> StartActionView {
        match self {
            StartAction::RunVersionCommand => StartActionView::RunVersionCommand,
            StartAction::Spawn => StartActionView::Spawn,
            StartAction::CheckExit => StartActionView::CheckExit,
            StartAction::ReadListenFile => StartActionView::ReadListenFile,
            StartAction::Sleep(ms) => StartActionView::Sleep(*ms),
            StartAction::Finish(outcome) => StartActionView::Finish(outcome@),
        }
    }
}

/// The end of a start that failed.
pub open spec fn failed(error: StartErrorView, keep_temp_dir: bool) -> StartActionView {
    StartActionView::Finish(StartOutcomeView::Failed { error, keep_temp_dir })
}

impl StartRunView {
    /// A start that has not done anything yet.
    pub open spec fn fresh(
        starter: StarterView,
        bin: Seq<char>,
        expected_version: Seq<char>,
    ) -> StartRunView {
        StartRunView {
            bin,
            expected_version,
            cmd: starter.args[0],
            listen_url_file: starter.listen_url_file,
            temp_dir: starter.temp_dir,
            pid: 0,
            waited_ms: 0,
        }
    }

    /// The listening URL is not there yet: wait for it, unless that has taken too
    /// long.
    pub open spec fn wait_more(self) -> (StartRunView, StartActionView) {
        if self.waited_ms + POLL_INTERVAL_MS <= START_TIMEOUT_MS {
            (
                StartRunView { waited_ms: (self.waited_ms + POLL_INTERVAL_MS) as u64, ..self },
                StartActionView::Sleep(POLL_INTERVAL_MS),
            )
        } else {
            (
                self,
                failed(
                    StartErrorView::Unknown {
                        source: "timed out after "@ + decimal(self.waited_ms as nat)
                            + " ms of waiting for the listening URL"@,
                        cause: None,
                    },
                    true,
                ),
            )
        }
    }

    /// The end of a start whose listening URL is there and leads to this client
    /// configuration, or to none because its ports and hosts differ in number.
    pub open spec fn listening_with(
        self,
        listen_url: Seq<char>,
        config: Option<Result<PostgresConfigView, PgConfigErrorView>>,
    ) -> StartActionView {
        match config {
            None => StartActionView::Finish(StartOutcomeView::PortsDiffer),
            Some(Ok(pg_config)) => StartActionView::Finish(
                StartOutcomeView::Started(
                    InstanceView {
                        pid: self.pid,
                        pg_config,
                        has_child: true,
                        has_temp_dir: true,
                        temp_dir_path: self.temp_dir,
                    },
                ),
            ),
            Some(Err(source)) => failed(StartErrorView::BadListenUrl { listen_url, source }, true),
        }
    }

    /// The end of a start whose listening URL is there.
    pub open spec fn listening(self, listen_url: Seq<char>) -> StartActionView {
        self.listening_with(
            listen_url,
            if listen_ports_match(listen_url) {
                Some(pg_config_of(listen_url))
            } else {
                None
            },
        )
    }

    /// The start after an event, and what to do next.
    ///
    /// Before the process runs, a failure leaves nothing to debug, and the
    /// temporary directory goes. After that it stays. The listening URL counts as
    /// written only once a newline follows it.
    pub open spec fn after(self, event: StartEventView) -> (StartRunView, StartActionView) {
        match event {
            StartEventView::Begin => (self, StartActionView::RunVersionCommand),
            StartEventView::VersionRun(output) => (
                self,
                match version_check(self.bin, self.expected_version, output) {
                    Some(error) => failed(error, false),
                    None => StartActionView::Spawn,
                },
            ),
            StartEventView::Spawned(Err(source)) => (
                self,
                failed(StartErrorView::BadCmd { cmd: self.cmd, source }, false),
            ),
            StartEventView::Spawned(Ok(pid)) => (
                StartRunView { pid, ..self },
                StartActionView::CheckExit,
            ),
            StartEventView::ExitChecked(Some(status)) => (self, failed(exit_error(status), true)),
            StartEventView::ExitChecked(None) => (self, StartActionView::ReadListenFile),
            StartEventView::FileRead(ListenFileView::Contents(text)) => if text.contains('\n') {
                (self, self.listening(trimmed_end(text)))
            } else {
                self.wait_more()
            },
            StartEventView::FileRead(ListenFileView::NotFound) => self.wait_more(),
            StartEventView::FileRead(ListenFileView::Failed(text)) => (
                self,
                failed(
                    StartErrorView::Unknown {
                        source: "checking listen file "@ + debug_quoted(self.listen_url_file),
                        cause: Some(text),
                    },
                    true,
                ),
            ),
            StartEventView::Slept => (self, StartActionView::CheckExit),
        }
    }
}

/// Whether `action` is right where the listening URL is `listen_url`, in the form
/// in which CockroachDB reports it: the start ends with the test database on the
/// same host and port.
pub open spec fn starts_when_reported(
    run: StartRunView,
    listen_url: Seq<char>,
    action: StartActionView,
) -> bool {
    forall|user: Seq<char>, host: Seq<char>, port: u16|
        listen_url == #[trigger] database_url(user, host, port, "defaultdb"@) && plain_parts(
            user,
            host,
            "defaultdb"@,
        ) ==> action == StartActionView::Finish(
            StartOutcomeView::Started(
                InstanceView {
                    pid: run.pid,
                    pg_config: test_database_config(host, port),
                    has_child: true,
                    has_temp_dir: true,
                    temp_dir_path: run.temp_dir,
                },
            ),
        )
}

/// Whether a listening URL, and the URL for clients that it leads to, are parsed to
/// what they spell out, where their parts stand for themselves; and whether the
/// configuration for clients has the host and port that the listening URL is parsed
/// to.
pub open spec fn reads_listen_url(listen_url: Seq<char>) -> bool {
    &&& reads_database_url(listen_url, parsed_settings(listen_url))
    &&& listen_ports_match(listen_url) ==> {
        &&& reads_client_url(listen_url)
        &&& keeps_parsed_host_and_port(listen_url, pg_config_of(listen_url))
    }
}

impl CockroachStarter {
    /// Starts a new process to run the configured command, after the binary `bin`
    /// was found to have the expected version.
    ///
    /// The start waits up to a fixed timeout for CockroachDB to report its
    /// listening URL.  It fails if the child process exits before that happens or
    /// if the timeout expires. See [`StartRun::step`].
    pub fn start(&self, bin: &str, expected_version: &str) -> (r: StartRun)
        requires
            self.wf(),
        ensures
            r@ == StartRunView::fresh(self@, bin@, expected_version@),
    {
        StartRun {
            bin: bin.to_owned(),
            expected_version: expected_version.to_owned(),
            cmd: self.program(),
            listen_url_file: self.listen_url_file().to_owned(),
            temp_dir: self.temp_dir().to_owned(),
            pid: 0,
            waited_ms: 0,
        }
    }
}

impl StartRun {
    /// The listening URL is not there yet: waits for it, unless that has taken too
    /// long.
    fn wait_more(&mut self) -> (r: StartAction)
        ensures
            (final(self)@, r@) == old(self)@.wait_more(),
    {
        if self.waited_ms <= START_TIMEOUT_MS - POLL_INTERVAL_MS {
            self.waited_ms = self.waited_ms + POLL_INTERVAL_MS;
            StartAction::Sleep(POLL_INTERVAL_MS)
        } else {
            let source = "timed out after ".to_owned().concat(
                decimal_text(self.waited_ms).as_str(),
            ).concat(" ms of waiting for the listening URL");
            StartAction::Finish(
                StartOutcome::Failed {
                    error: CockroachStartError::Unknown { source, cause: None },
                    keep_temp_dir: true,
                },
            )
        }
    }

    /// Ends a start whose listening URL is there and leads to this client
    /// configuration, or to none because its ports and hosts differ in number.
    pub fn listening_with(
        &self,
        listen_url: &str,
        config: Option<Result<PostgresConfig, PgConfigError>>,
    ) -> (r: StartAction)
        ensures
            r@ == self@.listening_with(
                listen_url@,
                match config {
                    Some(outcome) => Some(config_outcome(outcome)),
                    None => None,
                },
            ),
    {
        let outcome = match config {
            None => StartOutcome::PortsDiffer,
            Some(Ok(pg_config)) => StartOutcome::Started(
                CockroachInstance::started(self.pid, pg_config, self.temp_dir.clone()),
            ),
            Some(Err(source)) => StartOutcome::Failed {
                error: CockroachStartError::BadListenUrl {
                    listen_url: listen_url.to_owned(),
                    source,
                },
                keep_temp_dir: true,
            },
        };
        StartAction::Finish(outcome)
    }

    /// Ends a start whose listening URL is there.
    fn listening(&self, listen_url: &str) -> (r: StartAction)
        ensures
            r@ == self@.listening(listen_url@),
            starts_when_reported(self@, listen_url@, r@),
            reads_listen_url(listen_url@),
    {
        self.listening_with(listen_url, try_make_pg_config(listen_url))
    }

    /// Says what to do next, given what happened.
    pub fn step(&mut self, event: StartEvent) -> (r: StartAction)
        ensures
            (final(self)@, r@) == old(self)@.after(event@),
            event@ matches StartEventView::FileRead(ListenFileView::Contents(text)) ==> (
            text.contains('\n') ==> starts_when_reported(old(self)@, trimmed_end(text), r@)),
            event@ matches StartEventView::FileRead(ListenFileView::Contents(text)) ==> (
            text.contains('\n') ==> reads_listen_url(trimmed_end(text))),
            event@ matches StartEventView::VersionRun(Ok(output)) ==> reads_as_text(output.stdout)
                && reads_as_text(output.stderr),
    {
        match event {
            StartEvent::Begin => StartAction::RunVersionCommand,
            StartEvent::VersionRun(output) => {
                match check_db_version(self.bin.as_str(), self.expected_version.as_str(), output) {
                    Ok(_) => StartAction::Spawn,
                    Err(error) => StartAction::Finish(
                        StartOutcome::Failed { error, keep_temp_dir: false },
                    ),
                }
            },
            StartEvent::Spawned(Err(source)) => StartAction::Finish(
                StartOutcome::Failed {
                    error: CockroachStartError::BadCmd { cmd: self.cmd.clone(), source },
                    keep_temp_dir: false,
                },
            ),
            StartEvent::Spawned(Ok(pid)) => {
                self.pid = pid;
                StartAction::CheckExit
            },
            StartEvent::ExitChecked(status) => match process_exited(status) {
                // If CockroachDB is not running, stop waiting for the file.
                Some(error) => StartAction::Finish(
                    StartOutcome::Failed { error, keep_temp_dir: true },
                ),
                None => StartAction::ReadListenFile,
            },
            StartEvent::FileRead(ListenFile::Contents(text)) => if contains_char(
                text.as_str(),
                '\n',
            ) {
                // The file is fully written.
                self.listening(trim_end(text.as_str()))
            } else {
                // The file hasn't been fully written yet.
                self.wait_more()
            },
            StartEvent::FileRead(ListenFile::NotFound) => {
                // The file doesn't exist yet.
                self.wait_more()
            },
            StartEvent::FileRead(ListenFile::Failed(text)) => {
                // Something else has gone wrong.  Stop immediately and report the
                // problem.
                let source = "checking listen file ".to_owned().concat(
                    quote(self.listen_url_file.as_str()).as_str(),
                );
                StartAction::Finish(
                    StartOutcome::Failed {
                        error: CockroachStartError::Unknown { source, cause: Some(text) },
                        keep_temp_dir: true,
                    },
                )
            },
            StartEvent::Slept => StartAction::CheckExit,
        }
    }
}

/// A listening URL that is written out in full, with a newline after it, is read as
/// that URL.
pub proof fn law_reported_line(user: Seq<char>, host: Seq<char>, port: u16, dbname: Seq<char>)
    ensures
        trimmed_end(database_url(user, host, port, dbname) + "\n"@) == database_url(
            user,
            host,
            port,
            dbname,
        ),
        (database_url(user, host, port, dbname) + "\n"@).contains('\n'),
{
    let url = database_url(user, host, port, dbname);
    let line = url + "\n"@;
    reveal_strlit("\n");
    reveal_strlit("?sslmode=disable");
    assert(line.last() == '\n');
    assert(line.drop_last() == url);
    assert(url.last() == 'e');
    assert(trimmed_end(url) == url);
}

/// Whether an event is the answer to an action.
pub open spec fn answers_start(event: StartEventView, action: StartActionView) -> bool {
    match event {
        StartEventView::Begin => false,
        StartEventView::VersionRun(_) => action is RunVersionCommand,
        StartEventView::Spawned(_) => action is Spawn,
        StartEventView::ExitChecked(_) => action is CheckExit,
        StartEventView::FileRead(_) => action is ReadListenFile,
        StartEventView::Slept => action is Sleep,
    }
}

/// The start and the last action, after the start began and then, one by one, the
/// answers in `events` came in.
pub open spec fn start_run(run: StartRunView, events: Seq<StartEventView>) -> (
    StartRunView,
    StartActionView,
)
    decreases events.len(),
{
    if events.len() == 0 {
        run.after(StartEventView::Begin)
    } else {
        start_run(run, events.drop_last()).0.after(events.last())
    }
}

/// Whether each event of a start answers the action before it.
pub open spec fn is_start_run(run: StartRunView, events: Seq<StartEventView>) -> bool
    decreases events.len(),
{
    events.len() > 0 ==> {
        &&& is_start_run(run, events.drop_last())
        &&& answers_start(events.last(), start_run(run, events.drop_last()).1)
    }
}

/// Whether the database process was started in the course of a start.
pub open spec fn was_spawned(events: Seq<StartEventView>) -> bool {
    events.len() >= 2 && events[1] matches StartEventView::Spawned(Ok(_))
}

/// How many times the listening URL was waited for.
spec fn rounds(run: StartRunView) -> int {
    run.waited_ms as int / POLL_INTERVAL_MS as int
}

/// Where a start can be.
spec fn start_stage(run: StartRunView, events: Seq<StartEventView>) -> bool {
    let (now, action) = start_run(run, events);
    let steps = events.len() as int;
    &&& now.waited_ms as int % POLL_INTERVAL_MS as int == 0
    &&& now.waited_ms <= START_TIMEOUT_MS
    &&& now == (StartRunView { pid: now.pid, waited_ms: now.waited_ms, ..run })
    &&& was_spawned(events) ==> events[1] == StartEventView::Spawned(
        Ok::<u32, Seq<char>>(now.pid),
    )
    &&& match action {
        StartActionView::RunVersionCommand => steps == 0 && now == run,
        StartActionView::Spawn => steps == 1 && now == run,
        StartActionView::CheckExit => was_spawned(events) && steps == 2 + 3 * rounds(now),
        StartActionView::ReadListenFile => was_spawned(events) && steps == 3 + 3 * rounds(now),
        StartActionView::Sleep(ms) => was_spawned(events) && steps == 1 + 3 * rounds(now) && ms
            == POLL_INTERVAL_MS,
        StartActionView::Finish(outcome) => steps <= 4 + 3 * rounds(now) && (match outcome {
            StartOutcomeView::Failed { error, keep_temp_dir } => keep_temp_dir == was_spawned(
                events,
            ),
            _ => was_spawned(events),
        }),
    }
}

/// A start stays in its stages.
proof fn lemma_start_stage(run: StartRunView, events: Seq<StartEventView>)
    requires
        run.waited_ms == 0,
        is_start_run(run, events),
    ensures
        start_stage(run, events),
    decreases events.len(),
{
    if events.len() > 0 {
        let front = events.drop_last();
        lemma_start_stage(run, front);
        let (before, action) = start_run(run, front);
        if front.len() >= 2 {
            assert(events[1] == front[1]);
        }
        assert((before.waited_ms + POLL_INTERVAL_MS) as int / POLL_INTERVAL_MS as int == rounds(
            before,
        ) + 1);
    }
}

/// Every start ends: the listening URL is waited for no longer than the timeout,
/// so that after a bounded number of operations the next action is to finish.
pub proof fn law_start_ends(run: StartRunView, events: Seq<StartEventView>)
    requires
        run.waited_ms == 0,
        is_start_run(run, events),
    ensures
        start_run(run, events).0.waited_ms <= START_TIMEOUT_MS,
        events.len() <= 4 + 3 * (START_TIMEOUT_MS as int / POLL_INTERVAL_MS as int),
        events.len() == 4 + 3 * (START_TIMEOUT_MS as int / POLL_INTERVAL_MS as int) ==> start_run(
            run,
            events,
        ).1 is Finish,
{
    lemma_start_stage(run, events);
}

/// A start that fails keeps its temporary directory if and only if the database
/// process was started.
pub proof fn law_temp_dir_kept_once_spawned(run: StartRunView, events: Seq<StartEventView>)
    requires
        run.waited_ms == 0,
        is_start_run(run, events),
    ensures
        start_run(run, events).1 matches StartActionView::Finish(
            StartOutcomeView::Failed { error, keep_temp_dir },
        ) ==> keep_temp_dir == was_spawned(events),
{
    lemma_start_stage(run, events);
}

/// A start succeeds only with a process that was started and, when last looked at,
/// had not ended, and with a listening URL that was completely written. The
/// instance has the pid of that process, the configuration that the URL leads to
/// and the temporary directory of the start.
pub proof fn law_started_means_listening(
    run: StartRunView,
    events: Seq<StartEventView>,
    instance: InstanceView,
)
    requires
        run.waited_ms == 0,
        is_start_run(run, events),
        start_run(run, events).1 == StartActionView::Finish(StartOutcomeView::Started(instance)),
    ensures
        was_spawned(events),
        events[1] == StartEventView::Spawned(Ok::<u32, Seq<char>>(instance.pid)),
        events[events.len() - 2] == StartEventView::ExitChecked(None),
        events.last() matches StartEventView::FileRead(ListenFileView::Contents(text))
            && text.contains('\n') && pg_config_of(trimmed_end(text)) == Ok::<
            PostgresConfigView,
            PgConfigErrorView,
        >(instance.pg_config),
        instance.has_child,
        instance.has_temp_dir,
        instance.temp_dir_path == run.temp_dir,
{
    lemma_start_stage(run, events);
    let front = events.drop_last();
    lemma_start_stage(run, front);
    assert(start_run(run, front).1 is ReadListenFile);
    assert(is_start_run(run, front) && front.len() > 0);
    lemma_start_stage(run, front.drop_last());
    assert(front.last() == events[events.len() - 2]);
}

/// A start that has waited as long as it may fails if the listening URL is still
/// not there, and keeps the temporary directory.
pub proof fn law_timeout_fails_start(run: StartRunView, file: ListenFileView)
    requires
        run.waited_ms + POLL_INTERVAL_MS > START_TIMEOUT_MS,
        file is NotFound || (file matches ListenFileView::Contents(text) && !text.contains('\n')),
    ensures
        run.after(StartEventView::FileRead(file)).1 == failed(
            StartErrorView::Unknown {
                source: "timed out after "@ + decimal(run.waited_ms as nat)
                    + " ms of waiting for the listening URL"@,
                cause: None,
            },
            true,
        ),
{
}

/// A database process that has ended fails the start at once, with the error that
/// its end is.
pub proof fn law_exit_fails_start(run: StartRunView, status: ExitStatusView)
    ensures
        run.after(StartEventView::ExitChecked(Some(status))).1 == failed(exit_error(status), true),
{
}

/// A start is about the binary and the version that it was asked to check, and about
/// the command, the file and the directory of its starter. It has no process, and has
/// not waited.
pub proof fn law_fresh_start(starter: StarterView, bin: Seq<char>, expected_version: Seq<char>)
    ensures
        ({
            let run = StartRunView::fresh(starter, bin, expected_version);
            &&& run.bin == bin
            &&& run.expected_version == expected_version
            &&& run.cmd == starter.args[0]
            &&& run.listen_url_file == starter.listen_url_file
            &&& run.temp_dir == starter.temp_dir
            &&& run.pid == 0
            &&& run.waited_ms == 0
        }),
{
}

/// A start checks the version first. Then it starts the process and remembers its pid.
/// As long as the process runs, it looks at the listen URL file, each time it has
/// slept. None of this changes anything else.
pub proof fn law_start_goes_on(run: StartRunView, pid: u32)
    ensures
        run.after(StartEventView::Begin) == (run, StartActionView::RunVersionCommand),
        run.after(StartEventView::Spawned(Ok(pid))) == (
            StartRunView { pid, ..run },
            StartActionView::CheckExit,
        ),
        run.after(StartEventView::ExitChecked(None)) == (run, StartActionView::ReadListenFile),
        run.after(StartEventView::Slept) == (run, StartActionView::CheckExit),
{
}

/// The process is started if and only if the version command succeeded and printed a
/// text that names the expected version. Otherwise the start fails, with what is wrong,
/// and its temporary directory goes.
pub proof fn law_version_decides_start(
    run: StartRunView,
    output: CommandOutputView,
    source: Seq<char>,
)
    ensures
        output.success && names_version(
            trimmed(lossy_text(output.stdout)),
            trimmed(run.expected_version),
        ) ==> run.after(StartEventView::VersionRun(Ok(output))) == (run, StartActionView::Spawn),
        !(output.success && names_version(
            trimmed(lossy_text(output.stdout)),
            trimmed(run.expected_version),
        )) ==> run.after(StartEventView::VersionRun(Ok(output))) == (
            run,
            StartActionView::Finish(
                StartOutcomeView::Failed {
                    error: version_check(run.bin, run.expected_version, Ok(output))->0,
                    keep_temp_dir: false,
                },
            ),
        ),
        run.after(StartEventView::VersionRun(Err(source))) == (
            run,
            StartActionView::Finish(
                StartOutcomeView::Failed {
                    error: StartErrorView::BadCmd { cmd: run.bin, source },
                    keep_temp_dir: false,
                },
            ),
        ),
{
    law_right_version_is_accepted(run.bin, run.expected_version, output);
}

/// A command that cannot be run fails the start, with the command and the reason, and
/// the temporary directory goes.
pub proof fn law_bad_command_fails_start(run: StartRunView, source: Seq<char>)
    ensures
        run.after(StartEventView::Spawned(Err(source))) == (
            run,
            StartActionView::Finish(
                StartOutcomeView::Failed {
                    error: StartErrorView::BadCmd { cmd: run.cmd, source },
                    keep_temp_dir: false,
                },
            ),
        ),
{
}

/// A process that has ended fails the start with its exit code, if it has one, else
/// with its signal, and the temporary directory stays.
pub proof fn law_ended_process_fails_start(
    run: StartRunView,
    code: i32,
    signal: i32,
    other: Option<i32>,
    description: Seq<char>,
)
    ensures
        run.after(
            StartEventView::ExitChecked(
                Some(ExitStatusView { code: Some(code), signal: other, description }),
            ),
        ) == (
            run,
            StartActionView::Finish(
                StartOutcomeView::Failed {
                    error: StartErrorView::Exited { exit_code: code },
                    keep_temp_dir: true,
                },
            ),
        ),
        run.after(
            StartEventView::ExitChecked(
                Some(ExitStatusView { code: None, signal: Some(signal), description }),
            ),
        ) == (
            run,
            StartActionView::Finish(
                StartOutcomeView::Failed {
                    error: StartErrorView::Signaled { signal },
                    keep_temp_dir: true,
                },
            ),
        ),
        run.after(
            StartEventView::ExitChecked(
                Some(ExitStatusView { code: None, signal: None, description }),
            ),
        ) == (
            run,
            StartActionView::Finish(
                StartOutcomeView::Failed {
                    error: exit_error(ExitStatusView { code: None, signal: None, description }),
                    keep_temp_dir: true,
                },
            ),
        ),
{
}

/// A listen URL file that is not there, or that has no newline in it, however much or
/// little it holds, is not written yet. As long as the timeout is not over, the start
/// sleeps, and counts that; it ends only once the timeout is over.
pub proof fn law_unwritten_file_is_waited_for(run: StartRunView, contents: Seq<char>)
    requires
        !contents.contains('\n'),
    ensures
        run.after(StartEventView::FileRead(ListenFileView::Contents(contents))) == run.after(
            StartEventView::FileRead(ListenFileView::NotFound),
        ),
        run.waited_ms + POLL_INTERVAL_MS <= START_TIMEOUT_MS ==> run.after(
            StartEventView::FileRead(ListenFileView::NotFound),
        ) == (
            StartRunView { waited_ms: (run.waited_ms + POLL_INTERVAL_MS) as u64, ..run },
            StartActionView::Sleep(POLL_INTERVAL_MS),
        ),
        run.waited_ms + POLL_INTERVAL_MS > START_TIMEOUT_MS ==> run.after(
            StartEventView::FileRead(ListenFileView::NotFound),
        ) == (
            run,
            StartActionView::Finish(
                StartOutcomeView::Failed {
                    error: StartErrorView::Unknown {
                        source: "timed out after "@ + decimal(run.waited_ms as nat)
                            + " ms of waiting for the listening URL"@,
                        cause: None,
                    },
                    keep_temp_dir: true,
                },
            ),
        ),
{
}

/// A listen URL file that cannot be read fails the start at once, with the file and the
/// reason, and the temporary directory stays.
pub proof fn law_unreadable_file_fails_start(run: StartRunView, reason: Seq<char>)
    ensures
        run.after(StartEventView::FileRead(ListenFileView::Failed(reason))) == (
            run,
            StartActionView::Finish(
                StartOutcomeView::Failed {
                    error: StartErrorView::Unknown {
                        source: "checking listen file "@ + debug_quoted(run.listen_url_file),
                        cause: Some(reason),
                    },
                    keep_temp_dir: true,
                },
            ),
        ),
{
}

/// A listen URL file that has a newline in it is written. What it holds, without the
/// white space at its end, is the listening URL, and what that leads to ends the start:
/// with an instance that has the process and the directory of the start, or with the
/// URL and what is wrong with it. The directory stays.
pub proof fn law_written_file_ends_start(run: StartRunView, url: Seq<char>, blank: Seq<char>)
    requires
        url.len() > 0 ==> !is_white_space(url.last()),
        is_blank(blank),
        (url + blank).contains('\n'),
    ensures
        ({
            let (after, action) = run.after(
                StartEventView::FileRead(ListenFileView::Contents(url + blank)),
            );
            &&& after == run
            &&& !listen_ports_match(url) ==> action == StartActionView::Finish(
                StartOutcomeView::PortsDiffer,
            )
            &&& listen_ports_match(url) ==> match pg_config_of(url) {
                Ok(pg_config) => action == StartActionView::Finish(
                    StartOutcomeView::Started(
                        InstanceView {
                            pid: run.pid,
                            pg_config,
                            has_child: true,
                            has_temp_dir: true,
                            temp_dir_path: run.temp_dir,
                        },
                    ),
                ),
                Err(source) => action == StartActionView::Finish(
                    StartOutcomeView::Failed {
                        error: StartErrorView::BadListenUrl { listen_url: url, source },
                        keep_temp_dir: true,
                    },
                ),
            }
        }),
{
    law_trimmed_end(url, blank);
}

/// What a client configuration ends a start with is what it ends it with when it is
/// handed over.
pub proof fn law_handed_over_configuration(
    run: StartRunView,
    url: Seq<char>,
    pg_config: PostgresConfigView,
    source: PgConfigErrorView,
)
    ensures
        run.listening_with(url, None) == StartActionView::Finish(StartOutcomeView::PortsDiffer),
        run.listening_with(url, Some(Ok(pg_config))) == StartActionView::Finish(
            StartOutcomeView::Started(
                InstanceView {
                    pid: run.pid,
                    pg_config,
                    has_child: true,
                    has_temp_dir: true,
                    temp_dir_path: run.temp_dir,
                },
            ),
        ),
        run.listening_with(url, Some(Err(source))) == StartActionView::Finish(
            StartOutcomeView::Failed {
                error: StartErrorView::BadListenUrl { listen_url: url, source },
                keep_temp_dir: true,
            },
        ),
{
}

/// The events in which the database process runs and its listen URL file is not
/// written, as many times over as is said.
pub open spec fn waiting(rounds: nat) -> Seq<StartEventView>
    decreases rounds,
{
    if rounds == 0 {
        Seq::empty()
    } else {
        waiting((rounds - 1) as nat) + seq![
            StartEventView::ExitChecked(None),
            StartEventView::FileRead(ListenFileView::NotFound),
            StartEventView::Slept,
        ]
    }
}

/// A database that takes its time is waited for: as long as the timeout is not over,
/// the start looks again, and it has waited one interval for each time that it looked.
#[verifier::spinoff_prover]
pub proof fn law_slow_start_is_waited_for(
    run: StartRunView,
    output: CommandOutputView,
    pid: u32,
    rounds: nat,
)
    requires
        run.waited_ms == 0,
        output.success,
        names_version(trimmed(lossy_text(output.stdout)), trimmed(run.expected_version)),
        rounds * POLL_INTERVAL_MS <= START_TIMEOUT_MS,
    ensures
        ({
            let events = seq![
                StartEventView::VersionRun(Ok(output)),
                StartEventView::Spawned(Ok(pid)),
            ] + waiting(rounds);
            &&& is_start_run(run, events)
            &&& start_run(run, events) == (
                StartRunView { pid, waited_ms: (rounds * POLL_INTERVAL_MS) as u64, ..run },
                StartActionView::CheckExit,
            )
        }),
    decreases rounds,
{
    let version = StartEventView::VersionRun(Ok(output));
    let spawned = StartEventView::Spawned(Ok(pid));
    let head = seq![version, spawned];
    let none = Seq::<StartEventView>::empty();
    law_version_decides_start(run, output, Seq::empty());
    law_start_goes_on(run, pid);
    if rounds == 0 {
        assert(head + waiting(rounds) == head);
        assert(head.drop_last() == seq![version]);
        assert(seq![version].drop_last() == none);
        reveal_with_fuel(is_start_run, 3);
        reveal_with_fuel(start_run, 3);
        assert(start_run(run, none).1 is RunVersionCommand);
        assert(start_run(run, seq![version]).1 is Spawn);
    } else {
        let less = (rounds - 1) as nat;
        assert(less * POLL_INTERVAL_MS + POLL_INTERVAL_MS == rounds * POLL_INTERVAL_MS)
            by (nonlinear_arith)
            requires
                less + 1 == rounds,
        ;
        law_slow_start_is_waited_for(run, output, pid, less);
        let before = head + waiting(less);
        let now = start_run(run, before).0;
        assert(now.waited_ms == less * POLL_INTERVAL_MS);
        law_start_goes_on(now, pid);
        law_unwritten_file_is_waited_for(now, Seq::empty());
        let a = before.push(StartEventView::ExitChecked(None));
        let b = a.push(StartEventView::FileRead(ListenFileView::NotFound));
        let c = b.push(StartEventView::Slept);
        assert(a.drop_last() == before && b.drop_last() == a && c.drop_last() == b);
        assert(a.last() == StartEventView::ExitChecked(None));
        assert(start_run(run, a) == (now, StartActionView::ReadListenFile));
        assert(is_start_run(run, a));
        assert(b.last() == StartEventView::FileRead(ListenFileView::NotFound));
        let after = StartRunView {
            waited_ms: (now.waited_ms + POLL_INTERVAL_MS) as u64,
            ..now
        };
        assert(start_run(run, b) == (after, StartActionView::Sleep(POLL_INTERVAL_MS)));
        assert(is_start_run(run, b));
        law_start_goes_on(after, pid);
        assert(c.last() == StartEventView::Slept);
        assert(start_run(run, c) == (after, StartActionView::CheckExit));
        assert(is_start_run(run, c));
        assert(c == head + waiting(rounds));
    }
}

/// What is said of events and actions of a start by their views is said of them.
pub proof fn law_start_views(event: StartEvent, action: StartAction)
    ensures
        match event {
            StartEvent::Begin => event@ is Begin,
            StartEvent::VersionRun(Ok(output)) => event@ == StartEventView::VersionRun(
                Ok(output@),
            ),
            StartEvent::VersionRun(Err(text)) => event@ == StartEventView::VersionRun(Err(text@)),
            StartEvent::Spawned(Ok(pid)) => event@ == StartEventView::Spawned(Ok(pid)),
            StartEvent::Spawned(Err(text)) => event@ == StartEventView::Spawned(Err(text@)),
            StartEvent::ExitChecked(Some(status)) => event@ == StartEventView::ExitChecked(
                Some(status.deep_view()),
            ),
            StartEvent::ExitChecked(None) => event@ == StartEventView::ExitChecked(None),
            StartEvent::FileRead(ListenFile::Contents(text)) => event@
                == StartEventView::FileRead(ListenFileView::Contents(text@)),
            StartEvent::FileRead(ListenFile::NotFound) => event@ == StartEventView::FileRead(
                ListenFileView::NotFound,
            ),
            StartEvent::FileRead(ListenFile::Failed(text)) => event@ == StartEventView::FileRead(
                ListenFileView::Failed(text@),
            ),
            StartEvent::Slept => event@ is Slept,
        },
        match action {
            StartAction::RunVersionCommand => action@ is RunVersionCommand,
            StartAction::Spawn => action@ is Spawn,
            StartAction::CheckExit => action@ is CheckExit,
            StartAction::ReadListenFile => action@ is ReadListenFile,
            StartAction::Sleep(ms) => action@ == StartActionView::Sleep(ms),
            StartAction::Finish(StartOutcome::Started(instance)) => action@
                == StartActionView::Finish(StartOutcomeView::Started(instance@)),
            StartAction::Finish(StartOutcome::Failed { error, keep_temp_dir }) => action@
                == StartActionView::Finish(
                StartOutcomeView::Failed { error: error@, keep_temp_dir },
            ),
            StartAction::Finish(StartOutcome::PortsDiffer) => action@ == StartActionView::Finish(
                StartOutcomeView::PortsDiffer,
            ),
        },
{
}

/// A database that is waited for and then writes its listening URL in full is started,
/// with the process that runs and the configuration that the URL leads to.
pub proof fn law_slow_start_ends_well(
    run: StartRunView,
    output: CommandOutputView,
    pid: u32,
    rounds: nat,
    url: Seq<char>,
    pg_config: PostgresConfigView,
)
    requires
        run.waited_ms == 0,
        output.success,
        names_version(trimmed(lossy_text(output.stdout)), trimmed(run.expected_version)),
        rounds * POLL_INTERVAL_MS <= START_TIMEOUT_MS,
        url.len() > 0 ==> !is_white_space(url.last()),
        listen_ports_match(url),
        pg_config_of(url) == Ok::<PostgresConfigView, PgConfigErrorView>(pg_config),
    ensures
        ({
            let events = seq![
                StartEventView::VersionRun(Ok(output)),
                StartEventView::Spawned(Ok(pid)),
            ] + waiting(rounds) + seq![
                StartEventView::ExitChecked(None),
                StartEventView::FileRead(ListenFileView::Contents(url + "\n"@)),
            ];
            &&& is_start_run(run, events)
            &&& start_run(run, events).1 == StartActionView::Finish(
                StartOutcomeView::Started(
                    InstanceView {
                        pid,
                        pg_config,
                        has_child: true,
                        has_temp_dir: true,
                        temp_dir_path: run.temp_dir,
                    },
                ),
            )
        }),
{
    law_slow_start_is_waited_for(run, output, pid, rounds);
    let before = seq![StartEventView::VersionRun(Ok(output)), StartEventView::Spawned(Ok(pid))]
        + waiting(rounds);
    let checked = StartEventView::ExitChecked(None);
    let read = StartEventView::FileRead(ListenFileView::Contents(url + "\n"@));
    let now = start_run(run, before).0;
    let a = before.push(checked);
    let b = a.push(read);
    assert(before + seq![checked, read] == b);
    assert(a.drop_last() == before && b.drop_last() == a);
    law_start_goes_on(now, pid);
    assert(start_run(run, a) == (now, StartActionView::ReadListenFile));
    assert(is_start_run(run, a));
    assert(is_start_run(run, b));
    reveal_strlit("\n");
    assert((url + "\n"@)[url.len() as int] == '\n');
    law_written_file_ends_start(now, url, "\n"@);
}

} // verus!
