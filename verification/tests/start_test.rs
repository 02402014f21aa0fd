use crdb_harness::exit::{interpret_exit, process_exited, ExitStatus};
use crdb_harness::pg_config::{make_pg_config, PgConfigError};
use crdb_harness::start::{
    ListenFile, StartAction, StartEvent, StartOutcome, StartRun, POLL_INTERVAL_MS,
    START_TIMEOUT_MS,
};
use crdb_harness::version::{check_version_text, version_command, CommandOutput};
use crdb_harness::{check_db_version, CockroachInstance, CockroachStartError, CockroachStarterBuilder};

fn run() -> StartRun {
    let vars = vec![];
    CockroachStarterBuilder::new("/out", &vars)
        .build("/tmp/x")
        .start("/out/cockroachdb/bin/cockroach", "v22.1.9\n")
}

fn printed(stdout: &str) -> Result<CommandOutput, String> {
    Ok(CommandOutput {
        success: true,
        code: Some(0),
        stdout: stdout.as_bytes().to_vec(),
        stderr: vec![],
    })
}

fn status(code: Option<i32>, signal: Option<i32>) -> ExitStatus {
    ExitStatus {
        code,
        signal,
        description: String::from("unix_wait_status(0)"),
    }
}

fn contents(text: &str) -> StartEvent {
    StartEvent::FileRead(ListenFile::Contents(String::from(text)))
}

fn failure(action: StartAction) -> (CockroachStartError, bool) {
    match action {
        StartAction::Finish(StartOutcome::Failed {
            error,
            keep_temp_dir,
        }) => (error, keep_temp_dir),
        other => panic!("unexpected action: {:?}", other),
    }
}

/// Takes a start to where the database process runs.
fn spawned() -> StartRun {
    let mut run = run();
    assert!(matches!(
        run.step(StartEvent::Begin),
        StartAction::RunVersionCommand
    ));
    assert!(matches!(
        run.step(StartEvent::VersionRun(printed("v22.1.9\n"))),
        StartAction::Spawn
    ));
    assert!(matches!(
        run.step(StartEvent::Spawned(Ok(77))),
        StartAction::CheckExit
    ));
    run
}

fn started(action: StartAction) -> CockroachInstance {
    match action {
        StartAction::Finish(StartOutcome::Started(instance)) => instance,
        other => panic!("unexpected action: {:?}", other),
    }
}

#[test]
fn start_ends_with_a_running_database() {
    let mut run = spawned();
    assert!(matches!(
        run.step(StartEvent::ExitChecked(None)),
        StartAction::ReadListenFile
    ));
    assert!(matches!(
        run.step(StartEvent::FileRead(ListenFile::NotFound)),
        StartAction::Sleep(100)
    ));
    assert!(matches!(run.step(StartEvent::Slept), StartAction::CheckExit));
    assert!(matches!(
        run.step(StartEvent::ExitChecked(None)),
        StartAction::ReadListenFile
    ));
    // The file hasn't been fully written yet.
    assert!(matches!(
        run.step(contents("postgresql://root@[::1]:459")),
        StartAction::Sleep(100)
    ));
    assert!(matches!(run.step(StartEvent::Slept), StartAction::CheckExit));
    assert!(matches!(
        run.step(StartEvent::ExitChecked(None)),
        StartAction::ReadListenFile
    ));
    let instance = started(run.step(contents(
        "postgresql://root@[::1]:45913/defaultdb?sslmode=disable\n",
    )));
    assert_eq!(instance.pid(), 77);
    assert_eq!(instance.temp_dir(), "/tmp/x");
    assert_eq!(
        instance.pg_config().url,
        "postgresql://root@[::1]:45913/test?sslmode=disable"
    );
}

#[test]
fn start_fails_when_the_version_cannot_be_had() {
    let (error, keep) =
        failure(run().step(StartEvent::VersionRun(Err(String::from("not found")))));
    assert_eq!(
        error,
        CockroachStartError::BadCmd {
            cmd: String::from("/out/cockroachdb/bin/cockroach"),
            source: String::from("not found"),
        }
    );
    assert!(!keep);
}

#[test]
fn start_fails_on_another_version() {
    let (error, keep) = failure(run().step(StartEvent::VersionRun(printed("v21.1\n"))));
    assert!(matches!(error, CockroachStartError::BadVersion { .. }));
    assert!(!keep);
}

#[test]
fn start_fails_when_the_command_cannot_be_run() {
    let starter = CockroachStarterBuilder::new_raw("/nonexistent").build("/tmp/x");
    let mut run = starter.start("bin", "v1");
    let event = StartEvent::Spawned(Err(String::from("No such file or directory")));
    let (error, keep) = failure(run.step(event));
    assert_eq!(
        error.to_string(),
        "running \"/nonexistent\" (is the binary installed and on your PATH?)"
    );
    assert!(!keep);
}

#[test]
fn start_fails_when_the_process_ends() {
    let mut run = spawned();
    let (error, keep) = failure(run.step(StartEvent::ExitChecked(Some(status(Some(1), None)))));
    assert_eq!(error, CockroachStartError::Exited { exit_code: 1 });
    assert!(keep);
}

#[test]
fn start_fails_when_the_file_cannot_be_read() {
    let mut run = spawned();
    let event = StartEvent::FileRead(ListenFile::Failed(String::from("denied")));
    let (error, keep) = failure(run.step(event));
    assert_eq!(
        error,
        CockroachStartError::Unknown {
            source: String::from("checking listen file \"/tmp/x/listen-url\""),
            cause: Some(String::from("denied")),
        }
    );
    assert_eq!(
        error.to_string(),
        "unknown error waiting for cockroach to start"
    );
    assert!(keep);
}

#[test]
fn start_fails_on_a_bad_listen_url() {
    let mut run = spawned();
    let (error, keep) = failure(run.step(contents("postgresql://root@[::1]:1/defaultdb \n\n")));
    assert_eq!(
        error,
        CockroachStartError::BadListenUrl {
            listen_url: String::from("postgresql://root@[::1]:1/defaultdb"),
            source: PgConfigError::SslMode {
                listen_url: String::from("postgresql://root@[::1]:1/defaultdb"),
            },
        }
    );
    assert_eq!(
        error.to_string(),
        "error parsing listen URL \"postgresql://root@[::1]:1/defaultdb\""
    );
    assert!(keep);
}

#[test]
fn start_sets_a_difference_of_ports_and_hosts_apart() {
    let mut run = spawned();
    assert!(matches!(
        run.step(contents("sslmode=disable port=1,2 host=a\n")),
        StartAction::Finish(StartOutcome::PortsDiffer)
    ));
}

#[test]
fn start_times_out() {
    let mut run = spawned();
    let mut slept = 0;
    loop {
        assert!(matches!(
            run.step(StartEvent::ExitChecked(None)),
            StartAction::ReadListenFile
        ));
        match run.step(StartEvent::FileRead(ListenFile::NotFound)) {
            StartAction::Sleep(ms) => slept += ms,
            action => {
                let (error, keep) = failure(action);
                assert_eq!(
                    error,
                    CockroachStartError::Unknown {
                        source: String::from(
                            "timed out after 30000 ms of waiting for the listening URL"
                        ),
                        cause: None,
                    }
                );
                assert!(keep);
                break;
            }
        }
        assert!(matches!(run.step(StartEvent::Slept), StartAction::CheckExit));
    }
    assert_eq!(slept, START_TIMEOUT_MS);
    assert_eq!(POLL_INTERVAL_MS, 100);
}

#[test]
fn version_command_asks_for_the_build_tag() {
    let command = version_command("/bin/db");
    assert_eq!(command.program, "/bin/db");
    assert_eq!(
        command.args,
        vec![b"version".to_vec(), b"--build-tag".to_vec()]
    );
    assert_eq!(
        command.env,
        vec![(b"GOTRACEBACK".to_vec(), b"crash".to_vec())]
    );
    assert!(!command.clear_env);
}

#[test]
fn version_may_be_dirty() {
    for stdout in ["v1.2", " v1.2\n", "v1.2-dirty\n", "v1.2-dirty-dirty"] {
        assert_eq!(check_db_version("bin", "v1.2\n", printed(stdout)), Ok(()));
    }
    for (stdout, found) in [
        ("v1.2-dirty-dirty-dirty", "v1.2-dirty"),
        ("v1.3\n", "v1.3"),
        ("", ""),
        ("v1.2 -dirty", "v1.2 "),
    ] {
        assert_eq!(
            check_db_version("bin", "v1.2\n", printed(stdout)),
            Err(CockroachStartError::BadVersion {
                expected: String::from("v1.2"),
                found: Ok(String::from(found)),
                stdout: String::from(stdout),
                stderr: String::new(),
            })
        );
    }
    // An expected version that says so itself is never found.
    assert!(check_db_version("bin", "v1-dirty", printed("v1-dirty")).is_err());
}

#[test]
fn version_command_may_fail() {
    let output = CommandOutput {
        success: false,
        code: Some(-3),
        stdout: vec![b'o', 0xff],
        stderr: b"e".to_vec(),
    };
    let error = check_db_version("bin", "v1", Ok(output)).unwrap_err();
    assert_eq!(
        error.text_with("error Some(-3) when checking CockroachDB version"),
        "wrong version of CockroachDB installed. expected 'v1', found: \
        'Err(error Some(-3) when checking CockroachDB version)\n\
        stdout:\no\u{fffd}\n\nstderr:\ne\n"
    );
    // A stack backtrace follows the reason where the environment asks for one.
    let text = error.to_string();
    assert!(text.starts_with(
        "wrong version of CockroachDB installed. expected 'v1', found: \
        'Err(error Some(-3) when checking CockroachDB version"
    ));
    assert!(text.ends_with(")\nstdout:\no\u{fffd}\n\nstderr:\ne\n"));
    let output = CommandOutput {
        success: false,
        code: None,
        stdout: vec![],
        stderr: vec![],
    };
    assert_eq!(
        check_db_version("bin", "v1", Ok(output)),
        Err(CockroachStartError::BadVersion {
            expected: String::from("v1"),
            found: Err(String::from(
                "error None when checking CockroachDB version"
            )),
            stdout: String::new(),
            stderr: String::new(),
        })
    );
}

#[test]
fn version_texts_are_judged() {
    let text = |stdout: &str| check_version_text("v1", true, Some(0), String::from(stdout), String::new());
    assert_eq!(text("v1-dirty\n"), Ok(()));
    assert!(text("v2").is_err());
    assert_eq!(
        check_version_text("v1", false, Some(1), String::from("v1"), String::from("e")),
        Err(CockroachStartError::BadVersion {
            expected: String::from("v1"),
            found: Err(String::from(
                "error Some(1) when checking CockroachDB version"
            )),
            stdout: String::from("v1"),
            stderr: String::from("e"),
        })
    );
}

#[test]
fn start_ends_as_the_client_configuration_says() {
    let run = spawned();
    assert!(matches!(
        run.listening_with("url", None),
        StartAction::Finish(StartOutcome::PortsDiffer)
    ));
    let source = PgConfigError::HostCount {
        listen_url: String::from("url"),
    };
    let (error, keep) = failure(run.listening_with("url", Some(Err(source))));
    assert!(matches!(error, CockroachStartError::BadListenUrl { .. }));
    assert!(keep);
    let config = make_pg_config("postgresql://root@[::1]:1/defaultdb?sslmode=disable");
    assert_eq!(started(run.listening_with("url", Some(config))).pid(), 77);
}

#[test]
fn wrong_version_is_described() {
    let error = check_db_version("bin", "v1", printed("v\"2\n")).unwrap_err();
    assert_eq!(
        error.to_string(),
        "wrong version of CockroachDB installed. expected 'v1', found: 'Ok(\"v\\\"2\")\n\
        stdout:\nv\"2\n\n\nstderr:\n\n"
    );
}

#[test]
fn test_process_exit_normal() {
    let exit_status = interpret_exit(status(Some(3), None));
    assert!(matches!(exit_status,
        CockroachStartError::Exited { exit_code } if exit_code == 3
    ));
    assert_eq!(
        exit_status.to_string(),
        "cockroach exited unexpectedly with status 3 (see error output above)"
    );
}

#[test]
fn test_process_exit_abnormal() {
    // A process without an exit status has not exited.
    assert!(process_exited(None).is_none());

    let exit_status = process_exited(Some(status(None, Some(libc::SIGKILL)))).unwrap();
    assert!(matches!(exit_status,
        CockroachStartError::Signaled { signal } if signal == libc::SIGKILL
    ));
    assert_eq!(
        exit_status.to_string(),
        "cockroach unexpectedly terminated by signal 9 (see error output above)"
    );
}

#[test]
fn exit_without_code_or_signal_is_unknown() {
    assert_eq!(
        interpret_exit(status(None, None)),
        CockroachStartError::Unknown {
            source: String::from(
                "process has an exit status, but no exit code nor signal: unix_wait_status(0)"
            ),
            cause: None,
        }
    );
}
