use crdb_harness::command::CommandPlan;
use crdb_harness::{CockroachStarter, CockroachStarterBuilder};

fn bytes(s: &str) -> Vec<u8> {
    s.as_bytes().to_vec()
}

fn vars(list: &[(&str, &str)]) -> Vec<(Vec<u8>, Vec<u8>)> {
    list.iter().map(|(k, v)| (bytes(k), bytes(v))).collect()
}

fn starter() -> CockroachStarter {
    CockroachStarterBuilder::new("/out", &vars(&[("PATH", "/bin")])).build("/tmp/x")
}

#[test]
fn default_command_line() {
    let starter = starter();
    assert_eq!(
        starter.cmdline(),
        "/out/cockroachdb/bin/cockroach start-single-node --insecure --http-addr=:0 \
        --store=path=/tmp/x/data,ballast-size=0 --listen-addr [::1]:0 \
        --listening-url-file /tmp/x/listen-url"
    );
    assert_eq!(starter.temp_dir(), "/tmp/x");
    assert_eq!(starter.listen_url_file(), "/tmp/x/listen-url");
    assert_eq!(starter.program(), "/out/cockroachdb/bin/cockroach");
    assert_eq!(*starter.redirect(), None);
}

#[test]
fn default_command_is_what_is_reported() {
    let mut expected = CommandPlan::new("/out/cockroachdb/bin/cockroach");
    expected.env_clear();
    expected.env(b"GOTRACEBACK", b"crash");
    expected.env(b"PATH", b"/bin");
    for arg in [
        "start-single-node",
        "--insecure",
        "--http-addr=:0",
        "--store=path=/tmp/x/data,ballast-size=0",
        "--listen-addr",
        "[::1]:0",
        "--listening-url-file",
        "/tmp/x/listen-url",
    ] {
        expected.arg(arg.as_bytes());
    }
    assert_eq!(*starter().command(), expected);
    assert!(expected.clear_env);
}

#[test]
fn environment_starts_with_the_hardcoded_one() {
    assert_eq!(
        starter().environment(),
        vec![("GOTRACEBACK", "crash"), ("PATH", "/bin")]
    );
}

#[test]
fn environment_of_the_caller_takes_precedence() {
    let given = vars(&[("Z", "1"), ("GOTRACEBACK", "none"), ("A", "2"), ("Z", "3")]);
    let starter = CockroachStarterBuilder::new("/out", &given).build("/tmp/x");
    assert_eq!(
        starter.environment(),
        vec![("A", "2"), ("GOTRACEBACK", "none"), ("Z", "3")]
    );
    assert_eq!(starter.command().env.len(), 5);
}

#[test]
fn environment_that_is_not_text_is_reported_with_replacements() {
    let given = vec![(vec![b'K', 0xff], vec![0xff, b'v'])];
    let starter = CockroachStarterBuilder::new("/out", &given).build("/tmp/x");
    assert_eq!(
        starter.environment(),
        vec![("GOTRACEBACK", "crash"), ("K\u{fffd}", "\u{fffd}v")]
    );
    assert_eq!(starter.command().env[1], given[0]);
}

#[test]
fn raw_builder_runs_the_command_alone() {
    let starter = CockroachStarterBuilder::new_raw("/nonexistent").build("/tmp/y/");
    assert_eq!(
        starter.cmdline(),
        "/nonexistent --store=path=/tmp/y/data,ballast-size=0 --listen-addr [::1]:0 \
        --listening-url-file /tmp/y/listen-url"
    );
    assert_eq!(starter.environment(), vec![]);
    assert!(!starter.command().clear_env);
}

#[test]
fn arguments_and_variables_can_be_added() {
    let mut builder = CockroachStarterBuilder::new_raw("cmd");
    builder.arg(b"not-a-valid-argument");
    builder.arg(&[b'x', 0xff]);
    builder.arg_text("é");
    builder.env(b"K", b"1");
    builder.env(b"K", b"2");
    let starter = builder.build("d");
    assert_eq!(
        starter.cmdline(),
        "cmd not-a-valid-argument x\u{fffd} é --store=path=d/data,ballast-size=0 \
        --listen-addr [::1]:0 --listening-url-file d/listen-url"
    );
    assert_eq!(starter.environment(), vec![("K", "2")]);
    assert_eq!(starter.command().args[1], vec![b'x', 0xff]);
}

#[test]
fn output_goes_to_files_when_asked() {
    let starter = CockroachStarterBuilder::new_raw("cmd")
        .redirect_stdio_to_files()
        .build("/tmp/x");
    let redirect = starter.redirect().as_ref().unwrap();
    assert_eq!(redirect.stdout, "/tmp/x/cockroachdb_stdout");
    assert_eq!(redirect.stderr, "/tmp/x/cockroachdb_stderr");
}

#[test]
fn instances_in_different_directories_are_apart() {
    let first = CockroachStarterBuilder::new_raw("cmd").build("/tmp/a");
    let second = CockroachStarterBuilder::new_raw("cmd").build("/tmp/b");
    assert_ne!(first.listen_url_file(), second.listen_url_file());
    assert_ne!(first.command().args[0], second.command().args[0]);
    assert!(first.cmdline().contains("/tmp/a/") && !first.cmdline().contains("/tmp/b/"));
    assert!(second.cmdline().contains("/tmp/b/") && !second.cmdline().contains("/tmp/a/"));
}
