use crdb_harness::checksums::{
    describe_missing, find_value, get_values_from_string, split_line, split_lines, unquote,
};
use crdb_harness::download::{
    cockroach_confirm_binary_works, plan_download, trial_command, verify_checksum, BinaryError,
    BinaryRun, Download, DownloadAction, DownloadEvent, RETRY_ATTEMPTS,
};
use crdb_harness::release::{os_name, plan_release, CopyPlan, Os};

/// The SHA-256 checksum of `abc`.
const ABC: &str = "ba7816bf8f01cfea414140de5dae2223b00361a396177a9cb410ff61f20015ad";

/// The SHA-256 checksum of nothing.
const NOTHING: &str = "e3b0c44298fc1c149afbf4c8996fb92427ae41e4649b934ca495991b7852b855";

const CHECKSUMS: &str =
    "CIDL_SHA256_DARWIN=\"d\"\nCIDL_SHA256_LINUX=\"l\"\nCIDL_SHA256_ILLUMOS=\"i\"\n";

fn strings(list: &[&str]) -> Vec<String> {
    list.iter().map(|s| String::from(*s)).collect()
}

fn read(bytes: &[u8]) -> DownloadEvent {
    DownloadEvent::FileRead(Ok(bytes.to_vec()))
}

fn error<T>(text: &str) -> Result<T, String> {
    Err(String::from(text))
}

#[test]
fn lines_end_with_newlines() {
    for s in ["", "a", "a\n", "a\nb", "\n", "a\r\nb\r", "\r\n\r\n", "a\n\nb\n"] {
        assert_eq!(split_lines(s), s.split('\n').collect::<Vec<&str>>());
    }
}

#[test]
fn quotes_and_equals_signs() {
    for s in ["", "\"", "\"a\"", "\"\"a", "a\"b", "a\"\""] {
        assert_eq!(unquote(s), s.trim_matches('"'));
    }
    for s in ["", "=", "a=b", "a=b=c", "ab", "=b"] {
        assert_eq!(split_line(s), s.split_once('='));
    }
}

#[test]
fn values_come_in_the_order_of_the_keys() {
    let content = "KEY1=\"value1\"\n  KEY2=\"value2\"  \nnothing\nKEY1=\"later\"\n";
    assert_eq!(
        get_values_from_string(&strings(&["KEY2", "KEY1"]), content),
        Ok(strings(&["value2", "value1"]))
    );
    assert_eq!(get_values_from_string(&vec![], content), Ok(vec![]));
    assert_eq!(find_value(&split_lines(content), "KEY1"), Some("value1"));
    assert_eq!(find_value(&split_lines(content), "KEY"), None);
}

#[test]
fn line_endings_do_not_matter() {
    for content in ["A=\"1\"\r\nB=2\r\n", "\n\nA=1\n\tB=\"2\"", "A=1\nB=\"\"2\"\"\r"] {
        assert_eq!(
            get_values_from_string(&strings(&["A", "B"]), content),
            Ok(strings(&["1", "2"]))
        );
    }
}

#[test]
fn missing_keys_are_reported() {
    let missing = get_values_from_string(&strings(&["A", "B", "C"]), "B=1\n").unwrap_err();
    assert_eq!(missing, strings(&["A", "C"]));
    assert_eq!(
        describe_missing(&missing),
        "Could not find keys: [\"A\", \"C\"]"
    );
}

#[test]
fn repeated_keys_are_filled_once() {
    assert_eq!(
        get_values_from_string(&strings(&["A", "A"]), "A=1\n"),
        Ok(strings(&["", "1"]))
    );
}

#[test]
fn operating_systems_have_names() {
    assert_eq!(os_name("linux"), Ok(Os::Linux));
    assert_eq!(os_name("macos"), Ok(Os::Mac));
    assert_eq!(os_name("solaris"), Ok(Os::Illumos));
    assert_eq!(os_name("illumos"), Ok(Os::Illumos));
    assert_eq!(os_name("plan9"), error("OS not supported: plan9"));
    assert_eq!(Os::Mac.env_name(), "DARWIN");
    assert_eq!(Os::Linux.checksum_key(), "CIDL_SHA256_LINUX");
    assert_eq!(Os::Illumos.checksum_key(), "CIDL_SHA256_ILLUMOS");
}

#[test]
fn release_for_linux() {
    let release = plan_release(Os::Linux, "v22.1.9\n", "/out");
    assert_eq!(release.download_dir, "/out/downloads");
    assert_eq!(release.destination_dir, "/out/cockroachdb");
    assert_eq!(release.binary_dir, "/out/cockroachdb/bin");
    assert_eq!(release.binary, "/out/cockroachdb/bin/cockroach");
    assert_eq!(
        release.tarball_url,
        "https://binaries.cockroachdb.com/cockroach-v22.1.9.linux-amd64.tgz"
    );
    assert_eq!(
        release.tarball_path,
        "/out/downloads/cockroach-v22.1.9.linux-amd64.tgz"
    );
    assert_eq!(
        release.copy,
        CopyPlan::File {
            from: String::from("/out/downloads/cockroach-v22.1.9.linux-amd64/cockroach"),
            to: String::from("/out/cockroachdb/bin/cockroach"),
        }
    );
}

#[test]
fn release_for_other_systems() {
    let release = plan_release(Os::Mac, "v1", "out");
    assert_eq!(
        release.tarball_url,
        "https://binaries.cockroachdb.com/cockroach-v1.darwin-10.9-amd64.tgz"
    );
    let release = plan_release(Os::Illumos, "v1", "");
    assert_eq!(
        release.tarball_url,
        "https://oxide-cockroachdb-build.s3.us-west-2.amazonaws.com/cockroach-v1.illumos.tar.gz"
    );
    assert_eq!(
        release.copy,
        CopyPlan::Directory {
            from: String::from("downloads/cockroach-v1"),
            to: String::from("cockroachdb"),
        }
    );
}

#[test]
fn version_with_a_directory_in_it() {
    let release = plan_release(Os::Illumos, "a/b", "/o");
    let path = camino::Utf8Path::new("/o/downloads/cockroach-a/b.illumos.tar.gz");
    assert_eq!(release.tarball_path, path.as_str());
    assert_eq!(
        release.copy,
        CopyPlan::Directory {
            from: path.with_file_name("cockroach-a/b").into_string(),
            to: String::from("/o/cockroachdb"),
        }
    );
}

#[test]
fn download_is_planned() {
    let plan = plan_download("linux", "v1", CHECKSUMS, "/out").unwrap();
    assert_eq!(plan.checksum, "l");
    assert_eq!(plan.release, plan_release(Os::Linux, "v1", "/out"));
    assert_eq!(
        plan_download("illumos", "v1", CHECKSUMS, "/out")
            .unwrap()
            .checksum,
        "i"
    );
    assert_eq!(
        plan_download("plan9", "v1", "", "/out"),
        error("OS not supported: plan9")
    );
    assert_eq!(
        plan_download("macos", "v1", "", "/out"),
        error("Could not find keys: [\"CIDL_SHA256_DARWIN\"]")
    );
}

#[test]
fn missing_file_is_downloaded_and_verified() {
    let mut download = Download::new(ABC);
    assert_eq!(
        download.step(DownloadEvent::Begin { exists: false }),
        DownloadAction::Download(1)
    );
    assert_eq!(
        download.step(DownloadEvent::Downloaded(Ok(()))),
        DownloadAction::ReadFile
    );
    assert_eq!(
        download.step(read(b"abc")),
        DownloadAction::Finish(Ok(()))
    );
}

#[test]
fn right_file_is_not_downloaded() {
    let mut download = Download::new(NOTHING);
    assert_eq!(
        download.step(DownloadEvent::Begin { exists: true }),
        DownloadAction::ReadFile
    );
    assert_eq!(download.step(read(b"")), DownloadAction::ReadFile);
    assert_eq!(download.step(read(b"")), DownloadAction::Finish(Ok(())));
}

#[test]
fn wrong_file_is_downloaded_again() {
    let mut download = Download::new(ABC);
    download.step(DownloadEvent::Begin { exists: true });
    assert_eq!(download.step(read(b"")), DownloadAction::Download(1));
    assert_eq!(
        download.step(DownloadEvent::Downloaded(Ok(()))),
        DownloadAction::ReadFile
    );
    assert_eq!(
        download.step(read(b"")),
        DownloadAction::Finish(Err(format!(
            "Checksum mismatch (saw {NOTHING}, expected {ABC})"
        )))
    );
}

#[test]
fn checksums_are_compared() {
    assert_eq!(verify_checksum("a", "a"), Ok(()));
    assert_eq!(
        verify_checksum("a", "b"),
        error("Checksum mismatch (saw a, expected b)")
    );
}

#[test]
fn download_is_tried_three_times() {
    assert_eq!(RETRY_ATTEMPTS, 3);
    let mut download = Download::new(ABC);
    download.step(DownloadEvent::Begin { exists: false });
    assert_eq!(
        download.step(DownloadEvent::Downloaded(error("first"))),
        DownloadAction::Download(2)
    );
    assert_eq!(
        download.step(DownloadEvent::Downloaded(error("second"))),
        DownloadAction::Download(3)
    );
    assert_eq!(
        download.step(DownloadEvent::Downloaded(error("third"))),
        DownloadAction::Finish(error("third"))
    );
}

#[test]
fn unreadable_file_ends_the_download() {
    let mut download = Download::new(ABC);
    download.step(DownloadEvent::Begin { exists: true });
    assert_eq!(
        download.step(DownloadEvent::FileRead(error("denied"))),
        DownloadAction::Finish(error("denied"))
    );
}

#[test]
fn binary_is_tried_with_its_version_command() {
    let command = trial_command("/bin/db");
    assert_eq!(command.program, "/bin/db");
    assert_eq!(command.args, vec![b"version".to_vec()]);
    assert!(command.env.is_empty());
}

#[test]
fn binary_works_or_not() {
    let run = |success: bool, stderr: &[u8]| {
        Ok(BinaryRun {
            success,
            status: String::from("exit status: 2"),
            stderr: stderr.to_vec(),
        })
    };
    assert_eq!(cockroach_confirm_binary_works("db", run(true, b"x")), Ok(()));
    assert_eq!(
        cockroach_confirm_binary_works("db", run(false, "né".as_bytes()))
            .unwrap_err()
            .to_string(),
        "db failed: exit status: 2 (stderr: né)"
    );
    // Output that is not text is left out.
    assert_eq!(
        cockroach_confirm_binary_works("db", run(false, &[b'x', 0xff]))
            .unwrap_err()
            .to_string(),
        "db failed: exit status: 2 (stderr: )"
    );
    let missing = cockroach_confirm_binary_works("db", error("not found")).unwrap_err();
    assert_eq!(missing.to_string(), "Failed to run db");
    assert_eq!(
        missing,
        BinaryError::NotRun {
            binary: String::from("db"),
            source: String::from("not found"),
        }
    );
}
