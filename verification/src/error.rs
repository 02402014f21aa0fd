//! Why the database could not be started.

use crate::pg_config::{PgConfigError, PgConfigErrorView};
use crate::text::{debug_quoted, quote, signed_decimal, signed_decimal_text};
use vstd::prelude::*;
use vstd::string::*;

verus! {

/// An error of starting CockroachDB. The text of an error from the operating
/// system is its `source`.
#[derive(Debug, PartialEq, Eq)]
#[allow(inconsistent_fields)]
pub enum CockroachStartError {
    /// A command could not be run.
    BadCmd { cmd: String, source: String },
    /// The database that is installed has another version than the one expected,
    /// or its version could not be found.
    BadVersion {
        expected: String,
        found: Result<String, String>,
        stdout: String,
        stderr: String,
    },
    /// The database process exited.
    Exited { exit_code: i32 },
    /// The database process was terminated by a signal.
    Signaled { signal: i32 },
    /// The listen URL that the database reported does not lead to a client
    /// configuration.
    BadListenUrl { listen_url: String, source: PgConfigError },
    /// Something else went wrong: `source` says what, and `cause` is the text of what
    /// caused that, where there is such a thing.
    Unknown { source: String, cause: Option<String> },
}

/// An error, by its texts.
#[allow(inconsistent_fields)]
pub enum StartErrorView {
    BadCmd { cmd: Seq<char>, source: Seq<char> },
    BadVersion {
        expected: Seq<char>,
        found: Result<Seq<char>, Seq<char>>,
        stdout: Seq<char>,
        stderr: Seq<char>,
    },
    Exited { exit_code: i32 },
    Signaled { signal: i32 },
    BadListenUrl { listen_url: Seq<char>, source: PgConfigErrorView },
    Unknown { source: Seq<char>, cause: Option<Seq<char>> },
}

/// Either text of a result.
pub open spec fn found_view(found: Result<String, String>) -> Result<Seq<char>, Seq<char>> {
    match found {
        Ok(version) => Ok(version@),
        Err(text) => Err(text@),
    }
}

impl View for CockroachStartError {
    type V = StartErrorView;

    open spec fn view(&self) -> StartErrorView {
        match self {
            CockroachStartError::BadCmd { cmd, source } => StartErrorView::BadCmd {
                cmd: cmd@,
                source: source@,
            },
            CockroachStartError::BadVersion { expected, found, stdout, stderr } =>
                StartErrorView::BadVersion {
                expected: expected@,
                found: found_view(*found),
                stdout: stdout@,
                stderr: stderr@,
            },
            CockroachStartError::Exited { exit_code } => StartErrorView::Exited {
                exit_code: *exit_code,
            },
            CockroachStartError::Signaled { signal } => StartErrorView::Signaled {
                signal: *signal,
            },
            CockroachStartError::BadListenUrl { listen_url, source } =>
                StartErrorView::BadListenUrl { listen_url: listen_url@, source: source@ },
            CockroachStartError::Unknown { source, cause } => StartErrorView::Unknown {
                source: source@,
                cause: cause.deep_view(),
            },
        }
    }
}

/// The text for a command that could not be run.
pub open spec fn bad_cmd_message(cmd: Seq<char>) -> Seq<char> {
    "running "@ + debug_quoted(cmd) + " (is the binary installed and on your PATH?)"@
}

/// Writes the text for a command that could not be run.
pub fn bad_cmd_text(cmd: &str) -> (r: String)
    ensures
        r@ == bad_cmd_message(cmd@),
{
    "running ".to_owned().concat(quote(cmd).as_str()).concat(
        " (is the binary installed and on your PATH?)",
    )
}

/// The text for a database with another version than the one expected, where `found`
/// is how `{:?}` prints what was found.
pub open spec fn bad_version_message(
    expected: Seq<char>,
    found: Seq<char>,
    stdout: Seq<char>,
    stderr: Seq<char>,
) -> Seq<char> {
    "wrong version of CockroachDB installed. expected '"@ + expected + "', found: '"@ + found
        + "\nstdout:\n"@ + stdout + "\n\nstderr:\n"@ + stderr + "\n"@
}

/// Writes the text for a database with another version than the one expected, where
/// `found` is how `{:?}` prints what was found.
pub fn bad_version_text(expected: &str, found: &str, stdout: &str, stderr: &str) -> (r: String)
    ensures
        r@ == bad_version_message(expected@, found@, stdout@, stderr@),
{
    "wrong version of CockroachDB installed. expected '".to_owned().concat(expected).concat(
        "', found: '",
    ).concat(found).concat("\nstdout:\n").concat(stdout).concat("\n\nstderr:\n").concat(
        stderr,
    ).concat("\n")
}

/// The text for a database process that exited.
pub open spec fn exited_message(exit_code: i32) -> Seq<char> {
    "cockroach exited unexpectedly with status "@ + signed_decimal(exit_code as int)
        + " (see error output above)"@
}

/// Writes the text for a database process that exited.
pub fn exited_text(exit_code: i32) -> (r: String)
    ensures
        r@ == exited_message(exit_code),
{
    "cockroach exited unexpectedly with status ".to_owned().concat(
        signed_decimal_text(exit_code).as_str(),
    ).concat(" (see error output above)")
}

/// The text for a database process that was terminated by a signal.
pub open spec fn signaled_message(signal: i32) -> Seq<char> {
    "cockroach unexpectedly terminated by signal "@ + signed_decimal(signal as int)
        + " (see error output above)"@
}

/// Writes the text for a database process that was terminated by a signal.
pub fn signaled_text(signal: i32) -> (r: String)
    ensures
        r@ == signaled_message(signal),
{
    "cockroach unexpectedly terminated by signal ".to_owned().concat(
        signed_decimal_text(signal).as_str(),
    ).concat(" (see error output above)")
}

/// The text for a listen URL that does not lead to a client configuration.
pub open spec fn bad_listen_url_message(listen_url: Seq<char>) -> Seq<char> {
    "error parsing listen URL "@ + debug_quoted(listen_url)
}

/// Writes the text for a listen URL that does not lead to a client configuration.
pub fn bad_listen_url_text(listen_url: &str) -> (r: String)
    ensures
        r@ == bad_listen_url_message(listen_url@),
{
    "error parsing listen URL ".to_owned().concat(quote(listen_url).as_str())
}

/// The text for what else went wrong.
pub open spec fn unknown_message() -> Seq<char> {
    "unknown error waiting for cockroach to start"@
}

/// Writes the text for what else went wrong.
pub fn unknown_text() -> (r: String)
    ensures
        r@ == unknown_message(),
{
    "unknown error waiting for cockroach to start".to_owned()
}

/// Whether `report` can be how an error with the given message prints in full: the
/// message, and after it nothing, or a blank line and a stack backtrace.
pub open spec fn full_report(message: Seq<char>, report: Seq<char>) -> bool {
    report == message || (message + "\n\nStack backtrace:"@).is_prefix_of(report)
}

/// Prints an error with the given message in full: makes it with `anyhow::Error::msg`
/// and formats it with `{:?}`.
///
/// Not proved: that the message comes first, and that either nothing follows it or a
/// blank line and a stack backtrace, under that heading, do. Whether there is one
/// depends on the environment of this process, and what it holds on where the call
/// is made, so neither is stated.
#[verifier::external_body]
fn report_in_full(message: &str) -> (r: String)
    ensures
        full_report(message@, r@),
{
    format!("{:?}", anyhow::Error::msg(message.to_owned()))
}

impl StartErrorView {
    /// Why the version could not be found, if that is the error.
    pub open spec fn version_failure(self) -> Option<Seq<char>> {
        match self {
            StartErrorView::BadVersion { found: Err(message), .. } => Some(message),
            _ => None,
        }
    }

    /// The text of the error, without that of its source. Where the version could not
    /// be found, `report` is how the reason prints in full.
    pub open spec fn text(self, report: Seq<char>) -> Seq<char> {
        match self {
            StartErrorView::BadCmd { cmd, source } => bad_cmd_message(cmd),
            StartErrorView::BadVersion { expected, found, stdout, stderr } => bad_version_message(
                expected,
                match found {
                    Ok(version) => "Ok("@ + debug_quoted(version) + ")"@,
                    Err(_) => "Err("@ + report + ")"@,
                },
                stdout,
                stderr,
            ),
            StartErrorView::Exited { exit_code } => exited_message(exit_code),
            StartErrorView::Signaled { signal } => signaled_message(signal),
            StartErrorView::BadListenUrl { listen_url, source } => bad_listen_url_message(
                listen_url,
            ),
            StartErrorView::Unknown { source, cause } => unknown_message(),
        }
    }

    /// Whether `text` can be the text of the error: what it is, up to how the reason
    /// prints for which the version could not be found.
    pub open spec fn reads(self, text: Seq<char>) -> bool {
        match self.version_failure() {
            Some(message) => exists|report: Seq<char>|
                full_report(message, report) && text == #[trigger] self.text(report),
            None => text == self.text(Seq::empty()),
        }
    }
}

impl CockroachStartError {
    /// The text of the error, without that of its source. Where the version could not
    /// be found, `report` is how the reason prints in full.
    pub fn text_with(&self, report: &str) -> (r: String)
        ensures
            r@ == self@.text(report@),
    {
        match self {
            CockroachStartError::BadCmd { cmd, .. } => bad_cmd_text(cmd.as_str()),
            CockroachStartError::BadVersion { expected, found, stdout, stderr } => {
                let found_text = match found {
                    Ok(version) => "Ok(".to_owned().concat(
                        quote(version.as_str()).as_str(),
                    ).concat(")"),
                    Err(_) => "Err(".to_owned().concat(report).concat(")"),
                };
                bad_version_text(
                    expected.as_str(),
                    found_text.as_str(),
                    stdout.as_str(),
                    stderr.as_str(),
                )
            },
            CockroachStartError::Exited { exit_code } => exited_text(*exit_code),
            CockroachStartError::Signaled { signal } => signaled_text(*signal),
            CockroachStartError::BadListenUrl { listen_url, .. } => bad_listen_url_text(
                listen_url.as_str(),
            ),
            CockroachStartError::Unknown { .. } => unknown_text(),
        }
    }

    /// The text of the error, without that of its source. The reason for which the
    /// version could not be found is printed in full, with a stack backtrace where
    /// the environment asks for one.
    pub fn to_string(&self) -> (r: String)
        ensures
            self@.reads(r@),
    {
        match self {
            CockroachStartError::BadVersion { found: Err(message), .. } => {
                let report = report_in_full(message.as_str());
                assert(self@.version_failure() == Some(message@));
                self.text_with(report.as_str())
            },
            _ => self.text_with(""),
        }
    }
}

/// Every error reads as a fixed sentence about what it carries: the command and the
/// listen URL in quotes, the versions and the output as they are, and the exit code
/// and the signal as numbers.
pub proof fn law_error_texts(
    quoted: Seq<char>,
    source: Seq<char>,
    cause: Option<Seq<char>>,
    config_error: PgConfigErrorView,
    code: i32,
    report: Seq<char>,
)
    ensures
        (StartErrorView::BadCmd { cmd: quoted, source }).text(report) == "running "@
            + debug_quoted(quoted) + " (is the binary installed and on your PATH?)"@,
        (StartErrorView::Exited { exit_code: code }).text(report)
            == "cockroach exited unexpectedly with status "@ + signed_decimal(code as int)
            + " (see error output above)"@,
        (StartErrorView::Signaled { signal: code }).text(report)
            == "cockroach unexpectedly terminated by signal "@ + signed_decimal(code as int)
            + " (see error output above)"@,
        (StartErrorView::BadListenUrl { listen_url: quoted, source: config_error }).text(report)
            == "error parsing listen URL "@ + debug_quoted(quoted),
        (StartErrorView::Unknown { source, cause }).text(report)
            == "unknown error waiting for cockroach to start"@,
{
}

/// A wrong version is reported with the version that was expected, the one that was
/// found, or why none was, and all output, in this order.
pub proof fn law_bad_version_text(
    expected: Seq<char>,
    version: Seq<char>,
    message: Seq<char>,
    stdout: Seq<char>,
    stderr: Seq<char>,
    report: Seq<char>,
)
    ensures
        ({
            let head = "wrong version of CockroachDB installed. expected '"@ + expected
                + "', found: '"@;
            let tail = "\nstdout:\n"@ + stdout + "\n\nstderr:\n"@ + stderr + "\n"@;
            &&& (StartErrorView::BadVersion { expected, found: Ok(version), stdout, stderr }).text(
                report,
            ) == head + ("Ok("@ + debug_quoted(version) + ")"@) + tail
            &&& (StartErrorView::BadVersion { expected, found: Err(message), stdout, stderr }).text(
                report,
            ) == head + ("Err("@ + report + ")"@) + tail
        }),
{
    let head = "wrong version of CockroachDB installed. expected '"@ + expected + "', found: '"@;
    let tail = "\nstdout:\n"@ + stdout + "\n\nstderr:\n"@ + stderr + "\n"@;
    let found = "Ok("@ + debug_quoted(version) + ")"@;
    assert(bad_version_message(expected, found, stdout, stderr) =~= head + found + tail);
    let found = "Err("@ + report + ")"@;
    assert(bad_version_message(expected, found, stdout, stderr) =~= head + found + tail);
}

/// The text of an error is fixed, but for the report of why no version was found: that
/// is the reason, or the reason and, after a blank line, a stack backtrace.
pub proof fn law_error_reads(error: StartErrorView, text: Seq<char>, report: Seq<char>)
    requires
        error.reads(text),
    ensures
        !(error matches StartErrorView::BadVersion { found: Err(_), .. }) ==> text == error.text(
            report,
        ),
        error matches StartErrorView::BadVersion { found: Err(message), .. } ==> text
            == error.text(message) || exists|trace: Seq<char>|
            text == #[trigger] error.text(message + "\n\nStack backtrace:"@ + trace),
{
    if let StartErrorView::BadVersion { found: Err(message), .. } = error {
        assert(error.version_failure() == Some(message));
        let printed = choose|printed: Seq<char>|
            full_report(message, printed) && text == #[trigger] error.text(printed);
        assert(full_report(message, printed) && text == error.text(printed));
        if printed != message {
            let start = message + "\n\nStack backtrace:"@;
            let trace = printed.skip(start.len() as int);
            assert(printed.take(start.len() as int) == start);
            assert(printed == start + trace);
        }
    }
}

/// What is said of an error by its view is said of the error.
pub proof fn law_error_view(error: CockroachStartError)
    ensures
        match error {
            CockroachStartError::BadCmd { cmd, source } => error@ == (StartErrorView::BadCmd {
                cmd: cmd@,
                source: source@,
            }),
            CockroachStartError::BadVersion { expected, found, stdout, stderr } =>
            error@ matches StartErrorView::BadVersion { expected: e, found: f, stdout: o, stderr: x }
                && e == expected@ && o == stdout@ && x == stderr@ && (match found {
                Ok(version) => f == Ok::<Seq<char>, Seq<char>>(version@),
                Err(message) => f == Err::<Seq<char>, Seq<char>>(message@),
            }),
            CockroachStartError::Exited { exit_code } => error@ == (StartErrorView::Exited {
                exit_code,
            }),
            CockroachStartError::Signaled { signal } => error@ == (StartErrorView::Signaled {
                signal,
            }),
            CockroachStartError::BadListenUrl { listen_url, source } => error@ == (
            StartErrorView::BadListenUrl { listen_url: listen_url@, source: source@ }),
            CockroachStartError::Unknown { source, cause } =>
            error@ matches StartErrorView::Unknown { source: s, cause: c } && s == source@ && (
            match cause {
                Some(text) => c == Some(text@),
                None => c is None,
            }),
        },
{
}

} // verus!
