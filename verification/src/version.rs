//! Whether the database that is installed has the version that is expected.

use crate::command::{CommandPlan, CommandView};
use crate::error::{CockroachStartError, StartErrorView};
use crate::text::{
    decode_lossy, lossy_text, reads_as_text, same_text, signed_decimal, signed_decimal_text, strip_suffix, trim,
    trimmed, without_suffix,
};
use vstd::prelude::*;
use vstd::string::*;
use vstd::utf8::encode_utf8;

verus! {

/// What a finished command left behind.
#[derive(Debug, PartialEq, Eq)]
pub struct CommandOutput {
    /// Whether the command succeeded.
    pub success: bool,
    /// The exit code, if the command exited.
    pub code: Option<i32>,
    pub stdout: Vec<u8>,
    pub stderr: Vec<u8>,
}

/// What a finished command left behind, by its bytes.
pub struct CommandOutputView {
    pub success: bool,
    pub code: Option<i32>,
    pub stdout: Seq<u8>,
    pub stderr: Seq<u8>,
}

impl View for CommandOutput {
    type V = CommandOutputView;

    open spec fn view(&self) -> CommandOutputView {
        CommandOutputView {
            success: self.success,
            code: self.code,
            stdout: self.stdout@,
            stderr: self.stderr@,
        }
    }
}

/// The command that makes the binary print its version.
pub open spec fn version_command_of(bin: Seq<char>) -> CommandView {
    CommandView::of(bin).with_arg(encode_utf8("version"@)).with_arg(
        encode_utf8("--build-tag"@),
    ).with_env(encode_utf8("GOTRACEBACK"@), encode_utf8("crash"@))
}

/// The command that makes the binary print its version.
pub fn version_command(bin: &str) -> (r: CommandPlan)
    ensures
        r@ == version_command_of(bin@),
{
    let mut command = CommandPlan::new(bin);
    command.arg("version".as_bytes());
    command.arg("--build-tag".as_bytes());
    command.env("GOTRACEBACK".as_bytes(), "crash".as_bytes());
    command
}

/// The version that a printed text names. A build tag may say up to twice that
/// it was made from a modified source tree; that is left out.
pub open spec fn named_version(printed: Seq<char>) -> Seq<char> {
    without_suffix(without_suffix(trimmed(printed), "-dirty"@), "-dirty"@)
}

/// An optional number, as `{:?}` writes it.
pub open spec fn optional_number(n: Option<i32>) -> Seq<char> {
    match n {
        Some(n) => "Some("@ + signed_decimal(n as int) + ")"@,
        None => "None"@,
    }
}

/// What is wrong with the version command that ended like this and left these texts,
/// if anything is.
pub open spec fn version_text_error(
    expected: Seq<char>,
    success: bool,
    code: Option<i32>,
    stdout: Seq<char>,
    stderr: Seq<char>,
) -> Option<StartErrorView> {
    let expected = trimmed(expected);
    if !success {
        Some(
            StartErrorView::BadVersion {
                expected,
                found: Err(
                    "error "@ + optional_number(code) + " when checking CockroachDB version"@,
                ),
                stdout,
                stderr,
            },
        )
    } else if named_version(stdout) != expected {
        Some(
            StartErrorView::BadVersion {
                expected,
                found: Ok(named_version(stdout)),
                stdout,
                stderr,
            },
        )
    } else {
        None
    }
}

/// What is wrong with the output of the version command, if anything is.
pub open spec fn version_error(expected: Seq<char>, output: CommandOutputView) -> Option<
    StartErrorView,
> {
    version_text_error(
        expected,
        output.success,
        output.code,
        lossy_text(output.stdout),
        lossy_text(output.stderr),
    )
}

/// What is wrong with the binary `bin`, given how its version command went.
pub open spec fn version_check(
    bin: Seq<char>,
    expected: Seq<char>,
    output: Result<CommandOutputView, Seq<char>>,
) -> Option<StartErrorView> {
    match output {
        Err(source) => Some(StartErrorView::BadCmd { cmd: bin, source }),
        Ok(output) => version_error(expected, output),
    }
}

/// How a command went, by its bytes.
pub open spec fn output_view(output: Result<CommandOutput, String>) -> Result<
    CommandOutputView,
    Seq<char>,
> {
    match output {
        Ok(output) => Ok(output@),
        Err(source) => Err(source@),
    }
}

/// Writes an optional number as `{:?}` does.
fn optional_number_text(n: Option<i32>) -> (r: String)
    ensures
        r@ == optional_number(n),
{
    match n {
        Some(n) => "Some(".to_owned().concat(signed_decimal_text(n).as_str()).concat(")"),
        None => "None".to_owned(),
    }
}

/// Verifies that CockroachDB has the correct version, given how its version command
/// ended and the texts that it left.
pub fn check_version_text(
    expected: &str,
    success: bool,
    code: Option<i32>,
    stdout: String,
    stderr: String,
) -> (r: Result<(), CockroachStartError>)
    ensures
        (match r {
            Ok(_) => None,
            Err(error) => Some(error@),
        }) == version_text_error(expected@, success, code, stdout@, stderr@),
{
    let expected = trim(expected);
    if !success {
        return Err(
            CockroachStartError::BadVersion {
                expected: expected.to_owned(),
                found: Err(
                    "error ".to_owned().concat(optional_number_text(code).as_str()).concat(
                        " when checking CockroachDB version",
                    ),
                ),
                stdout,
                stderr,
            },
        );
    }
    // It's okay if the version found differs only by having the "-dirty"
    // suffix.  This check is really for catching major version mismatches.
    let version = strip_suffix(strip_suffix(trim(stdout.as_str()), "-dirty"), "-dirty");
    if !same_text(version, expected) {
        let found = version.to_owned();
        return Err(
            CockroachStartError::BadVersion {
                expected: expected.to_owned(),
                found: Ok(found),
                stdout,
                stderr,
            },
        );
    }
    Ok(())
}

/// Verifies that CockroachDB has the correct version, given how the command of
/// [`version_command`] went.
pub fn check_db_version(bin: &str, expected: &str, output: Result<CommandOutput, String>) -> (r:
    Result<(), CockroachStartError>)
    ensures
        (match r {
            Ok(_) => None,
            Err(error) => Some(error@),
        }) == version_check(bin@, expected@, output_view(output)),
        output matches Ok(printed) ==> reads_as_text(printed.stdout@) && reads_as_text(
            printed.stderr@,
        ),
{
    match output {
        Ok(output) => {
            let stdout = decode_lossy(output.stdout.as_slice());
            let stderr = decode_lossy(output.stderr.as_slice());
            check_version_text(expected, output.success, output.code, stdout, stderr)
        },
        Err(source) => Err(CockroachStartError::BadCmd { cmd: bin.to_owned(), source }),
    }
}

/// What ends with a suffix loses it, and nothing else.
proof fn lemma_suffix_back(s: Seq<char>, suffix: Seq<char>)
    ensures
        suffix.is_suffix_of(s) ==> s == without_suffix(s, suffix) + suffix,
        suffix.is_suffix_of(s + suffix),
        without_suffix(s + suffix, suffix) == s,
{
    assert((s + suffix).skip((s + suffix).len() - suffix.len()) == suffix);
    assert((s + suffix).take((s + suffix).len() - suffix.len()) == s);
    if suffix.is_suffix_of(s) {
        assert(s == without_suffix(s, suffix) + suffix);
    }
}

/// A database is accepted if and only if its version command succeeds and prints
/// the expected version, alone or with `-dirty` after it once or twice, with any
/// white space around it. The expected version itself does not end with
/// `-dirty`.
pub proof fn law_version_up_to_dirty(expected: Seq<char>, output: CommandOutputView)
    requires
        !"-dirty"@.is_suffix_of(trimmed(expected)),
    ensures
        version_error(expected, output) is None <==> {
            let printed = trimmed(lossy_text(output.stdout));
            output.success && (printed == trimmed(expected) || printed == trimmed(expected)
                + "-dirty"@ || printed == trimmed(expected) + "-dirty"@ + "-dirty"@)
        },
{
    let tag = trimmed(expected);
    let dirty = "-dirty"@;
    let printed = trimmed(lossy_text(output.stdout));
    let once = without_suffix(printed, dirty);
    lemma_suffix_back(tag, dirty);
    lemma_suffix_back(tag + dirty, dirty);
    lemma_suffix_back(printed, dirty);
    lemma_suffix_back(once, dirty);
}

/// Whether a printed text names a version: it is the version, with `-dirty` after it
/// twice, or less often where the version itself does not end like that.
pub open spec fn names_version(printed: Seq<char>, version: Seq<char>) -> bool {
    ||| printed == version + "-dirty"@ + "-dirty"@
    ||| (printed == version || printed == version + "-dirty"@) && forall|front: Seq<char>|
        version != #[trigger] (front + "-dirty"@)
}

/// A printed text names one version, and that is the one that is taken out of it.
proof fn lemma_names_version(text: Seq<char>, version: Seq<char>)
    ensures
        names_version(trimmed(text), version) <==> named_version(text) == version,
{
    let dirty = "-dirty"@;
    let printed = trimmed(text);
    let once = without_suffix(printed, dirty);
    lemma_suffix_back(version, dirty);
    lemma_suffix_back(version + dirty, dirty);
    lemma_suffix_back(printed, dirty);
    lemma_suffix_back(once, dirty);
    if forall|front: Seq<char>| version != #[trigger] (front + dirty) {
        if dirty.is_suffix_of(version) {
            assert(version == without_suffix(version, dirty) + dirty);
        }
    }
    if dirty.is_suffix_of(once) && dirty.is_suffix_of(printed) {
        assert(printed == without_suffix(once, dirty) + dirty + dirty);
    }
    assert forall|front: Seq<char>|
        once == #[trigger] (front + dirty) implies dirty.is_suffix_of(once) by {
        lemma_suffix_back(front, dirty);
    }
    assert forall|front: Seq<char>|
        printed == #[trigger] (front + dirty) implies dirty.is_suffix_of(printed) by {
        lemma_suffix_back(front, dirty);
    }
}

/// The binary is accepted if and only if its version command could be run, succeeded,
/// and printed a text that names the expected version. White space around either is
/// left out.
pub proof fn law_right_version_is_accepted(
    bin: Seq<char>,
    expected: Seq<char>,
    output: CommandOutputView,
)
    ensures
        version_check(bin, expected, Ok(output)) is None <==> output.success && names_version(
            trimmed(lossy_text(output.stdout)),
            trimmed(expected),
        ),
{
    lemma_names_version(lossy_text(output.stdout), trimmed(expected));
}

/// The same of texts that are judged by themselves.
pub proof fn law_right_version_text_is_accepted(
    expected: Seq<char>,
    success: bool,
    code: Option<i32>,
    stdout: Seq<char>,
    stderr: Seq<char>,
)
    ensures
        version_text_error(expected, success, code, stdout, stderr) is None <==> success
            && names_version(trimmed(stdout), trimmed(expected)),
{
    lemma_names_version(stdout, trimmed(expected));
}

/// A binary with another version is refused with the version that was expected, the
/// one that it names, and all that it printed.
pub proof fn law_other_version_is_reported(
    bin: Seq<char>,
    expected: Seq<char>,
    output: CommandOutputView,
    version: Seq<char>,
)
    requires
        output.success,
        names_version(trimmed(lossy_text(output.stdout)), version),
        version != trimmed(expected),
    ensures
        version_check(bin, expected, Ok(output)) == Some(
            StartErrorView::BadVersion {
                expected: trimmed(expected),
                found: Ok(version),
                stdout: lossy_text(output.stdout),
                stderr: lossy_text(output.stderr),
            },
        ),
        version_text_error(
            expected,
            true,
            output.code,
            lossy_text(output.stdout),
            lossy_text(output.stderr),
        ) == version_check(bin, expected, Ok(output)),
{
    lemma_names_version(lossy_text(output.stdout), version);
}

/// A version command that fails is reported with its exit code, whatever it printed;
/// one that cannot be run, with the binary and the reason.
pub proof fn law_failed_version_command(
    bin: Seq<char>,
    expected: Seq<char>,
    output: CommandOutputView,
    source: Seq<char>,
)
    requires
        !output.success,
    ensures
        version_check(bin, expected, Ok(output)) == Some(
            StartErrorView::BadVersion {
                expected: trimmed(expected),
                found: Err(
                    "error "@ + (match output.code {
                        Some(code) => "Some("@ + signed_decimal(code as int) + ")"@,
                        None => "None"@,
                    }) + " when checking CockroachDB version"@,
                ),
                stdout: lossy_text(output.stdout),
                stderr: lossy_text(output.stderr),
            },
        ),
        version_text_error(
            expected,
            false,
            output.code,
            lossy_text(output.stdout),
            lossy_text(output.stderr),
        ) == version_check(bin, expected, Ok(output)),
        version_check(bin, expected, Err(source)) == Some(
            StartErrorView::BadCmd { cmd: bin, source },
        ),
{
}

/// The version command runs the binary with two arguments and one variable more than
/// this process has.
pub proof fn law_version_command(bin: Seq<char>)
    ensures
        version_command_of(bin) == (CommandView {
            program: bin,
            args: seq![encode_utf8("version"@), encode_utf8("--build-tag"@)],
            clear_env: false,
            env: seq![(encode_utf8("GOTRACEBACK"@), encode_utf8("crash"@))],
        }),
{
    assert(version_command_of(bin).args =~= seq![
        encode_utf8("version"@),
        encode_utf8("--build-tag"@),
    ]);
    assert(version_command_of(bin).env =~= seq![
        (encode_utf8("GOTRACEBACK"@), encode_utf8("crash"@)),
    ]);
}

/// What is said of the output of a command by its view is said of the output.
pub proof fn law_output_view(output: CommandOutput, source: String)
    ensures
        output_view(Ok(output)) == Ok::<CommandOutputView, Seq<char>>(
            CommandOutputView {
                success: output.success,
                code: output.code,
                stdout: output.stdout@,
                stderr: output.stderr@,
            },
        ),
        output_view(Err(source)) == Err::<CommandOutputView, Seq<char>>(source@),
{
}

} // verus!
