//! Downloading a file and verifying its checksum: what to do next, given what
//! happened.

use crate::checksums::{
    describe_missing, get_values_from_string, is_plain_key, law_values,
    law_written_value_is_read_back, missing_text, sha256_hex, sha256_hex_of, values_or_missing,
};
use crate::command::{CommandPlan, CommandView};
use crate::instance::outcome_view;
use crate::release::{
    copied_from_download, law_checksum_keys, os_name, os_named, plan_release, release_of, Os, Release, ReleaseView,
};
use crate::text::{decode, joined, same_text, trimmed};
use vstd::prelude::*;
use vstd::string::*;
use vstd::utf8::*;

verus! {

/// A release to download, and the checksum of its archive.
#[derive(Debug, PartialEq, Eq)]
pub struct DownloadPlan {
    pub release: Release,
    pub checksum: String,
}

/// A release to download, by its texts.
pub struct DownloadPlanView {
    pub release: ReleaseView,
    pub checksum: Seq<char>,
}

impl View for DownloadPlan {
    type V = DownloadPlanView;

    open spec fn view(&self) -> DownloadPlanView {
        DownloadPlanView { release: self.release@, checksum: self.checksum@ }
    }
}

/// The checksum of the archive for an operating system, out of the text that lists
/// checksums; the error is a text.
pub open spec fn checksum_for(os: Os, checksums: Seq<char>) -> Result<Seq<char>, Seq<char>> {
    match values_or_missing(checksums, seq![os.checksum_key_text()]) {
        Ok(values) => Ok(values[0]),
        Err(missing) => Err(missing_text(missing)),
    }
}

/// What to download for the operating system with the given name; the error is a
/// text.
pub open spec fn download_plan_of(
    os: Seq<char>,
    version: Seq<char>,
    checksums: Seq<char>,
    out_dir: Seq<char>,
) -> Result<DownloadPlanView, Seq<char>> {
    match os_named(os) {
        Err(text) => Err(text),
        Ok(os) => match checksum_for(os, checksums) {
            Err(text) => Err(text),
            Ok(checksum) => Ok(
                DownloadPlanView { release: release_of(os, version, out_dir), checksum },
            ),
        },
    }
}

/// Plans what to download for the operating system with the given name, and where
/// to put it under `out_dir`. The text `checksums` lists the checksums.
pub fn plan_download(os: &str, version: &str, checksums: &str, out_dir: &str) -> (r: Result<
    DownloadPlan,
    String,
>)
    ensures
        (match r {
            Ok(plan) => Ok(plan@),
            Err(text) => Err(text@),
        }) == download_plan_of(os@, version@, checksums@, out_dir@),
        r matches Ok(plan) ==> (os_named(os@) matches Ok(system) ==> (!trimmed(version@).contains(
            '/',
        ) ==> plan@.release.copy == copied_from_download(system, version@, out_dir@))),
{
    match os_name(os) {
        Err(text) => Err(text),
        Ok(os) => {
            let mut keys: Vec<String> = Vec::new();
            keys.push(os.checksum_key());
            assert(keys.deep_view() == seq![os.checksum_key_text()]);
            match get_values_from_string(&keys, checksums) {
                Err(missing) => Err(describe_missing(&missing)),
                Ok(values) => {
                    assert(values.deep_view().len() == values@.len());
                    Ok(
                        DownloadPlan {
                            release: plan_release(os, version, out_dir),
                            checksum: values[0].clone(),
                        },
                    )
                },
            }
        },
    }
}

/// How many times a download is tried.
pub const RETRY_ATTEMPTS: u64 = 3;

/// A download that is under way.
#[derive(Debug)]
pub struct Download {
    /// the checksum that the file should have
    checksum: String,
    /// how many times the download was tried
    attempts: u64,
    /// whether the file is there, and its checksum decides
    verifying: bool,
}

/// A download that is under way, by its text.
#[verifier::ext_equal]
pub struct DownloadView {
    pub checksum: Seq<char>,
    pub attempts: u64,
    pub verifying: bool,
}

impl View for Download {
    type V = DownloadView;

    closed spec fn view(&self) -> DownloadView {
        DownloadView {
            checksum: self.checksum@,
            attempts: self.attempts,
            verifying: self.verifying,
        }
    }
}

/// What has happened while a file is downloaded.
#[derive(Debug, PartialEq, Eq)]
pub enum DownloadEvent {
    /// The file is there already, or it is not.
    Begin { exists: bool },
    /// The file was read, or could not be.
    FileRead(Result<Vec<u8>, String>),
    /// A download ended, or failed.
    Downloaded(Result<(), String>),
}

/// What to do next to download a file.
#[derive(Debug, PartialEq, Eq)]
pub enum DownloadAction {
    /// Read the file.
    ReadFile,
    /// Download the file; this is the number of the attempt.
    Download(u64),
    /// Nothing: the file is there, or it is not to be had, and this is why.
    Finish(Result<(), String>),
}

/// What has happened, by its texts and bytes.
pub enum DownloadEventView {
    Begin { exists: bool },
    FileRead(Result<Seq<u8>, Seq<char>>),
    Downloaded(Result<(), Seq<char>>),
}

/// What to do next, by its texts.
pub enum DownloadActionView {
    ReadFile,
    Download(u64),
    Finish(Result<(), Seq<char>>),
}

impl View for DownloadEvent {
    type V = DownloadEventView;

    open spec fn view(&self) -> DownloadEventView {
        match self {
            DownloadEvent::Begin { exists } => DownloadEventView::Begin { exists: *exists },
            DownloadEvent::FileRead(Ok(bytes)) => DownloadEventView::FileRead(Ok(bytes@)),
            DownloadEvent::FileRead(Err(text)) => DownloadEventView::FileRead(Err(text@)),
            DownloadEvent::Downloaded(Ok(_)) => DownloadEventView::Downloaded(Ok(())),
            DownloadEvent::Downloaded(Err(text)) => DownloadEventView::Downloaded(Err(text@)),
        }
    }
}

impl View for DownloadAction {
    type V = DownloadActionView;

    open spec fn view(&self) -> DownloadActionView {
        match self {
            DownloadAction::ReadFile => DownloadActionView::ReadFile,
            DownloadAction::Download(attempt) => DownloadActionView::Download(*attempt),
            DownloadAction::Finish(Ok(_)) => DownloadActionView::Finish(Ok(())),
            DownloadAction::Finish(Err(text)) => DownloadActionView::Finish(Err(text@)),
        }
    }
}

/// The error text for a file with another checksum than the one expected.
pub open spec fn mismatch_text(observed: Seq<char>, expected: Seq<char>) -> Seq<char> {
    "Checksum mismatch (saw "@ + observed + ", expected "@ + expected + ")"@
}

/// What is wrong with a file that has the checksum `observed`, if anything is.
pub open spec fn checksum_outcome(observed: Seq<char>, expected: Seq<char>) -> Result<
    (),
    Seq<char>,
> {
    if observed == expected {
        Ok(())
    } else {
        Err(mismatch_text(observed, expected))
    }
}

/// Says whether a file with the checksum `observed` is the one expected.
pub fn verify_checksum(observed: &str, expected: &str) -> (r: Result<(), String>)
    ensures
        outcome_view(r) == checksum_outcome(observed@, expected@),
{
    if same_text(observed, expected) {
        Ok(())
    } else {
        Err(
            "Checksum mismatch (saw ".to_owned().concat(observed).concat(", expected ").concat(
                expected,
            ).concat(")"),
        )
    }
}

impl DownloadView {
    /// A download that has not done anything yet.
    pub open spec fn fresh(checksum: Seq<char>) -> DownloadView {
        DownloadView { checksum, attempts: 0, verifying: false }
    }

    /// The attempt with the given number to download the file.
    pub open spec fn attempt(self, number: u64) -> (DownloadView, DownloadActionView) {
        (
            DownloadView { attempts: number, verifying: true, ..self },
            DownloadActionView::Download(number),
        )
    }

    /// The download after an event, and what to do next. A file that is there
    /// already is downloaded again unless it has the right checksum. In the end the
    /// checksum decides.
    pub open spec fn after(self, event: DownloadEventView) -> (DownloadView, DownloadActionView) {
        match event {
            DownloadEventView::Begin { exists } => if exists {
                (self, DownloadActionView::ReadFile)
            } else {
                self.attempt(1)
            },
            DownloadEventView::FileRead(Err(text)) => (
                self,
                DownloadActionView::Finish(Err(text)),
            ),
            DownloadEventView::FileRead(Ok(bytes)) => if self.verifying {
                (
                    self,
                    DownloadActionView::Finish(
                        checksum_outcome(sha256_hex_of(bytes), self.checksum),
                    ),
                )
            } else if sha256_hex_of(bytes) == self.checksum {
                (DownloadView { verifying: true, ..self }, DownloadActionView::ReadFile)
            } else {
                self.attempt(1)
            },
            DownloadEventView::Downloaded(Ok(_)) => (self, DownloadActionView::ReadFile),
            DownloadEventView::Downloaded(Err(text)) => if self.attempts < RETRY_ATTEMPTS {
                self.attempt((self.attempts + 1) as u64)
            } else {
                (self, DownloadActionView::Finish(Err(text)))
            },
        }
    }
}

impl Download {
    /// A download of a file that should have the given checksum.
    pub fn new(checksum: &str) -> (r: Download)
        ensures
            r@ == DownloadView::fresh(checksum@),
    {
        Download { checksum: checksum.to_owned(), attempts: 0, verifying: false }
    }

    /// Makes the attempt with the given number.
    fn attempt(&mut self, number: u64) -> (r: DownloadAction)
        ensures
            (final(self)@, r@) == old(self)@.attempt(number),
    {
        self.attempts = number;
        self.verifying = true;
        DownloadAction::Download(number)
    }

    /// Says what to do next, given what happened.
    pub fn step(&mut self, event: DownloadEvent) -> (r: DownloadAction)
        ensures
            (final(self)@, r@) == old(self)@.after(event@),
    {
        match event {
            DownloadEvent::Begin { exists } => if exists {
                DownloadAction::ReadFile
            } else {
                self.attempt(1)
            },
            DownloadEvent::FileRead(Err(text)) => DownloadAction::Finish(Err(text)),
            DownloadEvent::FileRead(Ok(bytes)) => {
                let observed = sha256_hex(bytes.as_slice());
                let outcome = verify_checksum(observed.as_str(), self.checksum.as_str());
                if self.verifying {
                    DownloadAction::Finish(outcome)
                } else if outcome.is_ok() {
                    self.verifying = true;
                    DownloadAction::ReadFile
                } else {
                    self.attempt(1)
                }
            },
            DownloadEvent::Downloaded(Ok(_)) => DownloadAction::ReadFile,
            DownloadEvent::Downloaded(Err(text)) => if self.attempts < RETRY_ATTEMPTS {
                self.attempt(self.attempts + 1)
            } else {
                DownloadAction::Finish(Err(text))
            },
        }
    }
}

/// Whether an event is the answer to an action.
pub open spec fn answers_download(event: DownloadEventView, action: DownloadActionView) -> bool {
    match event {
        DownloadEventView::Begin { exists } => false,
        DownloadEventView::FileRead(_) => action is ReadFile,
        DownloadEventView::Downloaded(_) => action is Download,
    }
}

/// The download and the last action, after a download with the given checksum
/// began, of a file that existed or did not, and then, one by one, the answers in
/// `events` came in.
pub open spec fn download_run(
    checksum: Seq<char>,
    exists: bool,
    events: Seq<DownloadEventView>,
) -> (DownloadView, DownloadActionView)
    decreases events.len(),
{
    if events.len() == 0 {
        DownloadView::fresh(checksum).after(DownloadEventView::Begin { exists })
    } else {
        download_run(checksum, exists, events.drop_last()).0.after(events.last())
    }
}

/// Whether each event of a download answers the action before it.
pub open spec fn is_download_run(
    checksum: Seq<char>,
    exists: bool,
    events: Seq<DownloadEventView>,
) -> bool
    decreases events.len(),
{
    events.len() > 0 ==> {
        &&& is_download_run(checksum, exists, events.drop_last())
        &&& answers_download(events.last(), download_run(checksum, exists, events.drop_last()).1)
    }
}

/// Whether the event is that the file was read, and has the given checksum.
pub open spec fn right_file(checksum: Seq<char>, event: DownloadEventView) -> bool {
    match event {
        DownloadEventView::FileRead(Ok(bytes)) => sha256_hex_of(bytes) == checksum,
        _ => false,
    }
}

/// Whether the file was there already, with the given checksum.
pub open spec fn had_file(
    checksum: Seq<char>,
    exists: bool,
    events: Seq<DownloadEventView>,
) -> bool {
    exists && events.len() > 0 && right_file(checksum, events[0])
}

/// Where a download can be.
spec fn download_stage(checksum: Seq<char>, exists: bool, events: Seq<DownloadEventView>) -> bool {
    let (now, action) = download_run(checksum, exists, events);
    let steps = events.len() as int;
    let looks: int = if exists {
        1
    } else {
        0
    };
    &&& now.checksum == checksum
    &&& now.attempts <= RETRY_ATTEMPTS
    &&& now.verifying <==> now.attempts > 0 || had_file(checksum, exists, events)
    &&& had_file(checksum, exists, events) ==> now.attempts == 0 && !(action is Download)
    &&& match action {
        DownloadActionView::Download(number) => now.attempts == number && number >= 1 && steps
            == looks + number - 1,
        DownloadActionView::ReadFile => if now.verifying {
            steps <= looks + RETRY_ATTEMPTS
        } else {
            exists && steps == 0
        },
        DownloadActionView::Finish(r) => steps <= looks + RETRY_ATTEMPTS + 1 && (r is Ok ==> steps
            > 0 && right_file(checksum, events.last())),
    }
}

/// A download stays in its stages.
proof fn lemma_download_stage(checksum: Seq<char>, exists: bool, events: Seq<DownloadEventView>)
    requires
        is_download_run(checksum, exists, events),
    ensures
        download_stage(checksum, exists, events),
    decreases events.len(),
{
    if events.len() > 0 {
        let front = events.drop_last();
        lemma_download_stage(checksum, exists, front);
        if front.len() > 0 {
            assert(events[0] == front[0]);
        }
    }
}

/// Every download ends: no more attempts are made than are allowed, so that after
/// a bounded number of operations the next action is to finish.
pub proof fn law_download_ends(checksum: Seq<char>, exists: bool, events: Seq<DownloadEventView>)
    requires
        is_download_run(checksum, exists, events),
    ensures
        download_run(checksum, exists, events).0.attempts <= RETRY_ATTEMPTS,
        download_run(checksum, exists, events).1 matches DownloadActionView::Download(number)
            ==> 1 <= number <= RETRY_ATTEMPTS,
        events.len() <= RETRY_ATTEMPTS + 2,
        events.len() == RETRY_ATTEMPTS + 2 ==> download_run(checksum, exists, events).1 is Finish,
{
    lemma_download_stage(checksum, exists, events);
}

/// A download succeeds only if the file was read last, and has the right checksum.
pub proof fn law_success_is_verified(
    checksum: Seq<char>,
    exists: bool,
    events: Seq<DownloadEventView>,
)
    requires
        is_download_run(checksum, exists, events),
        download_run(checksum, exists, events).1 == DownloadActionView::Finish(Ok(())),
    ensures
        events.len() > 0,
        right_file(checksum, events.last()),
{
    lemma_download_stage(checksum, exists, events);
}

/// A file that is there already, with the right checksum, is never downloaded.
pub proof fn law_right_file_is_kept(
    checksum: Seq<char>,
    exists: bool,
    events: Seq<DownloadEventView>,
)
    requires
        is_download_run(checksum, exists, events),
        had_file(checksum, exists, events),
    ensures
        download_run(checksum, exists, events).0.attempts == 0,
        !(download_run(checksum, exists, events).1 is Download),
{
    lemma_download_stage(checksum, exists, events);
}

/// What a run of the database binary left behind.
#[derive(Debug, PartialEq, Eq)]
pub struct BinaryRun {
    /// Whether the binary succeeded.
    pub success: bool,
    /// How the binary ended, in words.
    pub status: String,
    pub stderr: Vec<u8>,
}

/// Why a binary is not taken to work.
#[derive(Debug, PartialEq, Eq)]
pub enum BinaryError {
    /// It could not be run; `source` says why.
    NotRun { binary: String, source: String },
    /// It ran and failed.
    Failed { binary: String, status: String, stderr: String },
}

/// What a run of the database binary left behind, by its texts and bytes.
pub struct BinaryRunView {
    pub success: bool,
    pub status: Seq<char>,
    pub stderr: Seq<u8>,
}

/// Why a binary is not taken to work, by the texts.
pub enum BinaryErrorView {
    NotRun { binary: Seq<char>, source: Seq<char> },
    Failed { binary: Seq<char>, status: Seq<char>, stderr: Seq<char> },
}

impl View for BinaryRun {
    type V = BinaryRunView;

    open spec fn view(&self) -> BinaryRunView {
        BinaryRunView { success: self.success, status: self.status@, stderr: self.stderr@ }
    }
}

impl View for BinaryError {
    type V = BinaryErrorView;

    open spec fn view(&self) -> BinaryErrorView {
        match self {
            BinaryError::NotRun { binary, source } => BinaryErrorView::NotRun {
                binary: binary@,
                source: source@,
            },
            BinaryError::Failed { binary, status, stderr } => BinaryErrorView::Failed {
                binary: binary@,
                status: status@,
                stderr: stderr@,
            },
        }
    }
}

impl BinaryErrorView {
    /// The message of the error.
    pub open spec fn text(self) -> Seq<char> {
        match self {
            BinaryErrorView::NotRun { binary, .. } => "Failed to run "@ + binary,
            BinaryErrorView::Failed { binary, status, stderr } => binary + " failed: "@ + status
                + " (stderr: "@ + stderr + ")"@,
        }
    }
}

impl BinaryError {
    /// The message of the error.
    pub fn to_string(&self) -> (r: String)
        ensures
            r@ == self@.text(),
    {
        match self {
            BinaryError::NotRun { binary, .. } => "Failed to run ".to_owned().concat(
                binary.as_str(),
            ),
            BinaryError::Failed { binary, status, stderr } => binary.clone().concat(
                " failed: ",
            ).concat(status.as_str()).concat(" (stderr: ").concat(stderr.as_str()).concat(")"),
        }
    }
}

/// The command that shows whether the binary works.
pub open spec fn trial_command_of(binary: Seq<char>) -> CommandView {
    CommandView::of(binary).with_arg(encode_utf8("version"@))
}

/// The command that shows whether the binary works.
pub fn trial_command(binary: &str) -> (r: CommandPlan)
    ensures
        r@ == trial_command_of(binary@),
{
    let mut command = CommandPlan::new(binary);
    command.arg("version".as_bytes());
    command
}

/// The outcome of a run of the binary, by its texts and bytes.
pub open spec fn binary_run_view(run: Result<BinaryRun, String>) -> Result<
    BinaryRunView,
    Seq<char>,
> {
    match run {
        Ok(run) => Ok(run@),
        Err(source) => Err(source@),
    }
}

/// What is wrong with a binary that was run like this, if anything is. Standard
/// error output that is not UTF-8 is left out of the message.
pub open spec fn binary_error(
    binary: Seq<char>,
    run: Result<BinaryRunView, Seq<char>>,
) -> Option<BinaryErrorView> {
    match run {
        Err(source) => Some(BinaryErrorView::NotRun { binary, source }),
        Ok(run) => if run.success {
            None
        } else {
            Some(
                BinaryErrorView::Failed {
                    binary,
                    status: run.status,
                    stderr: if valid_utf8(run.stderr) {
                        decode_utf8(run.stderr)
                    } else {
                        Seq::empty()
                    },
                },
            )
        },
    }
}

/// Says whether the binary works, given how its run went.
pub fn cockroach_confirm_binary_works(
    binary: &str,
    run: Result<BinaryRun, String>,
) -> (r: Result<(), BinaryError>)
    ensures
        (match r {
            Ok(_) => None,
            Err(error) => Some(error@),
        }) == binary_error(binary@, binary_run_view(run)),
{
    match run {
        Err(source) => Err(BinaryError::NotRun { binary: binary.to_owned(), source }),
        Ok(run) => if run.success {
            Ok(())
        } else {
            let stderr = match decode(run.stderr) {
                Some(text) => text,
                None => "".to_owned(),
            };
            proof {
                reveal_strlit("");
                assert(""@ == Seq::<char>::empty());
            }
            Err(BinaryError::Failed { binary: binary.to_owned(), status: run.status, stderr })
        },
    }
}

/// A file that was found right, or that was downloaded, is accepted if and only if it
/// has the expected checksum when it is read, however many attempts it took. Otherwise
/// both checksums are reported.
pub proof fn law_checksum_decides(download: DownloadView, bytes: Seq<u8>)
    requires
        download.verifying,
    ensures
        sha256_hex_of(bytes) == download.checksum ==> download.after(
            DownloadEventView::FileRead(Ok(bytes)),
        ) == (download, DownloadActionView::Finish(Ok(()))),
        sha256_hex_of(bytes) != download.checksum ==> download.after(
            DownloadEventView::FileRead(Ok(bytes)),
        ) == (
            download,
            DownloadActionView::Finish(
                Err(
                    "Checksum mismatch (saw "@ + sha256_hex_of(bytes) + ", expected "@
                        + download.checksum + ")"@,
                ),
            ),
        ),
{
}

/// The same of checksums that are compared by themselves.
pub proof fn law_checksum_outcome(observed: Seq<char>, expected: Seq<char>)
    ensures
        checksum_outcome(observed, expected) is Ok <==> observed == expected,
        observed != expected ==> checksum_outcome(observed, expected) == Err::<(), Seq<char>>(
            "Checksum mismatch (saw "@ + observed + ", expected "@ + expected + ")"@,
        ),
{
}

/// A download begins with looking at the file, if there is one. It is downloaded if
/// there is none, or if the one that is there is another one; one that is right is only
/// read again. What was downloaded is read.
pub proof fn law_download_goes_on(checksum: Seq<char>, download: DownloadView, bytes: Seq<u8>)
    ensures
        DownloadView::fresh(checksum) == (DownloadView {
            checksum,
            attempts: 0,
            verifying: false,
        }),
        download.after(DownloadEventView::Begin { exists: true }) == (
            download,
            DownloadActionView::ReadFile,
        ),
        download.after(DownloadEventView::Begin { exists: false }) == (
            DownloadView { attempts: 1, verifying: true, ..download },
            DownloadActionView::Download(1),
        ),
        !download.verifying && sha256_hex_of(bytes) == download.checksum ==> download.after(
            DownloadEventView::FileRead(Ok(bytes)),
        ) == (DownloadView { verifying: true, ..download }, DownloadActionView::ReadFile),
        !download.verifying && sha256_hex_of(bytes) != download.checksum ==> download.after(
            DownloadEventView::FileRead(Ok(bytes)),
        ) == (
            DownloadView { attempts: 1, verifying: true, ..download },
            DownloadActionView::Download(1),
        ),
{
}

/// A download that ended well is followed by reading the file. One that failed is tried
/// again, as long as attempts are left, and else ends with its error. A file that cannot
/// be read ends it with that error.
pub proof fn law_download_retries(download: DownloadView, text: Seq<char>)
    ensures
        download.after(DownloadEventView::Downloaded(Ok(()))) == (
            download,
            DownloadActionView::ReadFile,
        ),
        download.attempts < RETRY_ATTEMPTS ==> download.after(
            DownloadEventView::Downloaded(Err(text)),
        ) == (
            DownloadView {
                attempts: (download.attempts + 1) as u64,
                verifying: true,
                ..download
            },
            DownloadActionView::Download((download.attempts + 1) as u64),
        ),
        download.attempts >= RETRY_ATTEMPTS ==> download.after(
            DownloadEventView::Downloaded(Err(text)),
        ) == (download, DownloadActionView::Finish(Err(text))),
        download.after(DownloadEventView::FileRead(Err(text))) == (
            download,
            DownloadActionView::Finish(Err(text)),
        ),
{
}

/// In every run, once the file was found right or was downloaded, reading it ends the
/// download, and that well if and only if the file has the expected checksum.
pub proof fn law_right_file_is_accepted(
    checksum: Seq<char>,
    exists: bool,
    events: Seq<DownloadEventView>,
    bytes: Seq<u8>,
)
    requires
        is_download_run(checksum, exists, events),
        events.len() > 0,
        events.last() matches DownloadEventView::Downloaded(Ok(_)) || (events.len() == 1
            && had_file(checksum, exists, events)),
    ensures
        ({
            let longer = events.push(DownloadEventView::FileRead(Ok(bytes)));
            &&& is_download_run(checksum, exists, longer)
            &&& download_run(checksum, exists, longer).1 is Finish
            &&& download_run(checksum, exists, longer).1 == DownloadActionView::Finish(Ok(()))
                <==> sha256_hex_of(bytes) == checksum
        }),
{
    let longer = events.push(DownloadEventView::FileRead(Ok(bytes)));
    assert(longer.drop_last() == events);
    let front = events.drop_last();
    lemma_download_stage(checksum, exists, events);
    lemma_download_stage(checksum, exists, front);
    let (before, action) = download_run(checksum, exists, front);
    let now = download_run(checksum, exists, events).0;
    if events.last() matches DownloadEventView::Downloaded(Ok(_)) {
        assert(action is Download);
        assert(before.verifying);
        assert(now == before);
        assert(download_run(checksum, exists, events).1 is ReadFile);
    } else {
        assert(events[0] == events.last());
        assert(front.len() == 0);
        assert(download_run(checksum, exists, events).1 is ReadFile);
    }
    law_checksum_decides(now, bytes);
}

/// The failed attempts of a download, as many as is said.
pub open spec fn failures(attempts: nat, text: Seq<char>) -> Seq<DownloadEventView> {
    Seq::new(attempts, |i: int| DownloadEventView::Downloaded(Err(text)))
}

/// A file that is not there is tried for as often as is allowed: after every failure
/// but the last one follows the next attempt, and after the last one the download ends
/// with its error.
pub proof fn law_every_attempt_is_made(checksum: Seq<char>, failed: nat, text: Seq<char>)
    requires
        failed <= RETRY_ATTEMPTS,
    ensures
        is_download_run(checksum, false, failures(failed, text)),
        failed < RETRY_ATTEMPTS ==> download_run(checksum, false, failures(failed, text)) == (
            DownloadView { checksum, attempts: (failed + 1) as u64, verifying: true },
            DownloadActionView::Download((failed + 1) as u64),
        ),
        failed == RETRY_ATTEMPTS ==> download_run(checksum, false, failures(failed, text)) == (
            DownloadView { checksum, attempts: RETRY_ATTEMPTS, verifying: true },
            DownloadActionView::Finish(Err(text)),
        ),
    decreases failed,
{
    let events = failures(failed, text);
    if failed > 0 {
        let less = (failed - 1) as nat;
        law_every_attempt_is_made(checksum, less, text);
        assert(events.drop_last() == failures(less, text));
        law_download_retries(download_run(checksum, false, failures(less, text)).0, text);
    }
}

/// What to download is planned for the system with the given name, with the checksum
/// that the list has under the key of that system. A name that is not known, and a key
/// that is not there, are reported, in this order.
pub proof fn law_download_plan(
    os: Seq<char>,
    version: Seq<char>,
    checksums: Seq<char>,
    out_dir: Seq<char>,
)
    ensures
        match os_named(os) {
            Err(text) => download_plan_of(os, version, checksums, out_dir) == Err::<
                DownloadPlanView,
                Seq<char>,
            >(text),
            Ok(system) => match values_or_missing(checksums, seq![system.checksum_key_text()]) {
                Ok(values) => values.len() == 1 && download_plan_of(os, version, checksums, out_dir)
                    == Ok::<DownloadPlanView, Seq<char>>(
                    DownloadPlanView {
                        release: release_of(system, version, out_dir),
                        checksum: values[0],
                    },
                ),
                Err(missing) => download_plan_of(os, version, checksums, out_dir) == Err::<
                    DownloadPlanView,
                    Seq<char>,
                >(missing_text(missing)),
            },
        },
{
    if let Ok(system) = os_named(os) {
        law_values(checksums, seq![system.checksum_key_text()], 0);
    }
}

/// A checksum that is listed under the key of a system, on the first line with that
/// key, is the checksum of the plan, whatever its length.
pub proof fn law_listed_checksum_is_planned(
    os: Seq<char>,
    system: Os,
    version: Seq<char>,
    before: Seq<Seq<char>>,
    checksum: Seq<char>,
    after: Seq<Seq<char>>,
    out_dir: Seq<char>,
)
    requires
        os_named(os) == Ok::<Os, Seq<char>>(system),
        forall|j: int|
            0 <= j < before.len() ==> !(#[trigger] before[j]).contains('\n') && !(
            system.checksum_key_text() + "="@).is_prefix_of(trimmed(before[j])),
        forall|j: int| 0 <= j < after.len() ==> !(#[trigger] after[j]).contains('\n'),
        !checksum.contains('\n'),
        checksum.len() > 0 ==> checksum.first() != '"' && checksum.last() != '"',
    ensures
        ({
            let line = system.checksum_key_text() + "=\""@ + checksum + "\""@;
            let checksums = joined(before + seq![line] + after, "\n"@);
            download_plan_of(os, version, checksums, out_dir) == Ok::<DownloadPlanView, Seq<char>>(
                DownloadPlanView { release: release_of(system, version, out_dir), checksum },
            )
        }),
{
    let key = system.checksum_key_text();
    reveal_strlit("CIDL_SHA256_ILLUMOS");
    reveal_strlit("CIDL_SHA256_LINUX");
    reveal_strlit("CIDL_SHA256_DARWIN");
    law_checksum_keys();
    assert(is_plain_key(key));
    law_written_value_is_read_back(before, key, checksum, after, seq![key], 0);
}

/// A binary works if and only if it could be run and succeeded. One that could not be
/// run is reported with the reason, and one that failed with how it ended and with what
/// it wrote, if that is text.
pub proof fn law_binary_works(
    binary: Seq<char>,
    run: BinaryRunView,
    source: Seq<char>,
)
    ensures
        binary_error(binary, Err(source)) == Some(BinaryErrorView::NotRun { binary, source }),
        run.success ==> binary_error(binary, Ok(run)) is None,
        !run.success && valid_utf8(run.stderr) ==> binary_error(binary, Ok(run)) == Some(
            BinaryErrorView::Failed {
                binary,
                status: run.status,
                stderr: decode_utf8(run.stderr),
            },
        ),
        !run.success && !valid_utf8(run.stderr) ==> binary_error(binary, Ok(run)) == Some(
            BinaryErrorView::Failed { binary, status: run.status, stderr: Seq::empty() },
        ),
        (BinaryErrorView::NotRun { binary, source }).text() == "Failed to run "@ + binary,
        (BinaryErrorView::Failed { binary, status: run.status, stderr: source }).text() == binary
            + (" failed: "@ + run.status) + (" (stderr: "@ + source + ")"@),
{
    assert((BinaryErrorView::Failed { binary, status: run.status, stderr: source }).text()
        =~= binary + (" failed: "@ + run.status) + (" (stderr: "@ + source + ")"@));
}

/// The binary is tried with one argument, in the environment of this process.
pub proof fn law_trial_command(binary: Seq<char>)
    ensures
        trial_command_of(binary) == (CommandView {
            program: binary,
            args: seq![encode_utf8("version"@)],
            clear_env: false,
            env: Seq::empty(),
        }),
{
    assert(trial_command_of(binary).args =~= seq![encode_utf8("version"@)]);
}

/// What is said of plans, events, actions, runs and errors by their views is said of
/// them.
pub proof fn law_download_views(
    plan: DownloadPlan,
    event: DownloadEvent,
    action: DownloadAction,
    run: BinaryRun,
    error: BinaryError,
)
    ensures
        plan@.release == plan.release@ && plan@.checksum == plan.checksum@,
        match event {
            DownloadEvent::Begin { exists } => event@ == (DownloadEventView::Begin { exists }),
            DownloadEvent::FileRead(Ok(bytes)) => event@ == DownloadEventView::FileRead(Ok(bytes@)),
            DownloadEvent::FileRead(Err(text)) => event@ == DownloadEventView::FileRead(Err(text@)),
            DownloadEvent::Downloaded(Ok(_)) => event@ matches DownloadEventView::Downloaded(Ok(_)),
            DownloadEvent::Downloaded(Err(text)) => event@ == DownloadEventView::Downloaded(
                Err(text@),
            ),
        },
        match action {
            DownloadAction::ReadFile => action@ is ReadFile,
            DownloadAction::Download(attempt) => action@ == DownloadActionView::Download(attempt),
            DownloadAction::Finish(Ok(_)) => action@ matches DownloadActionView::Finish(Ok(_)),
            DownloadAction::Finish(Err(text)) => action@ == DownloadActionView::Finish(Err(text@)),
        },
        run@.success == run.success && run@.status == run.status@ && run@.stderr == run.stderr@,
        binary_run_view(Ok(run)) == Ok::<BinaryRunView, Seq<char>>(run@),
        match error {
            BinaryError::NotRun { binary, source } => error@ == (BinaryErrorView::NotRun {
                binary: binary@,
                source: source@,
            }),
            BinaryError::Failed { binary, status, stderr } => error@ == (BinaryErrorView::Failed {
                binary: binary@,
                status: status@,
                stderr: stderr@,
            }),
        },
{
}

} // verus!
