//! A database that was started, and how it is cleaned up.

use crate::pg_config::{PostgresConfig, PostgresConfigView};
use vstd::prelude::*;
use vstd::string::*;

verus! {

/// Manages a CockroachDB process running as a single-node cluster.
///
/// You are **required** to run [`CockroachInstance::cleanup`] to its end before
/// this object is dropped.
#[derive(Debug)]
pub struct CockroachInstance {
    /// child process id
    pid: u32,
    /// PostgreSQL config to use to connect to CockroachDB as a SQL client
    pg_config: PostgresConfig,
    /// whether there is a child process that hasn't been cleaned up already
    has_child: bool,
    /// whether there is a temporary directory that hasn't been cleaned up already
    has_temp_dir: bool,
    /// path to temporary directory
    temp_dir_path: String,
}

/// An instance, by its texts.
pub struct InstanceView {
    pub pid: u32,
    pub pg_config: PostgresConfigView,
    pub has_child: bool,
    pub has_temp_dir: bool,
    pub temp_dir_path: Seq<char>,
}

impl View for CockroachInstance {
    type V = InstanceView;

    closed spec fn view(&self) -> InstanceView {
        InstanceView {
            pid: self.pid,
            pg_config: self.pg_config@,
            has_child: self.has_child,
            has_temp_dir: self.has_temp_dir,
            temp_dir_path: self.temp_dir_path@,
        }
    }
}

/// What has happened while an instance is cleaned up.
#[derive(Debug, PartialEq, Eq)]
pub enum CleanupEvent {
    /// Cleaning up begins.
    Begin,
    /// The child process was sent SIGKILL, or could not be.
    Killed(bool),
    /// The child process was waited for, or that failed.
    Waited(Result<(), String>),
    /// The temporary directory was removed, or could not be.
    Removed(Result<(), String>),
}

/// Why cleaning up failed. The text of an error from the operating system is its
/// `source`.
#[derive(Debug, PartialEq, Eq)]
pub enum CleanupError {
    /// The child process could not be killed.
    Kill,
    /// The child process could not be waited for.
    Wait { source: String },
    /// The temporary directory could not be removed.
    TempDir { source: String },
}

/// What to do next to clean up an instance.
#[derive(Debug, PartialEq, Eq)]
pub enum CleanupAction {
    /// Send SIGKILL to the child process.
    Kill,
    /// Wait for the child process to exit.
    Wait,
    /// Remove the temporary directory.
    RemoveTempDir,
    /// Nothing: cleaning up has ended.
    Finish(Result<(), CleanupError>),
}

/// What has happened, by its texts.
pub enum CleanupEventView {
    Begin,
    Killed(bool),
    Waited(Result<(), Seq<char>>),
    Removed(Result<(), Seq<char>>),
}

/// Why cleaning up failed, by its texts.
pub enum CleanupErrorView {
    Kill,
    Wait { source: Seq<char> },
    TempDir { source: Seq<char> },
}

/// What to do next, by its texts.
pub enum CleanupActionView {
    Kill,
    Wait,
    RemoveTempDir,
    Finish(Result<(), CleanupErrorView>),
}

/// The outcome of an operation, by the text of its error.
pub open spec fn outcome_view(r: Result<(), String>) -> Result<(), Seq<char>> {
    match r {
        Ok(_) => Ok(()),
        Err(source) => Err(source@),
    }
}

impl View for CleanupEvent {
    type V = CleanupEventView;

    open spec fn view(&self) -> CleanupEventView {
        match self {
            CleanupEvent::Begin => CleanupEventView::Begin,
            CleanupEvent::Killed(sent) => CleanupEventView::Killed(*sent),
            CleanupEvent::Waited(r) => CleanupEventView::Waited(outcome_view(*r)),
            CleanupEvent::Removed(r) => CleanupEventView::Removed(outcome_view(*r)),
        }
    }
}

impl View for CleanupError {
    type V = CleanupErrorView;

    open spec fn view(&self) -> CleanupErrorView {
        match self {
            CleanupError::Kill => CleanupErrorView::Kill,
            CleanupError::Wait { source } => CleanupErrorView::Wait { source: source@ },
            CleanupError::TempDir { source } => CleanupErrorView::TempDir { source: source@ },
        }
    }
}

impl View for CleanupAction {
    type V = CleanupActionView;

    open spec fn view(&self) -> CleanupActionView {
        match self {
            CleanupAction::Kill => CleanupActionView::Kill,
            CleanupAction::Wait => CleanupActionView::Wait,
            CleanupAction::RemoveTempDir => CleanupActionView::RemoveTempDir,
            CleanupAction::Finish(Ok(_)) => CleanupActionView::Finish(Ok(())),
            CleanupAction::Finish(Err(error)) => CleanupActionView::Finish(Err(error@)),
        }
    }
}

impl CleanupErrorView {
    /// The text of the error, without that of its source.
    pub open spec fn text(self) -> Seq<char> {
        match self {
            CleanupErrorView::Kill => "Failed to send SIGKILL to DB"@,
            CleanupErrorView::Wait { source } => "waiting for child process"@,
            CleanupErrorView::TempDir { source } => "cleaning up temporary directory"@,
        }
    }
}

impl CleanupError {
    /// The text of the error, without that of its source.
    pub fn to_string(&self) -> (r: String)
        ensures
            r@ == self@.text(),
    {
        match self {
            CleanupError::Kill => "Failed to send SIGKILL to DB".to_owned(),
            CleanupError::Wait { .. } => "waiting for child process".to_owned(),
            CleanupError::TempDir { .. } => "cleaning up temporary directory".to_owned(),
        }
    }
}

impl InstanceView {
    /// The end of cleaning up: the temporary directory, if it is still there. It
    /// is given up whether or not it can be removed.
    pub open spec fn without_temp_dir(self) -> (InstanceView, CleanupActionView) {
        if self.has_temp_dir {
            (InstanceView { has_temp_dir: false, ..self }, CleanupActionView::RemoveTempDir)
        } else {
            (self, CleanupActionView::Finish(Ok(())))
        }
    }

    /// The instance after an event of cleaning up, and what to do next.
    pub open spec fn cleaned(self, event: CleanupEventView) -> (InstanceView, CleanupActionView) {
        match event {
            CleanupEventView::Begin => if self.has_child {
                (self, CleanupActionView::Kill)
            } else {
                self.without_temp_dir()
            },
            CleanupEventView::Killed(sent) => if sent {
                (self, CleanupActionView::Wait)
            } else {
                (self, CleanupActionView::Finish(Err(CleanupErrorView::Kill)))
            },
            CleanupEventView::Waited(Ok(_)) => InstanceView {
                has_child: false,
                ..self
            }.without_temp_dir(),
            CleanupEventView::Waited(Err(source)) => (
                self,
                CleanupActionView::Finish(Err(CleanupErrorView::Wait { source })),
            ),
            CleanupEventView::Removed(Ok(_)) => (self, CleanupActionView::Finish(Ok(()))),
            CleanupEventView::Removed(Err(source)) => (
                self,
                CleanupActionView::Finish(Err(CleanupErrorView::TempDir { source })),
            ),
        }
    }
}

/// What to do with an instance that is dropped before it was cleaned up.
#[derive(Debug, PartialEq, Eq)]
pub struct DropPlan {
    /// Whether to kill the child process.
    pub kill: bool,
    /// Whether to remove the temporary directory then.
    pub remove_temp_dir: bool,
}

impl InstanceView {
    /// What to do when the instance is dropped: nothing if it was cleaned up, otherwise
    /// what is left to do of that.
    pub open spec fn dropped(self) -> Option<DropPlan> {
        if self.has_child || self.has_temp_dir {
            Some(DropPlan { kill: self.has_child, remove_temp_dir: self.has_temp_dir })
        } else {
            None
        }
    }
}

impl CockroachInstance {
    /// An instance whose process runs and whose temporary directory exists.
    pub(crate) fn started(pid: u32, pg_config: PostgresConfig, temp_dir_path: String) -> (r:
        CockroachInstance)
        ensures
            r@ == (InstanceView {
                pid,
                pg_config: pg_config@,
                has_child: true,
                has_temp_dir: true,
                temp_dir_path: temp_dir_path@,
            }),
    {
        CockroachInstance { pid, pg_config, has_child: true, has_temp_dir: true, temp_dir_path }
    }

    /// Returns the pid of the child process running CockroachDB.
    pub fn pid(&self) -> (r: u32)
        ensures
            r == self@.pid,
    {
        self.pid
    }

    /// Returns PostgreSQL client configuration suitable for connecting to the
    /// CockroachDB database.
    pub fn pg_config(&self) -> (r: &PostgresConfig)
        ensures
            r@ == self@.pg_config,
    {
        &self.pg_config
    }

    /// Returns the path to the temporary directory created for this execution.
    pub fn temp_dir(&self) -> (r: &str)
        ensures
            r@ == self@.temp_dir_path,
    {
        self.temp_dir_path.as_str()
    }

    /// Gives up the temporary directory, if it is still there.
    fn take_temp_dir(&mut self) -> (r: CleanupAction)
        ensures
            (final(self)@, r@) == old(self)@.without_temp_dir(),
    {
        if self.has_temp_dir {
            self.has_temp_dir = false;
            CleanupAction::RemoveTempDir
        } else {
            CleanupAction::Finish(Ok(()))
        }
    }

    /// Cleans up the child process and temporary directory, one event at a time:
    /// says what to do next.
    ///
    /// If the child process is still running, it will be killed with SIGKILL and
    /// waited for until it exits.  Then the temporary directory will be cleaned
    /// up.
    ///
    /// We use SIGKILL instead of SIGTERM because we don't care about "cleanly
    /// exiting" - we're going to destroy the underlying datastore anyway, and
    /// SIGKILL is several seconds faster than SIGTERM.
    pub fn cleanup(&mut self, event: CleanupEvent) -> (r: CleanupAction)
        ensures
            (final(self)@, r@) == old(self)@.cleaned(event@),
    {
        match event {
            CleanupEvent::Begin => if self.has_child {
                CleanupAction::Kill
            } else {
                self.take_temp_dir()
            },
            CleanupEvent::Killed(sent) => if sent {
                CleanupAction::Wait
            } else {
                CleanupAction::Finish(Err(CleanupError::Kill))
            },
            CleanupEvent::Waited(Ok(_)) => {
                self.has_child = false;
                self.take_temp_dir()
            },
            CleanupEvent::Waited(Err(source)) => CleanupAction::Finish(
                Err(CleanupError::Wait { source }),
            ),
            CleanupEvent::Removed(Ok(_)) => CleanupAction::Finish(Ok(())),
            CleanupEvent::Removed(Err(source)) => CleanupAction::Finish(
                Err(CleanupError::TempDir { source }),
            ),
        }
    }

    /// What to do when the instance is dropped: nothing if it was cleaned up,
    /// otherwise to warn the user, and to make a best effort: the child process is
    /// killed, but not waited for, and the temporary directory is removed.
    pub fn drop_plan(&mut self) -> (r: Option<DropPlan>)
        ensures
            r == old(self)@.dropped(),
            final(self)@ == (InstanceView { has_temp_dir: false, ..old(self)@ }),
    {
        if self.has_child || self.has_temp_dir {
            let plan = DropPlan { kill: self.has_child, remove_temp_dir: self.has_temp_dir };
            self.has_temp_dir = false;
            Some(plan)
        } else {
            None
        }
    }
}

/// Whether an event is the answer to an action.
pub open spec fn answers_cleanup(event: CleanupEventView, action: CleanupActionView) -> bool {
    match event {
        CleanupEventView::Begin => false,
        CleanupEventView::Killed(_) => action is Kill,
        CleanupEventView::Waited(_) => action is Wait,
        CleanupEventView::Removed(_) => action is RemoveTempDir,
    }
}

/// The instance and the last action, after cleaning up began and then, one by one,
/// the answers in `events` came in.
pub open spec fn cleanup_run(instance: InstanceView, events: Seq<CleanupEventView>) -> (
    InstanceView,
    CleanupActionView,
)
    decreases events.len(),
{
    if events.len() == 0 {
        instance.cleaned(CleanupEventView::Begin)
    } else {
        cleanup_run(instance, events.drop_last()).0.cleaned(events.last())
    }
}

/// Whether each event of a run of cleaning up answers the action before it.
pub open spec fn is_cleanup_run(instance: InstanceView, events: Seq<CleanupEventView>) -> bool
    decreases events.len(),
{
    events.len() > 0 ==> {
        &&& is_cleanup_run(instance, events.drop_last())
        &&& answers_cleanup(events.last(), cleanup_run(instance, events.drop_last()).1)
    }
}

/// Where a run of cleaning up can be.
spec fn cleanup_stage(
    instance: InstanceView,
    now: InstanceView,
    action: CleanupActionView,
    steps: nat,
) -> bool {
    match action {
        CleanupActionView::Kill => now == instance && instance.has_child && steps == 0,
        CleanupActionView::Wait => now == instance && instance.has_child && steps == 1,
        CleanupActionView::RemoveTempDir => !now.has_child && !now.has_temp_dir
            && instance.has_temp_dir && steps == (if instance.has_child { 2nat } else { 0nat }),
        CleanupActionView::Finish(Ok(_)) => !now.has_child && !now.has_temp_dir && steps <= 3,
        CleanupActionView::Finish(Err(error)) => steps <= 3 && (match error {
            CleanupErrorView::TempDir { source } => !now.has_child && !now.has_temp_dir,
            _ => now == instance && instance.has_child,
        }),
    }
}

/// A run of cleaning up stays in its stages.
proof fn lemma_cleanup_stage(instance: InstanceView, events: Seq<CleanupEventView>)
    requires
        is_cleanup_run(instance, events),
    ensures
        cleanup_stage(
            instance,
            cleanup_run(instance, events).0,
            cleanup_run(instance, events).1,
            events.len(),
        ),
    decreases events.len(),
{
    if events.len() > 0 {
        lemma_cleanup_stage(instance, events.drop_last());
    }
}

/// Cleaning up ends after at most three operations. When it ends well, neither a
/// process nor a temporary directory is left. When the process cannot be killed
/// or waited for, nothing was given up, so that it can be tried again.
pub proof fn law_cleanup(instance: InstanceView, events: Seq<CleanupEventView>)
    requires
        is_cleanup_run(instance, events),
    ensures
        events.len() <= 3,
        events.len() == 3 ==> cleanup_run(instance, events).1 is Finish,
        cleanup_run(instance, events).1 matches CleanupActionView::Finish(Ok(_)) ==> {
            let cleaned = cleanup_run(instance, events).0;
            !cleaned.has_child && !cleaned.has_temp_dir
        },
        cleanup_run(instance, events).1 matches CleanupActionView::Finish(Err(error)) && !(
        error is TempDir) ==> cleanup_run(instance, events).0 == instance,
{
    lemma_cleanup_stage(instance, events);
}

/// The temporary directory is removed only once no child process is left.
pub proof fn law_process_ends_before_its_files(
    instance: InstanceView,
    events: Seq<CleanupEventView>,
)
    requires
        is_cleanup_run(instance, events),
        cleanup_run(instance, events).1 is RemoveTempDir,
    ensures
        !cleanup_run(instance, events).0.has_child,
        instance.has_child ==> {
            &&& events.len() == 2
            &&& events[0] == CleanupEventView::Killed(true)
            &&& events[1] matches CleanupEventView::Waited(Ok(_))
        },
{
    lemma_cleanup_stage(instance, events);
    if instance.has_child {
        let front = events.drop_last();
        lemma_cleanup_stage(instance, front);
        lemma_cleanup_stage(instance, front.drop_last());
        assert(front.drop_last() == Seq::<CleanupEventView>::empty());
        assert(events[1] == events.last() && events[0] == front.last());
        assert(cleanup_run(instance, front).1 is Wait);
        assert(events.last() matches CleanupEventView::Waited(Ok(_)));
        assert(cleanup_run(instance, front.drop_last()).1 is Kill);
        assert(front.last() == CleanupEventView::Killed(true));
    }
}

/// Dropping an instance removes its temporary directory, unless that is gone already,
/// and kills its child process, unless that has ended.
pub proof fn law_drop_cleans_up(instance: InstanceView)
    ensures
        instance.has_temp_dir ==> instance.dropped() is Some
            && instance.dropped()->0.remove_temp_dir,
        instance.has_child ==> instance.dropped() is Some && instance.dropped()->0.kill,
{
}

/// Once an instance is cleaned up, cleaning it up again does nothing, and dropping
/// it warns of nothing.
pub proof fn law_cleanup_again(instance: InstanceView)
    requires
        !instance.has_child,
        !instance.has_temp_dir,
    ensures
        instance.cleaned(CleanupEventView::Begin) == (
            instance,
            CleanupActionView::Finish(Ok(())),
        ),
        instance.dropped() is None,
{
}

/// Cleaning up begins with killing the child process, if there is one, and goes on to
/// wait for it. Once it has ended, or if there was none, the temporary directory is
/// removed, if there is one. Then cleaning up has ended well.
pub proof fn law_cleanup_goes_on(instance: InstanceView)
    ensures
        instance.has_child ==> instance.cleaned(CleanupEventView::Begin) == (
            instance,
            CleanupActionView::Kill,
        ),
        instance.cleaned(CleanupEventView::Killed(true)) == (instance, CleanupActionView::Wait),
        instance.has_temp_dir ==> instance.cleaned(CleanupEventView::Waited(Ok(()))) == (
            InstanceView { has_child: false, has_temp_dir: false, ..instance },
            CleanupActionView::RemoveTempDir,
        ),
        !instance.has_temp_dir ==> instance.cleaned(CleanupEventView::Waited(Ok(()))) == (
            InstanceView { has_child: false, ..instance },
            CleanupActionView::Finish(Ok(())),
        ),
        !instance.has_child && instance.has_temp_dir ==> instance.cleaned(CleanupEventView::Begin)
            == (
            InstanceView { has_temp_dir: false, ..instance },
            CleanupActionView::RemoveTempDir,
        ),
        instance.cleaned(CleanupEventView::Removed(Ok(()))) == (
            instance,
            CleanupActionView::Finish(Ok(())),
        ),
{
}

/// An operation that fails ends cleaning up with the error that says which one it was
/// and why, and nothing more is given up.
pub proof fn law_cleanup_fails(instance: InstanceView, source: Seq<char>)
    ensures
        instance.cleaned(CleanupEventView::Killed(false)) == (
            instance,
            CleanupActionView::Finish(Err(CleanupErrorView::Kill)),
        ),
        instance.cleaned(CleanupEventView::Waited(Err(source))) == (
            instance,
            CleanupActionView::Finish(Err(CleanupErrorView::Wait { source })),
        ),
        instance.cleaned(CleanupEventView::Removed(Err(source))) == (
            instance,
            CleanupActionView::Finish(Err(CleanupErrorView::TempDir { source })),
        ),
        CleanupErrorView::Kill.text() == "Failed to send SIGKILL to DB"@,
        (CleanupErrorView::Wait { source }).text() == "waiting for child process"@,
        (CleanupErrorView::TempDir { source }).text() == "cleaning up temporary directory"@,
{
}

/// A whole run in which every operation succeeds leaves nothing behind, and does what
/// there was to do and nothing else.
pub proof fn law_cleanup_succeeds(instance: InstanceView)
    ensures
        ({
            let kill = if instance.has_child {
                seq![CleanupEventView::Killed(true), CleanupEventView::Waited(Ok(()))]
            } else {
                Seq::empty()
            };
            let remove = if instance.has_temp_dir {
                seq![CleanupEventView::Removed(Ok(()))]
            } else {
                Seq::empty()
            };
            &&& is_cleanup_run(instance, kill + remove)
            &&& cleanup_run(instance, kill + remove) == (
                InstanceView { has_child: false, has_temp_dir: false, ..instance },
                CleanupActionView::Finish(Ok(())),
            )
        }),
{
    let killed = CleanupEventView::Killed(true);
    let waited = CleanupEventView::Waited(Ok(()));
    let removed = CleanupEventView::Removed(Ok(()));
    let none = Seq::<CleanupEventView>::empty();
    reveal_with_fuel(is_cleanup_run, 4);
    reveal_with_fuel(cleanup_run, 4);
    let kill = if instance.has_child {
        seq![killed, waited]
    } else {
        none
    };
    let remove = if instance.has_temp_dir {
        seq![removed]
    } else {
        none
    };
    let events = kill + remove;
    assert(seq![killed].drop_last() == none);
    assert(seq![removed].drop_last() == none);
    assert(seq![killed, waited].drop_last() == seq![killed]);
    assert(seq![killed, waited, removed].drop_last() == seq![killed, waited]);
    if instance.has_child {
        assert(cleanup_run(instance, seq![killed]).1 is Wait);
        if instance.has_temp_dir {
            assert(events == seq![killed, waited, removed]);
            assert(cleanup_run(instance, seq![killed, waited]).1 is RemoveTempDir);
        } else {
            assert(events == seq![killed, waited]);
        }
    } else if instance.has_temp_dir {
        assert(events == seq![removed]);
    } else {
        assert(events == none);
    }
}

/// An instance that is dropped is left alone if it was cleaned up. Otherwise exactly
/// what is left of it is cleaned up: its process is killed if it has one, and its
/// temporary directory is removed if it has one.
pub proof fn law_dropped(instance: InstanceView)
    ensures
        instance.dropped() is None <==> !instance.has_child && !instance.has_temp_dir,
        instance.dropped() matches Some(plan) ==> plan.kill == instance.has_child
            && plan.remove_temp_dir == instance.has_temp_dir,
{
}

/// What is said of events, actions and errors of cleaning up by their views is said of
/// them.
pub proof fn law_cleanup_views(
    event: CleanupEvent,
    action: CleanupAction,
    error: CleanupError,
)
    ensures
        match event {
            CleanupEvent::Begin => event@ is Begin,
            CleanupEvent::Killed(sent) => event@ == CleanupEventView::Killed(sent),
            CleanupEvent::Waited(Ok(_)) => event@ matches CleanupEventView::Waited(Ok(_)),
            CleanupEvent::Waited(Err(text)) => event@ == CleanupEventView::Waited(Err(text@)),
            CleanupEvent::Removed(Ok(_)) => event@ matches CleanupEventView::Removed(Ok(_)),
            CleanupEvent::Removed(Err(text)) => event@ == CleanupEventView::Removed(Err(text@)),
        },
        match action {
            CleanupAction::Kill => action@ is Kill,
            CleanupAction::Wait => action@ is Wait,
            CleanupAction::RemoveTempDir => action@ is RemoveTempDir,
            CleanupAction::Finish(Ok(_)) => action@ matches CleanupActionView::Finish(Ok(_)),
            CleanupAction::Finish(Err(e)) => action@ == CleanupActionView::Finish(Err(e@)),
        },
        match error {
            CleanupError::Kill => error@ is Kill,
            CleanupError::Wait { source } => error@ == (CleanupErrorView::Wait {
                source: source@,
            }),
            CleanupError::TempDir { source } => error@ == (CleanupErrorView::TempDir {
                source: source@,
            }),
        },
{
}

} // verus!
