//! What is run to start the database, and how that is reported.

use crate::builder::{reported_args, reported_env};
use crate::command::{CommandPlan, CommandView};
use crate::environment::{settled, sorted_by_name, Environment};
use crate::text::{join, joined};
use vstd::prelude::*;
use vstd::string::*;

verus! {

/// The files that take the output of the database.
#[derive(Debug, PartialEq, Eq)]
pub struct Redirect {
    pub stdout: String,
    pub stderr: String,
}

/// The files that take the output of the database, by their paths.
pub struct RedirectView {
    pub stdout: Seq<char>,
    pub stderr: Seq<char>,
}

impl DeepView for Redirect {
    type V = RedirectView;

    open spec fn deep_view(&self) -> RedirectView {
        RedirectView { stdout: self.stdout@, stderr: self.stderr@ }
    }
}

/// Manages execution of the `cockroach` command in order to start a CockroachDB
/// instance.
///
/// To use this, see [`crate::builder::CockroachStarterBuilder`].
#[derive(Debug)]
pub struct CockroachStarter {
    /// temporary directory used for URL file and data storage
    temp_dir: String,
    /// path to listen URL file (inside temp_dir)
    listen_url_file: String,
    /// environment variables, mirrored here for reporting
    env: Environment,
    /// command-line arguments, mirrored here for reporting to the user
    args: Vec<String>,
    /// the command line that we're going to execute
    command: CommandPlan,
    /// where the output goes, unless it goes where that of this process goes
    redirect: Option<Redirect>,
}

/// A starter, by its texts and bytes.
#[verifier::ext_equal]
pub struct StarterView {
    pub temp_dir: Seq<char>,
    pub listen_url_file: Seq<char>,
    pub env: Map<Seq<char>, Seq<char>>,
    pub args: Seq<Seq<char>>,
    pub command: CommandView,
    pub redirect: Option<RedirectView>,
}

impl StarterView {
    /// What is reported is what will be run.
    pub open spec fn mirrors_command(self) -> bool {
        &&& self.args == reported_args(self.command)
        &&& self.env == reported_env(self.command.env)
    }
}

impl View for CockroachStarter {
    type V = StarterView;

    closed spec fn view(&self) -> StarterView {
        StarterView {
            temp_dir: self.temp_dir@,
            listen_url_file: self.listen_url_file@,
            env: self.env@,
            args: self.args.deep_view(),
            command: self.command@,
            redirect: self.redirect.deep_view(),
        }
    }
}

impl CockroachStarter {
    /// What is reported is what will be run.
    pub closed spec fn wf(self) -> bool {
        &&& self.env.wf()
        &&& self@.mirrors_command()
    }

    /// What is reported, the words of the command line and the environment variables,
    /// is what will be run, as far as it can be read as text.
    pub proof fn law_reports_command(self)
        requires
            self.wf(),
        ensures
            self@.mirrors_command(),
    {
    }

    /// Puts a starter together.
    pub(crate) fn assemble(
        temp_dir: String,
        listen_url_file: String,
        env: Environment,
        args: Vec<String>,
        command: CommandPlan,
        redirect: Option<Redirect>,
    ) -> (r: CockroachStarter)
        requires
            env.wf(),
            args.deep_view() == reported_args(command@),
            env@ == reported_env(command@.env),
        ensures
            r.wf(),
            r@ == (StarterView {
                temp_dir: temp_dir@,
                listen_url_file: listen_url_file@,
                env: env@,
                args: args.deep_view(),
                command: command@,
                redirect: redirect.deep_view(),
            }),
    {
        CockroachStarter { temp_dir, listen_url_file, env, args, command, redirect }
    }

    /// Enumerates human-readable summaries of the environment variables set on
    /// execution, in the order of their names.
    pub fn environment(&self) -> (r: Vec<(&str, &str)>)
        requires
            self.wf(),
        ensures
            sorted_by_name(r.deep_view()),
            settled(r.deep_view()) == self@.env,
    {
        self.env.list()
    }

    /// Returns a human-readable summary of the command line to be executed.
    pub fn cmdline(&self) -> (r: String)
        ensures
            r@ == joined(self@.args, " "@),
    {
        join(&self.args, " ")
    }

    /// Returns the path to the temporary directory created for this execution.
    pub fn temp_dir(&self) -> (r: &str)
        ensures
            r@ == self@.temp_dir,
    {
        self.temp_dir.as_str()
    }

    /// The program that starts the database, as it is reported.
    pub fn program(&self) -> (r: String)
        requires
            self.wf(),
        ensures
            r@ == self@.args[0],
    {
        assert(self.args.deep_view() == reported_args(self.command@));
        self.args[0].clone()
    }

    /// The path of the file to which the database writes its listening URL.
    pub fn listen_url_file(&self) -> (r: &str)
        ensures
            r@ == self@.listen_url_file,
    {
        self.listen_url_file.as_str()
    }

    /// The command that starts the database.
    pub fn command(&self) -> (r: &CommandPlan)
        ensures
            r@ == self@.command,
    {
        &self.command
    }

    /// The files that take the output of the database, if it is redirected.
    pub fn redirect(&self) -> (r: &Option<Redirect>)
        ensures
            r.deep_view() == self@.redirect,
    {
        &self.redirect
    }
}

/// What is said of the files for the output by their view is said of them.
pub proof fn law_redirect_view(redirect: Redirect)
    ensures
        redirect.deep_view().stdout == redirect.stdout@,
        redirect.deep_view().stderr == redirect.stderr@,
{
}

} // verus!
