//! Commands to run, before they are handed to the operating system. Arguments
//! and environment variables are byte sequences, as they are there.

use crate::environment::settled;
use vstd::prelude::*;
use vstd::string::*;

verus! {

/// A command to run.
#[derive(Debug, PartialEq, Eq)]
pub struct CommandPlan {
    /// The program to run.
    pub program: String,
    /// The arguments after the program's name.
    pub args: Vec<Vec<u8>>,
    /// Whether the command starts without the environment of this process.
    pub clear_env: bool,
    /// Environment variables to set, in this order.
    pub env: Vec<(Vec<u8>, Vec<u8>)>,
}

/// A command to run, by its bytes.
#[verifier::ext_equal]
pub struct CommandView {
    pub program: Seq<char>,
    pub args: Seq<Seq<u8>>,
    pub clear_env: bool,
    pub env: Seq<(Seq<u8>, Seq<u8>)>,
}

impl View for CommandPlan {
    type V = CommandView;

    open spec fn view(&self) -> CommandView {
        CommandView {
            program: self.program@,
            args: self.args.deep_view(),
            clear_env: self.clear_env,
            env: self.env.deep_view(),
        }
    }
}

impl CommandView {
    /// The command that runs `program` without arguments, in the environment of
    /// this process.
    pub open spec fn of(program: Seq<char>) -> CommandView {
        CommandView { program, args: Seq::empty(), clear_env: false, env: Seq::empty() }
    }

    /// The command with one more argument.
    pub open spec fn with_arg(self, arg: Seq<u8>) -> CommandView {
        CommandView { args: self.args.push(arg), ..self }
    }

    /// The command with one more environment variable set.
    pub open spec fn with_env(self, name: Seq<u8>, value: Seq<u8>) -> CommandView {
        CommandView { env: self.env.push((name, value)), ..self }
    }

    /// The environment that the command runs in, where that of this process is
    /// `inherited`.
    pub open spec fn environment(self, inherited: Map<Seq<u8>, Seq<u8>>) -> Map<Seq<u8>, Seq<u8>> {
        if self.clear_env {
            settled(self.env)
        } else {
            inherited.union_prefer_right(settled(self.env))
        }
    }
}

/// Copies bytes.
pub(crate) fn copy_bytes(bytes: &[u8]) -> (r: Vec<u8>)
    ensures
        r@ == bytes@,
{
    vstd::slice::slice_to_vec(bytes)
}

impl CommandPlan {
    /// The command that runs `program` without arguments, in the environment of
    /// this process.
    pub fn new(program: &str) -> (r: CommandPlan)
        ensures
            r@ == CommandView::of(program@),
    {
        CommandPlan {
            program: program.to_owned(),
            args: Vec::new(),
            clear_env: false,
            env: Vec::new(),
        }
    }

    /// Adds an argument.
    pub fn arg(&mut self, arg: &[u8])
        ensures
            final(self)@ == old(self)@.with_arg(arg@),
    {
        let arg_copy = copy_bytes(arg);
        assert(arg_copy.deep_view() == arg@);
        self.args.push(arg_copy);
        assert(self.args.deep_view() == old(self).args.deep_view().push(arg@));
    }

    /// Sets an environment variable.
    pub fn env(&mut self, name: &[u8], value: &[u8])
        ensures
            final(self)@ == old(self)@.with_env(name@, value@),
    {
        let name_copy = copy_bytes(name);
        let value_copy = copy_bytes(value);
        assert(name_copy.deep_view() == name@);
        assert(value_copy.deep_view() == value@);
        self.env.push((name_copy, value_copy));
        assert(self.env.deep_view() == old(self).env.deep_view().push((name@, value@)));
    }

    /// Drops the environment of this process and all variables set so far.
    pub fn env_clear(&mut self)
        ensures
            final(self)@ == (CommandView { clear_env: true, env: Seq::empty(), ..old(self)@ }),
    {
        self.clear_env = true;
        self.env = Vec::new();
        assert(self@ == (CommandView { clear_env: true, env: Seq::empty(), ..old(self)@ }));
    }
}

/// A command starts with its program alone. An argument goes behind those before it,
/// a variable behind those set before it, and neither touches anything else.
pub proof fn law_command(command: CommandView, arg: Seq<u8>, name: Seq<u8>, value: Seq<u8>)
    ensures
        ({
            let fresh = CommandView::of(command.program);
            &&& fresh.program == command.program
            &&& fresh.args.len() == 0 && fresh.env.len() == 0 && !fresh.clear_env
        }),
        ({
            let longer = command.with_arg(arg);
            &&& longer.args == command.args + seq![arg]
            &&& longer.program == command.program && longer.env == command.env
            &&& longer.clear_env == command.clear_env
        }),
        ({
            let set = command.with_env(name, value);
            &&& set.env == command.env + seq![(name, value)]
            &&& set.program == command.program && set.args == command.args
            &&& set.clear_env == command.clear_env
        }),
{
}

/// A command runs in the variables that were set on it; below these it sees what it
/// inherits, unless it starts without that.
pub proof fn law_environment(
    command: CommandView,
    inherited: Map<Seq<u8>, Seq<u8>>,
    name: Seq<u8>,
)
    ensures
        settled(command.env).contains_key(name) ==> command.environment(inherited).contains_pair(
            name,
            settled(command.env)[name],
        ),
        !settled(command.env).contains_key(name) && command.clear_env ==> !command.environment(
            inherited,
        ).contains_key(name),
        !settled(command.env).contains_key(name) && !command.clear_env ==> (command.environment(
            inherited,
        ).contains_key(name) <==> inherited.contains_key(name)) && (inherited.contains_key(name)
            ==> command.environment(inherited)[name] == inherited[name]),
{
}

/// What is said of a command by its view is said of the command.
pub proof fn law_command_view(command: CommandPlan, i: int)
    ensures
        command@.program == command.program@,
        command@.clear_env == command.clear_env,
        command@.args.len() == command.args@.len(),
        command@.env.len() == command.env@.len(),
        0 <= i < command.args@.len() ==> command@.args[i] == command.args@[i]@,
        0 <= i < command.env@.len() ==> command@.env[i] == (
            command.env@[i].0@,
            command.env@[i].1@,
        ),
{
    if 0 <= i < command.args@.len() {
        assert(command.args@[i].deep_view() == command.args@[i]@);
    }
    if 0 <= i < command.env@.len() {
        assert(command.env@[i].0.deep_view() == command.env@[i].0@);
        assert(command.env@[i].1.deep_view() == command.env@[i].1@);
    }
}

} // verus!
