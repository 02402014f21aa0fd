//! Putting together the command that starts the database.

use crate::command::{CommandPlan, CommandView};
use crate::environment::{
    law_last_setting_holds, law_only_settings_hold, settled, Environment,
};
use crate::paths::{
    cockroachdb_bin, cockroachdb_bin_path, join_path, law_cockroachdb_bin, path_in,
};
use crate::starter::{CockroachStarter, Redirect, RedirectView, StarterView};
use crate::text::{decimal, decimal_text, decode_lossy, lossy_text, reads_as_text};
use vstd::prelude::*;
use vstd::string::*;
use vstd::utf8::{
    decode_utf8, encode_utf8, encode_utf8_decode_utf8, encode_utf8_valid_utf8, valid_utf8,
};

verus! {

/// How the words of a command line read: the program, then its arguments.
pub open spec fn reported_args(command: CommandView) -> Seq<Seq<char>> {
    seq![command.program] + command.args.map_values(|arg: Seq<u8>| lossy_text(arg))
}

/// How the environment variables read that a list of settings leaves.
pub open spec fn reported_env(settings: Seq<(Seq<u8>, Seq<u8>)>) -> Map<Seq<char>, Seq<char>> {
    settled(
        settings.map_values(
            |setting: (Seq<u8>, Seq<u8>)| (lossy_text(setting.0), lossy_text(setting.1)),
        ),
    )
}

/// Whether all names and values of some environment variables are UTF-8.
pub open spec fn all_text(vars: Seq<(Seq<u8>, Seq<u8>)>) -> bool {
    forall|i: int|
        0 <= i < vars.len() ==> valid_utf8(#[trigger] vars[i].0) && valid_utf8(vars[i].1)
}

/// Whether a name and a value, if they are UTF-8, are read as the text that they stand
/// for.
pub open spec fn reads_setting(var: (Seq<u8>, Seq<u8>)) -> bool {
    reads_as_text(var.0) && reads_as_text(var.1)
}

/// Environment variables as the text that they stand for.
pub open spec fn as_text(vars: Seq<(Seq<u8>, Seq<u8>)>) -> Seq<(Seq<char>, Seq<char>)> {
    vars.map_values(|var: (Seq<u8>, Seq<u8>)| (decode_utf8(var.0), decode_utf8(var.1)))
}

/// Builder for [`CockroachStarter`] that supports setting some command-line
/// arguments for the `cockroach start-single-node` command.
///
/// Without customizations, this will run `cockroach start-single-node --insecure
/// --listen-addr=[::1]:0 --http-addr=:0`.
///
/// It's useful to support running this concurrently (as in the test suite).  To
/// support this, we allow CockroachDB to choose its listening ports.  To figure
/// out which ports it chose, we also use the --listening-url-file option to have
/// it write the URL to a file in a temporary directory.  That directory gets cleaned
/// up when a `CockroachStarter` or a `CockroachInstance` is dropped, as long as this
/// program exits normally.
#[derive(Debug)]
pub struct CockroachStarterBuilder {
    /// the listening port; 0 lets the system choose any available port
    listen_port: u16,
    /// environment variables, mirrored here for reporting
    env: Environment,
    /// command-line arguments, mirrored here for reporting
    args: Vec<String>,
    /// describes the command line that we're going to execute
    command: CommandPlan,
    /// redirect stdout and stderr to files
    redirect_stdio: bool,
}

/// A builder, by its texts and bytes.
#[verifier::ext_equal]
pub struct BuilderView {
    pub listen_port: u16,
    pub env: Map<Seq<char>, Seq<char>>,
    pub args: Seq<Seq<char>>,
    pub command: CommandView,
    pub redirect_stdio: bool,
}

impl View for CockroachStarterBuilder {
    type V = BuilderView;

    closed spec fn view(&self) -> BuilderView {
        BuilderView {
            listen_port: self.listen_port,
            env: self.env@,
            args: self.args.deep_view(),
            command: self.command@,
            redirect_stdio: self.redirect_stdio,
        }
    }
}

/// The store directory of an instance with the given temporary directory.
pub open spec fn store_dir_in(temp_dir: Seq<char>) -> Seq<char> {
    path_in(temp_dir, "data"@)
}

/// The argument that names the store directory.
pub open spec fn store_arg_for(store_dir: Seq<char>) -> Seq<char> {
    "--store=path="@ + store_dir + ",ballast-size=0"@
}

impl BuilderView {
    /// What is reported is what will be run.
    pub open spec fn mirrors_command(self) -> bool {
        &&& self.args == reported_args(self.command)
        &&& self.env == reported_env(self.command.env)
    }

    /// A builder that runs `program` without arguments.
    pub open spec fn raw(program: Seq<char>) -> BuilderView {
        BuilderView {
            listen_port: 0,
            env: Map::empty(),
            args: seq![program],
            command: CommandView::of(program),
            redirect_stdio: false,
        }
    }

    /// The builder with one more argument.
    pub open spec fn with_arg(self, arg: Seq<u8>) -> BuilderView {
        BuilderView {
            args: self.args.push(lossy_text(arg)),
            command: self.command.with_arg(arg),
            ..self
        }
    }

    /// The builder with one more argument, given as text.
    pub open spec fn with_text(self, arg: Seq<char>) -> BuilderView {
        BuilderView {
            args: self.args.push(arg),
            command: self.command.with_arg(encode_utf8(arg)),
            ..self
        }
    }

    /// The builder with one more environment variable set.
    pub open spec fn with_env(self, name: Seq<u8>, value: Seq<u8>) -> BuilderView {
        BuilderView {
            env: self.env.insert(lossy_text(name), lossy_text(value)),
            command: self.command.with_env(name, value),
            ..self
        }
    }

    /// The builder for the database, where the environment variables of this
    /// process are `vars`.
    pub open spec fn database(out_dir: Seq<char>, vars: Seq<(Seq<u8>, Seq<u8>)>) -> BuilderView {
        let bin = cockroachdb_bin_path(out_dir);
        let settings = seq![(encode_utf8("GOTRACEBACK"@), encode_utf8("crash"@))] + vars;
        BuilderView {
            listen_port: 0,
            env: reported_env(settings),
            args: seq![bin, "start-single-node"@, "--insecure"@, "--http-addr=:0"@],
            command: CommandView {
                program: bin,
                args: seq![
                    encode_utf8("start-single-node"@),
                    encode_utf8("--insecure"@),
                    encode_utf8("--http-addr=:0"@),
                ],
                clear_env: true,
                env: settings,
            },
            redirect_stdio: false,
        }
    }

    /// The builder with the arguments that depend on the temporary directory.
    pub open spec fn with_directory(self, temp_dir: Seq<char>) -> BuilderView {
        self.with_text(store_arg_for(store_dir_in(temp_dir))).with_text("--listen-addr"@).with_text(
            "[::1]:"@ + decimal(self.listen_port as nat),
        ).with_text("--listening-url-file"@).with_text(path_in(temp_dir, "listen-url"@))
    }

    /// What is built in the temporary directory `temp_dir`.
    pub open spec fn built(self, temp_dir: Seq<char>) -> StarterView {
        let full = self.with_directory(temp_dir);
        StarterView {
            temp_dir,
            listen_url_file: path_in(temp_dir, "listen-url"@),
            env: full.env,
            args: full.args,
            command: full.command,
            redirect: if self.redirect_stdio {
                Some(
                    RedirectView {
                        stdout: path_in(temp_dir, "cockroachdb_stdout"@),
                        stderr: path_in(temp_dir, "cockroachdb_stderr"@),
                    },
                )
            } else {
                None
            },
        }
    }
}

/// One more argument is one more word.
proof fn lemma_reported_arg(command: CommandView, arg: Seq<u8>)
    ensures
        reported_args(command.with_arg(arg)) == reported_args(command).push(lossy_text(arg)),
{
    assert(reported_args(command.with_arg(arg)) =~= reported_args(command).push(lossy_text(arg)));
}

/// One more setting replaces what was reported under its name.
proof fn lemma_reported_setting(settings: Seq<(Seq<u8>, Seq<u8>)>, name: Seq<u8>, value: Seq<u8>)
    ensures
        reported_env(settings.push((name, value))) == reported_env(settings).insert(
            lossy_text(name),
            lossy_text(value),
        ),
{
    let read = |setting: (Seq<u8>, Seq<u8>)| (lossy_text(setting.0), lossy_text(setting.1));
    let after = settings.push((name, value)).map_values(read);
    assert(after.drop_last() == settings.map_values(read));
}

impl CockroachStarterBuilder {
    /// What is reported is what will be run.
    pub closed spec fn wf(self) -> bool {
        &&& self.env.wf()
        &&& self@.mirrors_command()
    }

    /// What is reported, the words of the command line and the environment variables,
    /// is what will be run, as far as it can be read as text.
    pub proof fn law_reports_command(self)
        requires
            self.wf(),
        ensures
            self@.mirrors_command(),
    {
    }

    /// A builder for the database binary under `out_dir`, which runs in the
    /// environment `vars`.
    ///
    /// The environment of this process is copied rather than inherited, so that
    /// what is reported is what is used. Go is configured to generate a core file
    /// on fatal error, unless `vars` says otherwise.
    ///
    /// We use single-node insecure mode listening only on localhost.
    pub fn new(out_dir: &str, vars: &Vec<(Vec<u8>, Vec<u8>)>) -> (r: CockroachStarterBuilder)
        ensures
            r.wf(),
            r@ == BuilderView::database(out_dir@, vars.deep_view()),
            all_text(vars.deep_view()) ==> r@.env == settled(
                seq![("GOTRACEBACK"@, "crash"@)] + as_text(vars.deep_view()),
            ),
    {
        let bin = cockroachdb_bin(out_dir);
        let mut builder = CockroachStarterBuilder::new_raw(bin.as_str());
        builder.command.env_clear();
        builder.env("GOTRACEBACK".as_bytes(), "crash".as_bytes());
        let ghost first = (encode_utf8("GOTRACEBACK"@), encode_utf8("crash"@));
        let ghost all = vars.deep_view();
        let mut i: usize = 0;
        assert(builder@.command.env == seq![first] + all.take(0));
        while i < vars.len()
            invariant
                i <= vars@.len(),
                all == vars.deep_view(),
                builder.wf(),
                builder@.listen_port == 0,
                !builder@.redirect_stdio,
                builder@.args == seq![bin@],
                builder@.command == (CommandView {
                    program: bin@,
                    args: Seq::empty(),
                    clear_env: true,
                    env: seq![first] + all.take(i as int),
                }),
                forall|j: int|
                    0 <= j < i ==> #[trigger] reads_setting(all[j]),
            decreases vars@.len() - i,
        {
            builder.env(vars[i].0.as_slice(), vars[i].1.as_slice());
            assert(vars@[i as int].0.deep_view() == vars@[i as int].0@);
            assert(vars@[i as int].1.deep_view() == vars@[i as int].1@);
            assert(builder@.command.env == seq![first] + all.take(i + 1));
            assert(reads_setting(all[i as int]));
            i = i + 1;
        }
        assert(all.take(all.len() as int) == all);
        proof {
            encode_utf8_valid_utf8("GOTRACEBACK"@);
            encode_utf8_decode_utf8("GOTRACEBACK"@);
            encode_utf8_valid_utf8("crash"@);
            encode_utf8_decode_utf8("crash"@);
            if all_text(all) {
                let read = |setting: (Seq<u8>, Seq<u8>)|
                    (lossy_text(setting.0), lossy_text(setting.1));
                let texts = seq![("GOTRACEBACK"@, "crash"@)] + as_text(all);
                assert((seq![first] + all).map_values(read) == texts) by {
                    assert forall|j: int| 0 <= j < texts.len() implies (seq![first]
                        + all).map_values(read)[j] == texts[j] by {
                        if j > 0 {
                            assert(reads_setting(all[j - 1]));
                            assert(valid_utf8(all[j - 1].0) && valid_utf8(all[j - 1].1));
                        }
                    }
                }
            }
        }
        builder.arg_text("start-single-node");
        builder.arg_text("--insecure");
        builder.arg_text("--http-addr=:0");
        assert(builder@ == BuilderView::database(out_dir@, vars.deep_view()));
        builder
    }

    /// A builder that runs a specific command instead of the usual `cockroach`
    /// binary.
    ///
    /// This is used by [`Self::new`] as a starting point.  It's also used to
    /// trigger failure modes that would be hard to reproduce with `cockroach`
    /// itself.
    pub fn new_raw(cmd: &str) -> (r: CockroachStarterBuilder)
        ensures
            r.wf(),
            r@ == BuilderView::raw(cmd@),
    {
        let mut args: Vec<String> = Vec::new();
        args.push(cmd.to_owned());
        let builder = CockroachStarterBuilder {
            listen_port: 0,
            env: Environment::new(),
            args,
            command: CommandPlan::new(cmd),
            redirect_stdio: false,
        };
        assert(builder@.args == seq![cmd@]);
        assert(reported_args(builder@.command) == seq![cmd@]);
        builder
    }

    /// Redirect stdout and stderr for the "cockroach" process to files within
    /// the temporary directory.  This is used by the test suite so that people
    /// don't get reams of irrelevant output.  This will be cleaned up as usual on
    /// success.
    pub fn redirect_stdio_to_files(self) -> (r: CockroachStarterBuilder)
        requires
            self.wf(),
        ensures
            r.wf(),
            r@ == (BuilderView { redirect_stdio: true, ..self@ }),
    {
        CockroachStarterBuilder { redirect_stdio: true, ..self }
    }

    /// Adds an argument to the command, and records it so that we can print out
    /// the command line before we run it.
    pub fn arg(&mut self, arg: &[u8])
        requires
            old(self).wf(),
        ensures
            final(self).wf(),
            final(self)@ == old(self)@.with_arg(arg@),
            reads_as_text(arg@),
    {
        self.args.push(decode_lossy(arg));
        self.command.arg(arg);
        proof {
            lemma_reported_arg(old(self)@.command, arg@);
            assert(self@.args == old(self)@.args.push(lossy_text(arg@)));
        }
    }

    /// Adds an argument that is text.
    pub fn arg_text(&mut self, arg: &str)
        requires
            old(self).wf(),
        ensures
            final(self).wf(),
            final(self)@ == old(self)@.with_text(arg@),
    {
        let bytes = arg.as_bytes();
        self.args.push(decode_lossy(bytes));
        self.command.arg(bytes);
        proof {
            encode_utf8_valid_utf8(arg@);
            encode_utf8_decode_utf8(arg@);
            lemma_reported_arg(old(self)@.command, bytes@);
            assert(self@.args == old(self)@.args.push(arg@));
        }
    }

    /// Sets an environment variable of the command, and records it so that we can
    /// print it out before running the command.
    pub fn env(&mut self, name: &[u8], value: &[u8])
        requires
            old(self).wf(),
        ensures
            final(self).wf(),
            final(self)@ == old(self)@.with_env(name@, value@),
            reads_as_text(name@),
            reads_as_text(value@),
    {
        self.env.set(decode_lossy(name), decode_lossy(value));
        self.command.env(name, value);
        proof {
            lemma_reported_setting(old(self)@.command.env, name@, value@);
        }
    }

    /// The path of a file in the temporary directory.
    fn temp_path(temp_dir: &str, file: &str) -> (r: String)
        requires
            file@.len() > 0,
            file@[0] != '/',
        ensures
            r@ == path_in(temp_dir@, file@),
    {
        join_path(temp_dir, file)
    }

    /// What starts CockroachDB with the configured command-line arguments, in a
    /// temporary directory that was created for it. The listening URL file and the
    /// database store directory are inside that directory.
    ///
    /// The CockroachDB automatic emergency ballast file is disabled, by setting
    /// its size to 0: many instances at once would eat a large amount of disk
    /// space.
    pub fn build(self, temp_dir: &str) -> (r: CockroachStarter)
        requires
            self.wf(),
        ensures
            r.wf(),
            r@ == self@.built(temp_dir@),
    {
        proof {
            reveal_strlit("data");
            reveal_strlit("listen-url");
            reveal_strlit("cockroachdb_stdout");
            reveal_strlit("cockroachdb_stderr");
        }
        let mut builder = self;
        let store_dir = CockroachStarterBuilder::temp_path(temp_dir, "data");
        let store_arg = "--store=path=".to_owned().concat(store_dir.as_str()).concat(
            ",ballast-size=0",
        );
        let listen_url_file = CockroachStarterBuilder::temp_path(temp_dir, "listen-url");
        let listen_arg = "[::1]:".to_owned().concat(
            decimal_text(builder.listen_port as u64).as_str(),
        );
        builder.arg_text(store_arg.as_str());
        builder.arg_text("--listen-addr");
        builder.arg_text(listen_arg.as_str());
        builder.arg_text("--listening-url-file");
        builder.arg_text(listen_url_file.as_str());
        let redirect = if builder.redirect_stdio {
            Some(
                Redirect {
                    stdout: CockroachStarterBuilder::temp_path(temp_dir, "cockroachdb_stdout"),
                    stderr: CockroachStarterBuilder::temp_path(temp_dir, "cockroachdb_stderr"),
                },
            )
        } else {
            None
        };
        CockroachStarter::assemble(
            temp_dir.to_owned(),
            listen_url_file,
            builder.env,
            builder.args,
            builder.command,
            redirect,
        )
    }
}

/// The database runs in the environment that was handed over, whatever that of this
/// process is by then. Go is told to generate a core file, unless the variables that
/// were handed over say otherwise.
pub proof fn law_environment_is_copied(
    out_dir: Seq<char>,
    vars: Seq<(Seq<u8>, Seq<u8>)>,
    temp_dir: Seq<char>,
    inherited: Map<Seq<u8>, Seq<u8>>,
)
    ensures
        BuilderView::database(out_dir, vars).built(temp_dir).command.environment(inherited)
            == Map::<Seq<u8>, Seq<u8>>::empty().insert(
            encode_utf8("GOTRACEBACK"@),
            encode_utf8("crash"@),
        ).union_prefer_right(settled(vars)),
{
    let first = seq![(encode_utf8("GOTRACEBACK"@), encode_utf8("crash"@))];
    law_later_settings_count(first, vars);
    assert(first.drop_last() == Seq::<(Seq<u8>, Seq<u8>)>::empty());
    assert(settled(first.drop_last()) == Map::<Seq<u8>, Seq<u8>>::empty());
    assert(settled(first) == Map::<Seq<u8>, Seq<u8>>::empty().insert(first[0].0, first[0].1));
}

/// Two instances that are started in different temporary directories get in each
/// other's way nowhere: they have different listen URL files and different store
/// directories. Directories are different unless they are written alike, but for a
/// `/` at the end.
pub proof fn law_separate_directories(
    first: BuilderView,
    second: BuilderView,
    first_dir: Seq<char>,
    second_dir: Seq<char>,
)
    requires
        path_in(first_dir, Seq::empty()) != path_in(second_dir, Seq::empty()),
    ensures
        first.built(first_dir).listen_url_file != second.built(second_dir).listen_url_file,
        store_dir_in(first_dir) != store_dir_in(second_dir),
        first.built(first_dir).args[first.args.len() as int] == store_arg_for(
            store_dir_in(first_dir),
        ),
        second.built(second_dir).args[second.args.len() as int] == store_arg_for(
            store_dir_in(second_dir),
        ),
{
    lemma_same_file("listen-url"@, first_dir, second_dir);
    lemma_same_file("data"@, first_dir, second_dir);
}

/// Whether a path leads to something inside a directory.
pub open spec fn lies_in(dir: Seq<char>, path: Seq<char>) -> bool {
    path_in(dir, Seq::empty()).is_prefix_of(path) && path.len() > path_in(dir, Seq::empty()).len()
}

/// Whether one of two directories is the other, or lies inside it.
pub open spec fn nested(first_dir: Seq<char>, second_dir: Seq<char>) -> bool {
    path_in(first_dir, Seq::empty()).is_prefix_of(path_in(second_dir, Seq::empty())) || path_in(
        second_dir,
        Seq::empty(),
    ).is_prefix_of(path_in(first_dir, Seq::empty()))
}

/// An instance keeps to its temporary directory: its store directory, its listen URL
/// file and the files that take its output, all of which its command line or its
/// redirection names, lie in that directory, and none of them lies in another
/// directory, where neither of the two lies inside the other.
pub proof fn law_own_directory_only(builder: BuilderView, dir: Seq<char>, other_dir: Seq<char>)
    requires
        !nested(dir, other_dir),
    ensures
        builder.built(dir).temp_dir == dir,
        builder.built(dir).args == builder.args + seq![
            store_arg_for(store_dir_in(dir)),
            "--listen-addr"@,
            "[::1]:"@ + decimal(builder.listen_port as nat),
            "--listening-url-file"@,
            builder.built(dir).listen_url_file,
        ],
        lies_in(dir, store_dir_in(dir)),
        lies_in(dir, builder.built(dir).listen_url_file),
        !lies_in(other_dir, store_dir_in(dir)),
        !lies_in(other_dir, builder.built(dir).listen_url_file),
        builder.built(dir).redirect matches Some(redirect) ==> {
            &&& lies_in(dir, redirect.stdout) && !lies_in(other_dir, redirect.stdout)
            &&& lies_in(dir, redirect.stderr) && !lies_in(other_dir, redirect.stderr)
        },
{
    reveal_strlit("data");
    reveal_strlit("listen-url");
    reveal_strlit("cockroachdb_stdout");
    reveal_strlit("cockroachdb_stderr");
    lemma_own_file("data"@, dir, other_dir);
    lemma_own_file("listen-url"@, dir, other_dir);
    lemma_own_file("cockroachdb_stdout"@, dir, other_dir);
    lemma_own_file("cockroachdb_stderr"@, dir, other_dir);
}

/// A file in a directory lies in that directory, and in no other that is apart from
/// it.
proof fn lemma_own_file(file: Seq<char>, dir: Seq<char>, other_dir: Seq<char>)
    requires
        file.len() > 0,
        !nested(dir, other_dir),
    ensures
        lies_in(dir, path_in(dir, file)),
        !lies_in(other_dir, path_in(dir, file)),
{
    let own = path_in(dir, Seq::empty());
    let other = path_in(other_dir, Seq::empty());
    let path = path_in(dir, file);
    assert(path == own + file);
    assert(own == path.take(own.len() as int));
    if other.is_prefix_of(path) {
        assert(other == path.take(other.len() as int));
        if other.len() <= own.len() {
            assert(other == own.take(other.len() as int));
        } else {
            assert(own == other.take(own.len() as int));
        }
    }
}

/// A file with the same name in two directories is the same only if the directories
/// are.
proof fn lemma_same_file(file: Seq<char>, first_dir: Seq<char>, second_dir: Seq<char>)
    requires
        path_in(first_dir, Seq::empty()) != path_in(second_dir, Seq::empty()),
    ensures
        path_in(first_dir, file) != path_in(second_dir, file),
{
    let first = path_in(first_dir, Seq::empty());
    let second = path_in(second_dir, Seq::empty());
    assert(path_in(first_dir, file) == first + file);
    assert(path_in(second_dir, file) == second + file);
    if first + file == second + file {
        assert(first.len() == second.len());
        assert(first == (first + file).take(first.len() as int));
        assert(second == (second + file).take(second.len() as int));
    }
}

/// A list of settings, then another: where both set a name, the later one counts.
/// So the variables that the caller hands over take precedence over those that
/// the harness sets first.
pub proof fn law_later_settings_count<K, V>(first: Seq<(K, V)>, second: Seq<(K, V)>)
    ensures
        settled(first + second) == settled(first).union_prefer_right(settled(second)),
    decreases second.len(),
{
    if second.len() == 0 {
        assert(first + second == first);
        assert(settled(first + second) =~= settled(first).union_prefer_right(settled(second)));
    } else {
        law_later_settings_count(first, second.drop_last());
        assert((first + second).drop_last() == first + second.drop_last());
        assert(settled(first + second) =~= settled(first).union_prefer_right(settled(second)));
    }
}

/// What is reported as the command line is the program and then each argument, read as
/// text.
pub proof fn law_reported_args(command: CommandView, i: int)
    ensures
        reported_args(command).len() == command.args.len() + 1,
        reported_args(command)[0] == command.program,
        0 <= i < command.args.len() ==> reported_args(command)[i + 1] == lossy_text(
            command.args[i],
        ),
{
}

/// What is reported as the environment is each setting, read as text, unless a later
/// one reads like it by name; and nothing else.
pub proof fn law_reported_env(settings: Seq<(Seq<u8>, Seq<u8>)>, i: int, name: Seq<char>)
    ensures
        0 <= i < settings.len() && (forall|j: int|
            i < j < settings.len() ==> lossy_text((#[trigger] settings[j]).0) != lossy_text(
                settings[i].0,
            )) ==> reported_env(settings).contains_pair(
            lossy_text(settings[i].0),
            lossy_text(settings[i].1),
        ),
        (forall|j: int|
            0 <= j < settings.len() ==> lossy_text((#[trigger] settings[j]).0) != name)
            ==> !reported_env(settings).contains_key(name),
{
    let read = |setting: (Seq<u8>, Seq<u8>)| (lossy_text(setting.0), lossy_text(setting.1));
    let texts = settings.map_values(read);
    if 0 <= i < settings.len() && (forall|j: int|
        i < j < settings.len() ==> lossy_text((#[trigger] settings[j]).0) != lossy_text(
            settings[i].0,
        )) {
        assert forall|j: int| i < j < texts.len() implies (#[trigger] texts[j]).0 != texts[i].0 by {
            assert(lossy_text(settings[j].0) != lossy_text(settings[i].0));
        }
        law_last_setting_holds(texts, i);
    }
    if forall|j: int| 0 <= j < settings.len() ==> lossy_text((#[trigger] settings[j]).0) != name {
        assert forall|j: int| 0 <= j < texts.len() implies (#[trigger] texts[j]).0 != name by {
            assert(lossy_text(settings[j].0) != name);
        }
        law_only_settings_hold(texts, name);
    }
}

/// A builder for a program starts with that program alone, lets the system choose the
/// port, inherits the environment of this process and leaves the output where it goes.
pub proof fn law_raw_builder(program: Seq<char>)
    ensures
        ({
            let builder = BuilderView::raw(program);
            &&& builder.args == seq![program]
            &&& builder.env == Map::<Seq<char>, Seq<char>>::empty()
            &&& builder.listen_port == 0
            &&& !builder.redirect_stdio
            &&& builder.command.program == program
            &&& builder.command.args.len() == 0
            &&& builder.command.env.len() == 0
            &&& !builder.command.clear_env
        }),
{
}

/// Whatever argument is added goes behind those that are there, both in what is run and
/// in what is reported, and changes nothing else.
pub proof fn law_added_argument(builder: BuilderView, bytes: Seq<u8>, text: Seq<char>)
    ensures
        ({
            let longer = builder.with_arg(bytes);
            &&& longer.command.args == builder.command.args + seq![bytes]
            &&& longer.args == builder.args + seq![lossy_text(bytes)]
            &&& longer.env == builder.env && longer.command.env == builder.command.env
            &&& longer.command.program == builder.command.program
            &&& longer.command.clear_env == builder.command.clear_env
            &&& longer.listen_port == builder.listen_port
            &&& longer.redirect_stdio == builder.redirect_stdio
        }),
        ({
            let longer = builder.with_text(text);
            &&& longer.command.args == builder.command.args + seq![encode_utf8(text)]
            &&& longer.args == builder.args + seq![text]
            &&& longer.env == builder.env && longer.command.env == builder.command.env
            &&& longer.command.program == builder.command.program
            &&& longer.command.clear_env == builder.command.clear_env
            &&& longer.listen_port == builder.listen_port
            &&& longer.redirect_stdio == builder.redirect_stdio
        }),
{
}

/// Whatever variable is set is set in what is run and in what is reported, in place of
/// an earlier value, and changes nothing else.
pub proof fn law_added_variable(
    builder: BuilderView,
    name: Seq<u8>,
    value: Seq<u8>,
    other: Seq<char>,
)
    ensures
        ({
            let set = builder.with_env(name, value);
            &&& set.command.env == builder.command.env + seq![(name, value)]
            &&& set.env.contains_pair(lossy_text(name), lossy_text(value))
            &&& other != lossy_text(name) ==> (set.env.contains_key(other)
                <==> builder.env.contains_key(other)) && (builder.env.contains_key(other)
                ==> set.env[other] == builder.env[other])
            &&& set.args == builder.args && set.command.args == builder.command.args
            &&& set.command.program == builder.command.program
            &&& set.command.clear_env == builder.command.clear_env
            &&& set.listen_port == builder.listen_port
            &&& set.redirect_stdio == builder.redirect_stdio
        }),
{
}

/// The builder for the database runs its binary as a single insecure node, in the
/// variables that were handed over and the one that comes before them, and in nothing
/// that this process has besides.
pub proof fn law_database_builder(out_dir: Seq<char>, vars: Seq<(Seq<u8>, Seq<u8>)>)
    ensures
        ({
            let builder = BuilderView::database(out_dir, vars);
            let bin = path_in(out_dir, "cockroachdb/bin/cockroach"@);
            &&& builder.args == seq![bin, "start-single-node"@, "--insecure"@, "--http-addr=:0"@]
            &&& builder.command.program == bin
            &&& builder.command.args == seq![
                encode_utf8("start-single-node"@),
                encode_utf8("--insecure"@),
                encode_utf8("--http-addr=:0"@),
            ]
            &&& builder.command.clear_env
            &&& builder.command.env.len() == vars.len() + 1
            &&& builder.command.env[0] == (encode_utf8("GOTRACEBACK"@), encode_utf8("crash"@))
            &&& builder.command.env.skip(1) == vars
            &&& builder.env == reported_env(builder.command.env)
            &&& builder.listen_port == 0
            &&& !builder.redirect_stdio
        }),
{
    law_cockroachdb_bin(out_dir);
    let first = seq![(encode_utf8("GOTRACEBACK"@), encode_utf8("crash"@))];
    assert((first + vars).skip(1) == vars);
}

/// What is built runs what was configured, with five more arguments: the store
/// directory, without ballast, the address to listen on, and the listen URL file, both
/// in the temporary directory. The environment is that of the builder.
pub proof fn law_built_command(builder: BuilderView, temp_dir: Seq<char>)
    ensures
        ({
            let built = builder.built(temp_dir);
            let more = seq![
                "--store=path="@ + path_in(temp_dir, "data"@) + ",ballast-size=0"@,
                "--listen-addr"@,
                "[::1]:"@ + decimal(builder.listen_port as nat),
                "--listening-url-file"@,
                path_in(temp_dir, "listen-url"@),
            ];
            &&& built.temp_dir == temp_dir
            &&& built.listen_url_file == path_in(temp_dir, "listen-url"@)
            &&& built.args == builder.args + more
            &&& built.env == builder.env
            &&& built.command.program == builder.command.program
            &&& built.command.args == builder.command.args + more.map_values(
                |text: Seq<char>| encode_utf8(text),
            )
            &&& built.command.env == builder.command.env
            &&& built.command.clear_env == builder.command.clear_env
        }),
{
    let built = builder.built(temp_dir);
    let more = seq![
        "--store=path="@ + path_in(temp_dir, "data"@) + ",ballast-size=0"@,
        "--listen-addr"@,
        "[::1]:"@ + decimal(builder.listen_port as nat),
        "--listening-url-file"@,
        path_in(temp_dir, "listen-url"@),
    ];
    assert(built.args =~= builder.args + more);
    assert(built.command.args =~= builder.command.args + more.map_values(
        |text: Seq<char>| encode_utf8(text),
    ));
}

/// The output goes to files if and only if that was asked for, whatever else was
/// configured, and then to two different ones in the temporary directory.
pub proof fn law_redirected_when_asked(builder: BuilderView, temp_dir: Seq<char>)
    ensures
        builder.built(temp_dir).redirect is Some <==> builder.redirect_stdio,
        builder.built(temp_dir).redirect matches Some(files) ==> {
            &&& files.stdout == path_in(temp_dir, "cockroachdb_stdout"@)
            &&& files.stderr == path_in(temp_dir, "cockroachdb_stderr"@)
            &&& files.stdout != files.stderr
        },
{
    if let Some(files) = builder.built(temp_dir).redirect {
        reveal_strlit("cockroachdb_stdout");
        reveal_strlit("cockroachdb_stderr");
        assert("cockroachdb_stdout"@.len() == 18 && "cockroachdb_stderr"@.len() == 18);
        assert(files.stdout.len() == files.stderr.len());
        assert(files.stdout.last() == 't' && files.stderr.last() == 'r');
    }
}

/// UTF-8 is decoded variable by variable, and only what is all UTF-8 counts as text.
pub proof fn law_as_text(vars: Seq<(Seq<u8>, Seq<u8>)>, i: int)
    ensures
        as_text(vars).len() == vars.len(),
        0 <= i < vars.len() ==> as_text(vars)[i] == (decode_utf8(vars[i].0), decode_utf8(vars[i].1)),
        (forall|j: int|
            0 <= j < vars.len() ==> valid_utf8((#[trigger] vars[j]).0) && valid_utf8(vars[j].1))
            ==> all_text(vars),
{
}

} // verus!
