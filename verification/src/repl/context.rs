//! What a command line asks for.

use super::exec::Executor;
use super::exec::Phase;
use crate::lang::resource::Resources;
use crate::lang::resource::StdResources;
use crate::lang::vm::Primitive;
use crate::lang::vm::Vm;
use std::fmt::Debug;
use clap::App;
use clap::Arg;
use clap::ArgMatches;
use vstd::prelude::*;

verus! {

/// A command line under construction, of the `clap` crate.
#[verifier::external_type_specification]
#[verifier::external_body]
pub struct ExApp<'a, 'b>(App<'a, 'b>) where 'a: 'b;

/// What `clap` has found on a command line.
#[verifier::external_type_specification]
#[verifier::external_body]
pub struct ExArgMatches<'a>(ArgMatches<'a>);

/// Why `clap` has not accepted a command line.
#[verifier::external_type_specification]
#[verifier::external_body]
pub struct ExError(clap::Error);

/// An option of a command line as plain values: its name, its short form,
/// its long form, whether it takes a value, whether it takes more than one,
/// and the value that it has where the command line gives none.
pub type OptionRow = (Seq<char>, char, Seq<char>, bool, bool, Option<Seq<char>>);

/// The options that `app` has been given through `App::arg`, in the order
/// in which they were added.
pub uninterp spec fn options_of(app: App) -> Seq<OptionRow>;

/// What `App::get_matches_from_safe` makes of the words `words`, the
/// program's name first, on a command line with the options `options`:
/// nothing where it does not accept them, which is also so where they ask
/// for the help or the version; else every option that it has found, by its
/// name, with its values.
pub uninterp spec fn parsed(options: Seq<OptionRow>, words: Seq<Seq<char>>) -> Option<
    Map<Seq<char>, Seq<Seq<char>>>,
>;

/// What `matches` holds: every option that was found, by its name, with
/// its values as text. The name of a subcommand that was found counts as an
/// option without values.
pub uninterp spec fn found(matches: ArgMatches) -> Map<Seq<char>, Seq<Seq<char>>>;

/// Whether `app` can be given an option with this name, short form and
/// long form: none of its options shares one of the three, and neither
/// form starts with a hyphen.
pub open spec fn is_new_option(app: App, name: Seq<char>, short: char, long: Seq<char>) -> bool {
    &&& short != '-'
    &&& long.len() > 0
    &&& long[0] != '-'
    &&& forall|i: int|
        0 <= i < options_of(app).len() ==> {
            let known = #[trigger] options_of(app)[i];
            known.0 != name && known.1 != short && known.2 != long
        }
}

/// Who a program is, for the help that `clap` writes.
pub struct Program {
    /// The name of the program.
    pub name: String,
    /// Its version.
    pub version: String,
    /// Who wrote it.
    pub author: String,
    /// What it does, in a line.
    pub about: String,
}

/// Why a command line was not accepted, or what it asked to be shown.
#[derive(Debug)]
pub struct UsageError {
    /// The text to show.
    pub message: String,
    /// Whether the command line was wrong; a request for help or for the
    /// version is none.
    pub failure: bool,
}

/// What a command line holds, option by option; nothing where an option
/// with a value is absent.
pub struct CommandLine {
    /// Whether the debug mode is asked for.
    pub debug: bool,
    /// The name of the module to run.
    pub module: Option<String>,
    /// The project root.
    pub root: Option<String>,
    /// The arguments for the module.
    pub arguments: Option<Vec<String>>,
    /// The variables, each written as a name, an equals sign and a value.
    pub variables: Option<Vec<String>>,
}

/// Calls `App::new`, `App::version`, `App::author` and `App::about` of
/// `clap`. The command line that comes back has no option yet.
#[verifier::external_body]
fn application<'a>(program: &'a Program) -> (app: App<'a, 'a>)
    ensures
        options_of(app) == Seq::<OptionRow>::empty(),
{
    App::new(program.name.as_str()).version(program.version.as_str()).author(
        program.author.as_str(),
    ).about(program.about.as_str())
}

/// Calls `App::arg` of `clap` with an `Arg` that has a name, a place in
/// the help, a help text, a short form and a long form: an option that is
/// present or not. Where debug assertions are on, `App::arg` panics on an
/// option that shares its name or a form with an earlier one, and it cuts
/// hyphens off the front of a form: such options are left out. Every
/// other option is added behind those that the command line has.
#[verifier::external_body]
fn flag<'a>(
    app: App<'a, 'a>,
    name: &'a str,
    order: usize,
    help: &'a str,
    short: char,
    long: &'a str,
) -> (r: App<'a, 'a>)
    requires
        is_new_option(app, name@, short, long@),
    ensures
        options_of(r) == options_of(app).push(
            (name@, short, long@, false, false, None::<Seq<char>>),
        ),
{
    app.arg(
        Arg::with_name(name).display_order(order).help(help).short(short.to_string()).long(long),
    )
}

/// Calls `App::arg` of `clap` as [`flag`] does, with an `Arg` that also has
/// a `default_value`: an option with one value.
#[verifier::external_body]
fn valued<'a>(
    app: App<'a, 'a>,
    name: &'a str,
    order: usize,
    help: &'a str,
    short: char,
    long: &'a str,
    default: &'a str,
) -> (r: App<'a, 'a>)
    requires
        is_new_option(app, name@, short, long@),
    ensures
        options_of(r) == options_of(app).push(
            (name@, short, long@, true, false, Some(default@)),
        ),
{
    app.arg(
        Arg::with_name(name).display_order(order).help(help).short(short.to_string()).long(
            long,
        ).default_value(default),
    )
}

/// Calls `App::arg` of `clap` as [`flag`] does, with an `Arg` that also has
/// `takes_value(true)` and `multiple(true)`: an option with any number of
/// values.
#[verifier::external_body]
fn listed<'a>(
    app: App<'a, 'a>,
    name: &'a str,
    order: usize,
    help: &'a str,
    short: char,
    long: &'a str,
) -> (r: App<'a, 'a>)
    requires
        is_new_option(app, name@, short, long@),
    ensures
        options_of(r) == options_of(app).push(
            (name@, short, long@, true, true, None::<Seq<char>>),
        ),
{
    app.arg(
        Arg::with_name(name).display_order(order).help(help).short(short.to_string()).long(
            long,
        ).takes_value(true).multiple(true),
    )
}

/// Calls `App::get_matches_from_safe` of `clap`, which reads the words of a
/// command line, the program's name first. What it finds depends on the
/// options and the words alone: it is what [`parsed`] stands for.
#[verifier::external_body]
fn matches_from<'a>(app: App<'a, 'a>, itr: &Vec<String>) -> (r: Result<
    ArgMatches<'a>,
    clap::Error,
>)
    ensures
        match r {
            Ok(matches) => parsed(options_of(app), itr@.map_values(|w: String| w@)) == Some(
                found(matches),
            ),
            Err(_) => parsed(options_of(app), itr@.map_values(|w: String| w@)) is None,
        },
{
    app.get_matches_from_safe(itr)
}

/// Calls `ArgMatches::is_present` of `clap`: whether `matches` holds the
/// option `name`.
#[verifier::external_body]
fn is_present(matches: &ArgMatches, name: &str) -> (r: bool)
    ensures
        r == found(*matches).contains_key(name@),
{
    matches.is_present(name)
}

/// Calls `ArgMatches::value_of_lossy` of `clap`: the first value of the
/// option `name`, and nothing where `matches` does not hold the option or
/// holds it without a value.
#[verifier::external_body]
fn value_of(matches: &ArgMatches, name: &str) -> (r: Option<String>)
    ensures
        match r {
            Some(v) => found(*matches).contains_key(name@) && found(*matches)[name@].len() > 0
                && v@ == found(*matches)[name@][0],
            None => !found(*matches).contains_key(name@) || found(*matches)[name@].len() == 0,
        },
{
    matches.value_of_lossy(name).map(std::borrow::Cow::into_owned)
}

/// Calls `ArgMatches::values_of_lossy` of `clap`: the values of the option
/// `name`, and nothing where `matches` does not hold the option as one of
/// its own, in which case it has no values.
#[verifier::external_body]
fn values_of(matches: &ArgMatches, name: &str) -> (r: Option<Vec<String>>)
    ensures
        match r {
            Some(v) => found(*matches).contains_key(name@) && v@.map_values(|s: String| s@)
                == found(*matches)[name@],
            None => !found(*matches).contains_key(name@) || found(*matches)[name@].len() == 0,
        },
{
    matches.values_of_lossy(name)
}

/// Takes the message out of a `clap::Error`, and asks `Error::use_stderr`
/// whether it reports a failure. Nothing is claimed of either.
#[verifier::external_body]
fn usage_error(e: clap::Error) -> (r: UsageError) {
    let failure = e.use_stderr();
    UsageError { message: e.message, failure }
}

/// Where the name of a variable ends in `s`: at the first equals sign, or
/// at the end where there is none.
pub open spec fn separator(s: Seq<char>) -> nat
    decreases s.len(),
{
    if s.len() == 0 || s[0] == '=' {
        0
    } else {
        1 + separator(s.drop_first())
    }
}

/// The name of the variable that `s` stands for: what comes before the
/// first equals sign.
pub open spec fn variable_name(s: Seq<char>) -> Seq<char> {
    s.take(separator(s) as int)
}

/// The value of the variable that `s` stands for: what comes after the
/// first equals sign, and nothing where there is none.
pub open spec fn variable_value(s: Seq<char>) -> Seq<char> {
    if separator(s) < s.len() {
        s.skip(separator(s) as int + 1)
    } else {
        Seq::empty()
    }
}

/// The separator lies within the text, no equals sign comes before it, and
/// it is an equals sign unless it is the end.
pub proof fn separator_is_first(s: Seq<char>)
    ensures
        separator(s) <= s.len(),
        forall|i: int| 0 <= i < separator(s) ==> s[i] != '=',
        separator(s) < s.len() ==> s[separator(s) as int] == '=',
    decreases s.len(),
{
    if !(s.len() == 0 || s[0] == '=') {
        let rest = s.drop_first();
        separator_is_first(rest);
        assert forall|i: int| 0 <= i < separator(s) implies s[i] != '=' by {
            if i > 0 {
                assert(s[i] == rest[i - 1]);
            }
        }
    }
}

/// A place that no equals sign comes before, and that holds one or is the
/// end, is the separator.
pub proof fn separator_found(s: Seq<char>, k: int)
    requires
        0 <= k <= s.len(),
        forall|i: int| 0 <= i < k ==> s[i] != '=',
        k < s.len() ==> s[k] == '=',
    ensures
        separator(s) == k,
    decreases s.len(),
{
    if !(s.len() == 0 || s[0] == '=') {
        let rest = s.drop_first();
        assert forall|i: int| 0 <= i < k - 1 implies rest[i] != '=' by {
        }
        separator_found(rest, k - 1);
    }
}

/// The texts that stand in memory after the variables `variables` have
/// been seeded, the first first: each under its name with a dollar sign
/// before it, and a later one in place of an earlier one of its name.
pub open spec fn seeded(variables: Seq<Seq<char>>) -> Map<Seq<char>, Seq<char>>
    decreases variables.len(),
{
    if variables.len() == 0 {
        Map::empty()
    } else {
        seeded(variables.drop_last()).insert(
            seq!['$'] + variable_name(variables.last()),
            variable_value(variables.last()),
        )
    }
}

/// The texts of `list`, or none where there is no list.
pub open spec fn texts(list: Option<Vec<String>>) -> Seq<Seq<char>> {
    match list {
        Some(v) => v@.map_values(|s: String| s@),
        None => Seq::empty(),
    }
}

/// What is known of a run before it starts.
pub struct Context {
    debug_mode: bool,
    start_module: String,
    args: Vec<String>,
}

/// A context as plain values.
pub struct ContextView {
    /// Whether a failure is followed by a session on the standard input.
    pub debug_mode: bool,
    /// The name of the resource that is run first.
    pub start_module: Seq<char>,
    /// The arguments that the first resource is run with.
    pub args: Seq<Seq<char>>,
}

impl View for Context {
    type V = ContextView;

    open spec fn view(&self) -> ContextView {
        ContextView {
            debug_mode: self.debugging(),
            start_module: self.module(),
            args: self.arguments().map_values(|s: String| s@),
        }
    }
}

/// The context that the command line `line` asks for. Where it names no
/// module, the standard input is run.
pub open spec fn configured(line: CommandLine) -> ContextView {
    ContextView {
        debug_mode: line.debug,
        start_module: match line.module {
            Some(m) => m@,
            None => "%STDIN"@,
        },
        args: texts(line.arguments),
    }
}

/// The project root that the command line `line` asks for: the current
/// directory where it names none.
pub open spec fn root_of(line: CommandLine) -> Seq<char> {
    match line.root {
        Some(r) => r@,
        None => "."@,
    }
}

/// The options that a run knows: the flag `debug`, the options `root` and
/// `module` with one value each, and the options `variables` and
/// `arguments` with any number of values.
pub open spec fn command_options() -> Seq<OptionRow> {
    seq![
        ("debug"@, 'd', "debug"@, false, false, None::<Seq<char>>),
        ("root"@, 'r', "root"@, true, false, Some("."@)),
        ("module"@, 'm', "module"@, true, false, Some("%STDIN"@)),
        ("variables"@, 'v', "var"@, true, true, None::<Seq<char>>),
        ("arguments"@, 'a', "arg"@, true, true, None::<Seq<char>>),
    ]
}

/// The first value of the option `name` among the options `options` that
/// were found, and `default` where it has none.
pub open spec fn value_in(
    options: Map<Seq<char>, Seq<Seq<char>>>,
    name: Seq<char>,
    default: Seq<char>,
) -> Seq<char> {
    if options.contains_key(name) && options[name].len() > 0 {
        options[name][0]
    } else {
        default
    }
}

/// The values of the option `name` among the options `options` that were
/// found, and none where it was not found.
pub open spec fn values_in(options: Map<Seq<char>, Seq<Seq<char>>>, name: Seq<char>) -> Seq<
    Seq<char>,
> {
    if options.contains_key(name) {
        options[name]
    } else {
        Seq::empty()
    }
}

/// The context that the options `options` ask for which were found on a
/// command line. Where no module is named, the standard input is run.
pub open spec fn asked(options: Map<Seq<char>, Seq<Seq<char>>>) -> ContextView {
    ContextView {
        debug_mode: options.contains_key("debug"@),
        start_module: value_in(options, "module"@, "%STDIN"@),
        args: values_in(options, "arguments"@),
    }
}

/// The project root that the options `options` ask for which were found on
/// a command line: the current directory where none is named.
pub open spec fn asked_root(options: Map<Seq<char>, Seq<Seq<char>>>) -> Seq<char> {
    value_in(options, "root"@, "."@)
}

/// Whether `resources` are those that the command line `line` asks for.
pub open spec fn provides(resources: StdResources, line: CommandLine) -> bool {
    &&& resources.root() == root_of(line)
    &&& resources.memory().map_values(|s: String| s@) == seeded(texts(line.variables))
}

impl Context {
    /// Whether a failure is followed by a session on the standard input.
    pub closed spec fn debugging(&self) -> bool {
        self.debug_mode
    }

    /// The name of the resource that is run first.
    pub closed spec fn module(&self) -> Seq<char> {
        self.start_module@
    }

    /// The arguments that the first resource is run with.
    pub closed spec fn arguments(&self) -> Seq<String> {
        self.args@
    }

    /// The context of a run without a command line: no debugging, the
    /// standard input as the module, no arguments.
    pub fn new() -> (r: Self)
        ensures
            r@ == (ContextView {
                debug_mode: false,
                start_module: "%STDIN"@,
                args: Seq::empty(),
            }),
    {
        let r = Context { debug_mode: false, start_module: "%STDIN".to_owned(), args: Vec::new() };
        assert(r.args@.map_values(|s: String| s@) =~= Seq::<Seq<char>>::empty());
        r
    }

    /// Splits `input`, written as a name, an equals sign and a value, into
    /// the name and the value. Without an equals sign all of it is the
    /// name.
    pub fn parse_variable(input: &str) -> (r: (String, String))
        ensures
            r.0@ == variable_name(input@),
            r.1@ == variable_value(input@),
    {
        let n: usize = input.unicode_len();
        let mut k: usize = 0;
        while k < n && input.get_char(k) != '='
            invariant
                n == input@.len(),
                k <= n,
                forall|i: int| 0 <= i < k ==> input@[i] != '=',
            decreases n - k,
        {
            k = k + 1;
        }
        proof {
            separator_found(input@, k as int);
        }
        let name = input.substring_char(0, k).to_owned();
        if k < n {
            let value = input.substring_char(k + 1, n).to_owned();
            (name, value)
        } else {
            (name, String::new())
        }
    }

    /// Takes over what the command line `line` asks for, and makes the
    /// resources that it asks for: the project root, and in memory the
    /// variables.
    pub fn configure(&mut self, line: CommandLine) -> (resources: StdResources)
        ensures
            final(self)@ == configured(line),
            provides(resources, line),
    {
        self.debug_mode = line.debug;
        self.start_module = match line.module {
            Some(m) => m,
            None => "%STDIN".to_owned(),
        };
        self.args = match line.arguments {
            Some(list) => list,
            None => Vec::new(),
        };
        assert(self.args@.map_values(|s: String| s@) =~= texts(line.arguments));
        let mut resources = StdResources::new(
            match line.root {
                Some(r) => r,
                None => ".".to_owned(),
            },
        );
        assert(resources.memory().map_values(|s: String| s@) =~= seeded(Seq::empty()));
        match &line.variables {
            Some(list) => {
                let ghost all = texts(line.variables);
                let mut i: usize = 0;
                while i < list.len()
                    invariant
                        i <= list@.len(),
                        all == list@.map_values(|s: String| s@),
                        resources.root() == root_of(line),
                        resources.memory().map_values(|s: String| s@) == seeded(
                            all.take(i as int),
                        ),
                    decreases list@.len() - i,
                {
                    let (name, value) = Self::parse_variable(list[i].as_str());
                    resources.add_resource(name, value);
                    proof {
                        let next = all.take(i + 1);
                        assert(next.drop_last() =~= all.take(i as int));
                    }
                    i = i + 1;
                }
                assert(all.take(i as int) =~= all);
            },
            None => {},
        }
        resources
    }

    /// The command line of `program` with the five options that a run
    /// knows, ready to be read by `clap`.
    fn command_line<'a>(program: &'a Program) -> (app: App<'a, 'a>)
        ensures
            options_of(app) == command_options(),
    {
        let app = application(program);
        proof {
            reveal_strlit("debug");
            reveal_strlit("root");
            reveal_strlit("module");
            reveal_strlit("variables");
            reveal_strlit("var");
            reveal_strlit("arguments");
            reveal_strlit("arg");
            assert("debug"@.len() == 5 && "root"@.len() == 4 && "module"@.len() == 6);
            assert("variables"@.len() == 9 && "var"@.len() == 3);
            assert("arguments"@.len() == 9 && "arg"@.len() == 3);
            assert("variables"@[0] == 'v' && "arguments"@[0] == 'a');
            assert("var"@[0] == 'v' && "arg"@[0] == 'a');
            assert("debug"@[0] == 'd' && "root"@[0] == 'r' && "module"@[0] == 'm');
        }
        let app = flag(app, "debug", 0, "debug mode flag", 'd', "debug");
        assert(options_of(app)[0] == command_options()[0]);
        let app = valued(app, "root", 1, "project root path", 'r', "root", ".");
        assert(options_of(app)[1] == command_options()[1]);
        let app = valued(app, "module", 2, "start module name", 'm', "module", "%STDIN");
        assert(options_of(app)[2] == command_options()[2]);
        let app = listed(app, "variables", 3, "extra resources", 'v', "var");
        assert(options_of(app)[3] == command_options()[3]);
        let app = listed(app, "arguments", 3, "arguments", 'a', "arg");
        assert(options_of(app) =~= command_options());
        app
    }

    /// Reads the command line `itr` of `program`, its name first, and takes
    /// over what it asks for. The options are `-d` or `--debug`, `-r` or
    /// `--root` with the project root, `-m` or `--module` with the module
    /// to run, `-v` or `--var` with variables and `-a` or `--arg` with
    /// arguments. Where `clap` accepts the command line, the context and the
    /// resources are those that the options ask for which it has found. A
    /// command line that it does not accept is a failure and changes
    /// nothing.
    pub fn parse_arg(&mut self, program: &Program, itr: &Vec<String>) -> (r: Result<
        StdResources,
        UsageError,
    >)
        ensures
            match parsed(command_options(), itr@.map_values(|w: String| w@)) {
                Some(options) => r matches Ok(resources) && final(self)@ == asked(options)
                    && resources.root() == asked_root(options) && resources.memory().map_values(
                    |s: String| s@,
                ) == seeded(values_in(options, "variables"@)),
                None => r is Err && *final(self) == *old(self),
            },
    {
        let matches = match matches_from(Self::command_line(program), itr) {
            Ok(m) => m,
            Err(e) => {
                return Err(usage_error(e));
            },
        };
        let ghost options = found(matches);
        let line = CommandLine {
            debug: is_present(&matches, "debug"),
            module: value_of(&matches, "module"),
            root: value_of(&matches, "root"),
            arguments: values_of(&matches, "arguments"),
            variables: values_of(&matches, "variables"),
        };
        proof {
            assert(texts(line.arguments) =~= values_in(options, "arguments"@));
            assert(texts(line.variables) =~= values_in(options, "variables"@));
            assert(configured(line) == asked(options));
            assert(root_of(line) == asked_root(options));
        }
        let resources = self.configure(line);
        Ok(resources)
    }

    /// The run of `vm` in this context, not begun yet.
    pub fn create<T, E: Debug, R: Resources, P: Primitive<T, E, R>>(
        self,
        vm: Vm<T, E, R, P>,
    ) -> (r: Executor<T, E, R, P>)
        ensures
            r.vm == vm,
            r.ctx == self,
            r.phase == Phase::Ready,
    {
        Executor::new(vm, self)
    }

    /// Whether a failure is followed by a session on the standard input.
    pub fn debug_mode(&self) -> (r: bool)
        ensures
            r == self.debugging(),
    {
        self.debug_mode
    }

    /// The name of the resource that is run first.
    pub fn start_module(&self) -> (r: &String)
        ensures
            r@ == self.module(),
    {
        &self.start_module
    }

    /// The arguments that the first resource is run with.
    pub fn args(&self) -> (r: &Vec<String>)
        ensures
            r@ == self.arguments(),
    {
        &self.args
    }
}

} // verus!
