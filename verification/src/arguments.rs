//! The arguments that the command line accepts, and their taking apart by
//! `clap`.

use std::path::PathBuf;
use vstd::prelude::*;

use crate::cli;
use crate::decimal;
use crate::paths;
use crate::text;

verus! {

/// What kind of value an argument takes.
pub enum ArgKind {
    /// None: the argument is there or not.
    Switch,
    /// Any text.
    Text,
    /// A path.
    Path,
    /// A 32-bit number.
    U32,
    /// A 64-bit number.
    U64,
    /// One of the given texts, each of which has a help text.
    Choice(Seq<(Seq<char>, Seq<char>)>),
}

/// What an argument is called and how it goes together with others. One without
/// a short and a long name is positional.
pub struct ArgSpec {
    pub id: &'static str,
    pub short: Option<char>,
    pub long: Option<&'static str>,
    pub alias: Option<&'static str>,
    pub value_name: Option<&'static str>,
    pub default: Option<&'static str>,
    pub help: &'static str,
    pub required: bool,
    pub conflicts: Vec<&'static str>,
}

/// The abstract form of an [`ArgSpec`].
pub struct ArgDecl {
    pub id: Seq<char>,
    pub short: Option<char>,
    pub long: Option<Seq<char>>,
    pub alias: Option<Seq<char>>,
    pub value_name: Option<Seq<char>>,
    pub default: Option<Seq<char>>,
    pub help: Seq<char>,
    pub required: bool,
    pub conflicts: Seq<Seq<char>>,
}

/// The views of some texts.
pub open spec fn views(texts: Seq<&'static str>) -> Seq<Seq<char>> {
    Seq::new(texts.len(), |i: int| texts[i]@)
}

/// The views of some texts and of the help text for each.
pub open spec fn choice_views(choices: Seq<(&'static str, &'static str)>) -> Seq<
    (Seq<char>, Seq<char>),
> {
    Seq::new(choices.len(), |i: int| (choices[i].0@, choices[i].1@))
}

/// Whether a text is one of those offered.
pub open spec fn offers(choices: Seq<(Seq<char>, Seq<char>)>, choice: Seq<char>) -> bool {
    exists|i: int| 0 <= i < choices.len() && #[trigger] choices[i].0 == choice
}

impl View for ArgSpec {
    type V = ArgDecl;

    open spec fn view(&self) -> ArgDecl {
        ArgDecl {
            id: self.id@,
            short: self.short,
            long: text::view_of(self.long),
            alias: text::view_of(self.alias),
            value_name: text::view_of(self.value_name),
            default: text::view_of(self.default),
            help: self.help@,
            required: self.required,
            conflicts: views(self.conflicts@),
        }
    }
}

/// A whole command line: the name and version of the program, its descriptions
/// for the short and the long help, and its arguments.
pub struct CommandDecl {
    pub name: Seq<char>,
    pub version: Seq<char>,
    pub about: Seq<char>,
    pub long_about: Seq<char>,
    pub args: Seq<(ArgDecl, ArgKind)>,
}

impl CommandDecl {
    /// The command line with one more argument.
    pub open spec fn with(self, arg: ArgDecl, kind: ArgKind) -> CommandDecl {
        CommandDecl { args: self.args.push((arg, kind)), ..self }
    }
}

/// What a command line gave: the switches that are on, and the values of the
/// other arguments that have one, all by the identifier of the argument. A value
/// may be the default of its argument; `given` are the arguments that were on
/// the command line.
pub struct Matched {
    pub given: Set<Seq<char>>,
    pub switches: Set<Seq<char>>,
    pub texts: Map<Seq<char>, Seq<char>>,
    pub paths: Map<Seq<char>, PathBuf>,
    pub u32s: Map<Seq<char>, u32>,
    pub u64s: Map<Seq<char>, u64>,
}

impl Matched {
    /// Whether the argument is on or has a value.
    pub open spec fn has(self, id: Seq<char>, kind: ArgKind) -> bool {
        match kind {
            ArgKind::Switch => self.switches.contains(id),
            ArgKind::Text => self.texts.contains_key(id),
            ArgKind::Path => self.paths.contains_key(id),
            ArgKind::U32 => self.u32s.contains_key(id),
            ArgKind::U64 => self.u64s.contains_key(id),
            ArgKind::Choice(_) => self.texts.contains_key(id),
        }
    }

    /// Whether no two arguments are on or have a value of which one excludes the
    /// other. One that has a value by default is left out.
    pub open spec fn respects_conflicts(self, args: Seq<(ArgDecl, ArgKind)>) -> bool {
        forall|i: int, j: int|
            #![trigger args[i], args[j]]
            0 <= i < args.len() && 0 <= j < args.len() && args[i].0.default is None
                && args[j].0.default is None && args[i].0.conflicts.contains(
                args[j].0.id,
            ) ==> !(self.has(args[i].0.id, args[i].1) && self.has(args[j].0.id, args[j].1))
    }

    /// Whether every required argument was given that nothing excludes.
    pub open spec fn respects_required(self, args: Seq<(ArgDecl, ArgKind)>) -> bool {
        forall|i: int|
            #![trigger args[i]]
            0 <= i < args.len() && args[i].0.required && args[i].0.conflicts.len() == 0 && (forall|
                j: int,
            |
                #![trigger args[j]]
                0 <= j < args.len() ==> !args[j].0.conflicts.contains(args[i].0.id)) ==> self.has(
                args[i].0.id,
                args[i].1,
            )
    }

    /// Whether the value of an argument is the given default.
    pub open spec fn holds_default(
        self,
        id: Seq<char>,
        kind: ArgKind,
        default: Seq<char>,
    ) -> bool {
        match kind {
            ArgKind::Switch => true,
            ArgKind::Text => self.texts[id] == default,
            ArgKind::Path => self.paths[id] == paths::text_path(default),
            ArgKind::U32 => decimal::u64_of_text(default) == Some(self.u32s[id] as u64),
            ArgKind::U64 => decimal::u64_of_text(default) == Some(self.u64s[id]),
            ArgKind::Choice(_) => self.texts[id] == default,
        }
    }

    /// Whether every argument with a default has a value, and has its default
    /// where it was not given. Nothing is said of the value of a switch.
    pub open spec fn respects_defaults(self, args: Seq<(ArgDecl, ArgKind)>) -> bool {
        forall|i: int|
            #![trigger args[i]]
            0 <= i < args.len() && args[i].0.default is Some && !(args[i].1 is Switch) ==> {
                &&& self.has(args[i].0.id, args[i].1)
                &&& !self.given.contains(args[i].0.id) ==> self.holds_default(
                    args[i].0.id,
                    args[i].1,
                    args[i].0.default->0,
                )
            }
    }

    /// Whether every choice that was made is one of those offered.
    pub open spec fn respects_choices(self, args: Seq<(ArgDecl, ArgKind)>) -> bool {
        forall|i: int|
            #![trigger args[i]]
            0 <= i < args.len() && args[i].1 is Choice && self.texts.contains_key(args[i].0.id)
                ==> offers(args[i].1->Choice_0, self.texts[args[i].0.id])
    }
}

/// A command line that was not accepted, or that asks for help or the version:
/// what to print and what to exit with.
#[derive(Debug)]
pub struct UsageError {
    pub message: String,
    pub exit_code: i32,
}

/// An argument, as `clap` builds it.
#[verifier::external_type_specification]
#[verifier::external_body]
pub struct ExArg(clap::Arg);

/// A command line, as `clap` builds it.
#[verifier::external_type_specification]
#[verifier::external_body]
pub struct ExCommand(clap::Command);

/// The container of what `clap` found on a command line.
#[verifier::external_type_specification]
#[verifier::external_body]
pub struct ExArgMatches(clap::ArgMatches);

/// What was set on an argument.
pub uninterp spec fn arg_settings(arg: clap::Arg) -> ArgDecl;

/// What a command line holds.
pub uninterp spec fn command_contents(command: clap::Command) -> CommandDecl;

/// What a container of matches holds.
pub uninterp spec fn matches_contents(matches: clap::ArgMatches) -> Matched;

/// What `clap` makes of the given arguments: what it found, or the message and
/// the exit code where it accepts none.
pub uninterp spec fn clap_outcome(
    command: CommandDecl,
    argv: Seq<PathBuf>,
) -> Result<Matched, (Seq<char>, i32)>;

/// `Arg::new` of `clap` and its setters for the names, the default, the help text,
/// and the relations to other arguments: the argument holds what was set.
#[verifier::external_body]
pub(crate) fn declare(spec: &ArgSpec) -> (r: clap::Arg)
    requires
        spec.short != Some('-'),
    ensures
        arg_settings(r) == spec@,
{
    clap::Arg::new(spec.id)
        .short(spec.short)
        .long(spec.long)
        .visible_alias(spec.alias)
        .value_name(spec.value_name)
        .default_value(spec.default)
        .help(spec.help)
        .required(spec.required)
        .conflicts_with_all(spec.conflicts.clone())
}

/// `Command::new` of `clap`, with a version and two descriptions: a command line
/// without arguments.
#[verifier::external_body]
pub(crate) fn new_command(
    name: &'static str,
    version: &'static str,
    about: &'static str,
    long_about: &'static str,
) -> (r: clap::Command)
    ensures
        command_contents(r) == (CommandDecl {
            name: name@,
            version: version@,
            about: about@,
            long_about: long_about@,
            args: Seq::empty(),
        }),
{
    clap::Command::new(name).version(version).about(about).long_about(long_about)
}

/// `Command::arg` of `clap` with an argument that takes no value: it is off
/// unless it is given.
#[verifier::external_body]
pub(crate) fn with_switch(command: clap::Command, arg: clap::Arg) -> (r: clap::Command)
    ensures
        command_contents(r) == command_contents(command).with(arg_settings(arg), ArgKind::Switch),
{
    command.arg(arg.action(clap::ArgAction::SetTrue))
}

/// `Command::arg` of `clap` with an argument that takes a text.
#[verifier::external_body]
pub(crate) fn with_text(command: clap::Command, arg: clap::Arg) -> (r: clap::Command)
    ensures
        command_contents(r) == command_contents(command).with(arg_settings(arg), ArgKind::Text),
{
    command.arg(arg.value_parser(clap::builder::ValueParser::string()))
}

/// `Command::arg` of `clap` with an argument that takes a path.
#[verifier::external_body]
pub(crate) fn with_path(command: clap::Command, arg: clap::Arg) -> (r: clap::Command)
    ensures
        command_contents(r) == command_contents(command).with(arg_settings(arg), ArgKind::Path),
{
    command.arg(arg.value_parser(clap::builder::ValueParser::path_buf()))
}

/// `Command::arg` of `clap` with an argument that takes a 32-bit number.
#[verifier::external_body]
pub(crate) fn with_u32(command: clap::Command, arg: clap::Arg) -> (r: clap::Command)
    ensures
        command_contents(r) == command_contents(command).with(arg_settings(arg), ArgKind::U32),
{
    command.arg(arg.value_parser(<u32 as clap::builder::ValueParserFactory>::value_parser()))
}

/// `Command::arg` of `clap` with an argument that takes a 64-bit number.
#[verifier::external_body]
pub(crate) fn with_u64(command: clap::Command, arg: clap::Arg) -> (r: clap::Command)
    ensures
        command_contents(r) == command_contents(command).with(arg_settings(arg), ArgKind::U64),
{
    command.arg(arg.value_parser(<u64 as clap::builder::ValueParserFactory>::value_parser()))
}

/// `Command::arg` of `clap` with an argument that takes one of the given texts,
/// each of which is shown with its help text.
#[verifier::external_body]
pub(crate) fn with_choice(
    command: clap::Command,
    arg: clap::Arg,
    choices: Vec<(&'static str, &'static str)>,
) -> (r: clap::Command)
    ensures
        command_contents(r) == command_contents(command).with(
            arg_settings(arg),
            ArgKind::Choice(choice_views(choices@)),
        ),
{
    let offered = choices.into_iter().map(
        |choice| clap::builder::PossibleValue::new(choice.0).help(choice.1),
    );
    command.arg(arg.value_parser(clap::builder::PossibleValuesParser::new(offered)))
}

/// `Command::try_get_matches_from` of `clap`: takes the arguments apart, the
/// first of which is the name of the program. Arguments that exclude each other
/// are not accepted together, nor is a missing required one that nothing
/// excludes, nor a choice that is not offered. An argument with a default that is
/// not given has that default. What else is accepted, and what
/// is said of the rest, is named here and not spelled out.
#[verifier::external_body]
pub(crate) fn take_apart(command: clap::Command, argv: Vec<PathBuf>) -> (r: Result<
    clap::ArgMatches,
    UsageError,
>)
    requires
        command_contents(command) == cli::command_line(),
    ensures
        r is Ok <==> clap_outcome(command_contents(command), argv@) is Ok,
        r matches Ok(matches) ==> matches_contents(matches) == clap_outcome(
            command_contents(command),
            argv@,
        )->Ok_0,
        r matches Err(error) ==> (error.message@, error.exit_code) == clap_outcome(
            command_contents(command),
            argv@,
        )->Err_0,
        r matches Ok(matches) ==> {
            let args = command_contents(command).args;
            &&& matches_contents(matches).respects_conflicts(args)
            &&& matches_contents(matches).respects_required(args)
            &&& matches_contents(matches).respects_choices(args)
            &&& matches_contents(matches).respects_defaults(args)
        },
{
    command.try_get_matches_from(argv).map_err(
        |error| UsageError {
            message: error.render().to_string(),
            exit_code: error.exit_code(),
        },
    )
}

/// `ArgMatches::try_get_one` of `clap` for a switch.
#[verifier::external_body]
pub(crate) fn switch_in(matches: &clap::ArgMatches, id: &str) -> (r: bool)
    ensures
        r == matches_contents(*matches).switches.contains(id@),
{
    matches.try_get_one::<bool>(id).ok().flatten().copied().unwrap_or(false)
}

/// `ArgMatches::try_get_one` of `clap` for a text or a choice.
#[verifier::external_body]
pub(crate) fn text_in(matches: &clap::ArgMatches, id: &str) -> (r: Option<String>)
    ensures
        r is Some <==> matches_contents(*matches).texts.contains_key(id@),
        r matches Some(text) ==> text@ == matches_contents(*matches).texts[id@],
{
    matches.try_get_one::<String>(id).ok().flatten().cloned()
}

/// `ArgMatches::try_get_one` of `clap` for a path.
#[verifier::external_body]
pub(crate) fn path_in(matches: &clap::ArgMatches, id: &str) -> (r: Option<PathBuf>)
    ensures
        r is Some <==> matches_contents(*matches).paths.contains_key(id@),
        r matches Some(path) ==> path == matches_contents(*matches).paths[id@],
{
    matches.try_get_one::<PathBuf>(id).ok().flatten().cloned()
}

/// `ArgMatches::try_get_one` of `clap` for a 32-bit number.
#[verifier::external_body]
pub(crate) fn u32_in(matches: &clap::ArgMatches, id: &str) -> (r: Option<u32>)
    ensures
        r is Some <==> matches_contents(*matches).u32s.contains_key(id@),
        r matches Some(number) ==> number == matches_contents(*matches).u32s[id@],
{
    matches.try_get_one::<u32>(id).ok().flatten().copied()
}

/// `ArgMatches::try_get_one` of `clap` for a 64-bit number.
#[verifier::external_body]
pub(crate) fn u64_in(matches: &clap::ArgMatches, id: &str) -> (r: Option<u64>)
    ensures
        r is Some <==> matches_contents(*matches).u64s.contains_key(id@),
        r matches Some(number) ==> number == matches_contents(*matches).u64s[id@],
{
    matches.try_get_one::<u64>(id).ok().flatten().copied()
}

} // verus!
