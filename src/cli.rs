//! The command line: its typed form and the grammar that reads it.
//!
//! `COMMAND [OPTIONS]`, where COMMAND is one of `fabricate`, `construct`,
//! `assemble`, `ignite` and `blueprint`. `assemble` may be followed by
//! `react-vite` (the default) or `tailwind-css`. The options are `-n`/`--name`
//! NAME (required), `-l`/`--lang` LANG (for `fabricate` and `assemble`; `js`
//! when absent) and `-f`/`--flag` (for `fabricate`). A later option replaces
//! an earlier one of the same kind. A command with nothing after it is
//! accepted with no sub-action.

use vstd::prelude::*;
use crate::text::{is_text, join3};

verus! {

/// A parsed command line.
#[derive(Debug)]
pub struct Cli {
    pub command: Option<Commands>,
}

/// The top-level actions.
#[derive(Debug)]
pub enum Commands {
    Fabricate { subcommand: Option<FabricateSubCommands> },
    Construct { subcommand: Option<ConstructSubCommands> },
    Assemble { subcommand: Option<AssembleSubCommands> },
    Ignite { subcommand: Option<IgniteSubCommands> },
    Blueprint { subcommand: Option<BlueprintSubCommands> },
}

/// The two forms of `assemble`: scaffold a frontend only, or add styling only.
#[derive(Debug)]
pub enum AssembleSubCommands {
    ReactVite { name: String, lang: String },
    TailwindCSS { name: String, lang: String },
}

/// The parameters of `fabricate`.
#[derive(Debug)]
pub enum FabricateSubCommands {
    Fabricate { name: String, lang: String, flag: bool },
}

/// The parameters of `construct`.
#[derive(Debug)]
pub enum ConstructSubCommands {
    Construct { name: String },
}

/// The parameters of `ignite`.
#[derive(Debug)]
pub enum IgniteSubCommands {
    Ignite { name: String },
}

/// The parameters of `blueprint`.
#[derive(Debug)]
pub enum BlueprintSubCommands {
    Blueprint { name: String },
}

/// The top-level action a command word names.
#[derive(Clone, Copy, Debug, PartialEq, Eq, Structural)]
pub enum CommandKind {
    Fabricate,
    Construct,
    Assemble,
    Ignite,
    Blueprint,
}

/// A command line as data.
pub enum CliView {
    /// No command at all.
    Usage,
    /// A command with nothing after it.
    Bare(CommandKind),
    Fabricate { name: Seq<char>, lang: Seq<char>, flag: bool },
    Construct { name: Seq<char> },
    AssembleReactVite { name: Seq<char>, lang: Seq<char> },
    AssembleTailwind { name: Seq<char>, lang: Seq<char> },
    Ignite { name: Seq<char> },
    Blueprint { name: Seq<char> },
}

impl View for Cli {
    type V = CliView;

    open spec fn view(&self) -> CliView {
        match self.command {
            None => CliView::Usage,
            Some(Commands::Fabricate { subcommand }) => match subcommand {
                None => CliView::Bare(CommandKind::Fabricate),
                Some(FabricateSubCommands::Fabricate { name, lang, flag }) => CliView::Fabricate {
                    name: name@,
                    lang: lang@,
                    flag,
                },
            },
            Some(Commands::Construct { subcommand }) => match subcommand {
                None => CliView::Bare(CommandKind::Construct),
                Some(ConstructSubCommands::Construct { name }) => CliView::Construct { name: name@ },
            },
            Some(Commands::Assemble { subcommand }) => match subcommand {
                None => CliView::Bare(CommandKind::Assemble),
                Some(AssembleSubCommands::ReactVite { name, lang }) => CliView::AssembleReactVite {
                    name: name@,
                    lang: lang@,
                },
                Some(AssembleSubCommands::TailwindCSS { name, lang }) => CliView::AssembleTailwind {
                    name: name@,
                    lang: lang@,
                },
            },
            Some(Commands::Ignite { subcommand }) => match subcommand {
                None => CliView::Bare(CommandKind::Ignite),
                Some(IgniteSubCommands::Ignite { name }) => CliView::Ignite { name: name@ },
            },
            Some(Commands::Blueprint { subcommand }) => match subcommand {
                None => CliView::Bare(CommandKind::Blueprint),
                Some(BlueprintSubCommands::Blueprint { name }) => CliView::Blueprint { name: name@ },
            },
        }
    }
}

/// Why a command line was not accepted, as data.
pub enum CliErrorView {
    UnknownCommand(Seq<char>),
    UnexpectedArgument(Seq<char>),
    MissingValue(Seq<char>),
    MissingName,
}

/// Why a command line was not accepted.
#[derive(Debug)]
pub enum CliError {
    /// The first word is not a command.
    UnknownCommand(String),
    /// A word that no option of the command accepts.
    UnexpectedArgument(String),
    /// An option that takes a value came last.
    MissingValue(String),
    /// No `--name` was given.
    MissingName,
}

impl View for CliError {
    type V = CliErrorView;

    open spec fn view(&self) -> CliErrorView {
        match self {
            CliError::UnknownCommand(t) => CliErrorView::UnknownCommand(t@),
            CliError::UnexpectedArgument(t) => CliErrorView::UnexpectedArgument(t@),
            CliError::MissingValue(t) => CliErrorView::MissingValue(t@),
            CliError::MissingName => CliErrorView::MissingName,
        }
    }
}

impl CliError {
    /// The diagnostic to show, naming the word at fault.
    pub fn message(&self) -> (r: String)
        ensures
            match self@ {
                CliErrorView::UnknownCommand(t) => r@ == "unrecognized subcommand '"@ + t + "'"@,
                CliErrorView::UnexpectedArgument(t) => r@ == "unexpected argument '"@ + t
                    + "' found"@,
                CliErrorView::MissingValue(t) => r@ == "a value is required for '"@ + t
                    + "' but none was supplied"@,
                CliErrorView::MissingName => r@
                    == "the following required arguments were not provided: --name <NAME>"@,
            },
    {
        match self {
            CliError::UnknownCommand(t) => join3("unrecognized subcommand '", t.as_str(), "'"),
            CliError::UnexpectedArgument(t) => join3("unexpected argument '", t.as_str(), "' found"),
            CliError::MissingValue(t) => join3(
                "a value is required for '",
                t.as_str(),
                "' but none was supplied",
            ),
            CliError::MissingName => String::from_str(
                "the following required arguments were not provided: --name <NAME>",
            ),
        }
    }
}

/// The options read so far.
pub struct OptsView {
    pub name: Option<Seq<char>>,
    pub lang: Option<Seq<char>>,
    pub flag: bool,
}

/// The action that the command word `t` names.
pub open spec fn kind_of(t: Seq<char>) -> Option<CommandKind> {
    if t == "fabricate"@ {
        Some(CommandKind::Fabricate)
    } else if t == "construct"@ {
        Some(CommandKind::Construct)
    } else if t == "assemble"@ {
        Some(CommandKind::Assemble)
    } else if t == "ignite"@ {
        Some(CommandKind::Ignite)
    } else if t == "blueprint"@ {
        Some(CommandKind::Blueprint)
    } else {
        None
    }
}

/// Whether the command takes `--lang`.
pub open spec fn takes_lang(k: CommandKind) -> bool {
    k == CommandKind::Fabricate || k == CommandKind::Assemble
}

/// Whether the command takes `--flag`.
pub open spec fn takes_flag(k: CommandKind) -> bool {
    k == CommandKind::Fabricate
}

/// Whether `t` is the name option.
pub open spec fn is_name_opt(t: Seq<char>) -> bool {
    t == "-n"@ || t == "--name"@
}

/// Whether `t` is the language option.
pub open spec fn is_lang_opt(t: Seq<char>) -> bool {
    t == "-l"@ || t == "--lang"@
}

/// Whether `t` is the styling-path flag.
pub open spec fn is_flag_opt(t: Seq<char>) -> bool {
    t == "-f"@ || t == "--flag"@
}

/// Reads the options `toks[i..]` on top of `acc`, left to right.
pub open spec fn parse_opts_from(
    toks: Seq<Seq<char>>,
    i: int,
    acc: OptsView,
    lang_ok: bool,
    flag_ok: bool,
) -> Result<OptsView, CliErrorView>
    decreases toks.len() - i,
{
    if i < 0 || i >= toks.len() {
        Ok(acc)
    } else if is_name_opt(toks[i]) {
        if i + 1 < toks.len() {
            parse_opts_from(toks, i + 2, OptsView { name: Some(toks[i + 1]), ..acc }, lang_ok, flag_ok)
        } else {
            Err(CliErrorView::MissingValue(toks[i]))
        }
    } else if lang_ok && is_lang_opt(toks[i]) {
        if i + 1 < toks.len() {
            parse_opts_from(toks, i + 2, OptsView { lang: Some(toks[i + 1]), ..acc }, lang_ok, flag_ok)
        } else {
            Err(CliErrorView::MissingValue(toks[i]))
        }
    } else if flag_ok && is_flag_opt(toks[i]) {
        parse_opts_from(toks, i + 1, OptsView { flag: true, ..acc }, lang_ok, flag_ok)
    } else {
        Err(CliErrorView::UnexpectedArgument(toks[i]))
    }
}

/// The options before any is read.
pub open spec fn no_opts() -> OptsView {
    OptsView { name: None, lang: None, flag: false }
}

/// Whether the word after `assemble` selects its form.
pub open spec fn is_assemble_form(t: Seq<char>) -> bool {
    t == "react-vite"@ || t == "tailwind-css"@
}

/// The command line that action `k` with these parameters stands for.
pub open spec fn invocation(
    k: CommandKind,
    tailwind: bool,
    name: Seq<char>,
    lang: Seq<char>,
    flag: bool,
) -> CliView {
    match k {
        CommandKind::Fabricate => CliView::Fabricate { name, lang, flag },
        CommandKind::Construct => CliView::Construct { name },
        CommandKind::Assemble => if tailwind {
            CliView::AssembleTailwind { name, lang }
        } else {
            CliView::AssembleReactVite { name, lang }
        },
        CommandKind::Ignite => CliView::Ignite { name },
        CommandKind::Blueprint => CliView::Blueprint { name },
    }
}

/// The meaning of the words `args` (the program's name left out).
pub open spec fn cli_of(args: Seq<Seq<char>>) -> Result<CliView, CliErrorView> {
    if args.len() == 0 {
        Ok(CliView::Usage)
    } else {
        match kind_of(args[0]) {
            None => Err(CliErrorView::UnknownCommand(args[0])),
            Some(k) => if args.len() == 1 {
                Ok(CliView::Bare(k))
            } else {
                let form = k == CommandKind::Assemble && is_assemble_form(args[1]);
                let tailwind = form && args[1] == "tailwind-css"@;
                let start: int = if form { 2 } else { 1 };
                match parse_opts_from(args, start, no_opts(), takes_lang(k), takes_flag(k)) {
                    Err(e) => Err(e),
                    Ok(o) => match o.name {
                        None => Err(CliErrorView::MissingName),
                        Some(n) => Ok(
                            invocation(
                                k,
                                tailwind,
                                n,
                                match o.lang {
                                    Some(l) => l,
                                    None => "js"@,
                                },
                                o.flag,
                            ),
                        ),
                    },
                }
            },
        }
    }
}

/// The words of a command line as data.
pub open spec fn words(args: Seq<String>) -> Seq<Seq<char>> {
    args.map_values(|s: String| s@)
}

/// An optional word as data.
pub open spec fn opt_word(o: Option<String>) -> Option<Seq<char>> {
    match o {
        Some(s) => Some(s@),
        None => None,
    }
}

/// The action that a command word names.
fn command_kind(t: &String) -> (r: Option<CommandKind>)
    ensures
        r == kind_of(t@),
{
    if is_text(t, "fabricate") {
        Some(CommandKind::Fabricate)
    } else if is_text(t, "construct") {
        Some(CommandKind::Construct)
    } else if is_text(t, "assemble") {
        Some(CommandKind::Assemble)
    } else if is_text(t, "ignite") {
        Some(CommandKind::Ignite)
    } else if is_text(t, "blueprint") {
        Some(CommandKind::Blueprint)
    } else {
        None
    }
}

/// Reads the options `args[start..]`.
fn parse_opts(args: &Vec<String>, start: usize, lang_ok: bool, flag_ok: bool) -> (r: Result<
    (Option<String>, Option<String>, bool),
    CliError,
>)
    requires
        start <= args.len(),
    ensures
        match parse_opts_from(words(args@), start as int, no_opts(), lang_ok, flag_ok) {
            Ok(o) => r matches Ok((n, l, f)) && opt_word(n) == o.name && opt_word(l) == o.lang && f
                == o.flag,
            Err(e) => r matches Err(err) && err@ == e,
        },
{
    let ghost toks = words(args@);
    let mut name: Option<String> = None;
    let mut lang: Option<String> = None;
    let mut flag = false;
    let mut i: usize = start;
    while i < args.len()
        invariant
            start <= i <= args.len(),
            toks == words(args@),
            parse_opts_from(toks, start as int, no_opts(), lang_ok, flag_ok) == parse_opts_from(
                toks,
                i as int,
                OptsView { name: opt_word(name), lang: opt_word(lang), flag },
                lang_ok,
                flag_ok,
            ),
        decreases args.len() - i,
    {
        let t = &args[i];
        assert(toks[i as int] == t@);
        if is_text(t, "-n") || is_text(t, "--name") {
            if i + 1 < args.len() {
                assert(toks[i + 1] == args@[i + 1]@);
                name = Some(args[i + 1].clone());
                i = i + 2;
            } else {
                return Err(CliError::MissingValue(t.clone()));
            }
        } else if lang_ok && (is_text(t, "-l") || is_text(t, "--lang")) {
            if i + 1 < args.len() {
                assert(toks[i + 1] == args@[i + 1]@);
                lang = Some(args[i + 1].clone());
                i = i + 2;
            } else {
                return Err(CliError::MissingValue(t.clone()));
            }
        } else if flag_ok && (is_text(t, "-f") || is_text(t, "--flag")) {
            flag = true;
            i = i + 1;
        } else {
            return Err(CliError::UnexpectedArgument(t.clone()));
        }
    }
    Ok((name, lang, flag))
}

/// Reads a command line, the program's name left out. The result is exactly
/// what `cli_of` gives for the words.
pub fn parse_cli(args: &Vec<String>) -> (r: Result<Cli, CliError>)
    ensures
        match cli_of(words(args@)) {
            Ok(v) => r matches Ok(c) && c@ == v,
            Err(e) => r matches Err(err) && err@ == e,
        },
{
    let ghost toks = words(args@);
    if args.len() == 0 {
        return Ok(Cli { command: None });
    }
    assert(toks[0] == args@[0]@);
    let kind = match command_kind(&args[0]) {
        Some(k) => k,
        None => {
            return Err(CliError::UnknownCommand(args[0].clone()));
        },
    };
    if args.len() == 1 {
        let command = match kind {
            CommandKind::Fabricate => Commands::Fabricate { subcommand: None },
            CommandKind::Construct => Commands::Construct { subcommand: None },
            CommandKind::Assemble => Commands::Assemble { subcommand: None },
            CommandKind::Ignite => Commands::Ignite { subcommand: None },
            CommandKind::Blueprint => Commands::Blueprint { subcommand: None },
        };
        return Ok(Cli { command: Some(command) });
    }
    assert(toks[1] == args@[1]@);
    let react = is_text(&args[1], "react-vite");
    let tailwind = is_text(&args[1], "tailwind-css");
    let form = kind == CommandKind::Assemble && (react || tailwind);
    let start: usize = if form { 2 } else { 1 };
    let lang_ok = kind == CommandKind::Fabricate || kind == CommandKind::Assemble;
    let flag_ok = kind == CommandKind::Fabricate;
    let (name, lang, flag) = match parse_opts(args, start, lang_ok, flag_ok) {
        Ok(o) => o,
        Err(e) => {
            return Err(e);
        },
    };
    let name = match name {
        Some(n) => n,
        None => {
            return Err(CliError::MissingName);
        },
    };
    let lang = match lang {
        Some(l) => l,
        None => String::from_str("js"),
    };
    let command = match kind {
        CommandKind::Fabricate => Commands::Fabricate {
            subcommand: Some(FabricateSubCommands::Fabricate { name, lang, flag }),
        },
        CommandKind::Construct => Commands::Construct {
            subcommand: Some(ConstructSubCommands::Construct { name }),
        },
        CommandKind::Assemble => if form && tailwind {
            Commands::Assemble { subcommand: Some(AssembleSubCommands::TailwindCSS { name, lang }) }
        } else {
            Commands::Assemble { subcommand: Some(AssembleSubCommands::ReactVite { name, lang }) }
        },
        CommandKind::Ignite => Commands::Ignite {
            subcommand: Some(IgniteSubCommands::Ignite { name }),
        },
        CommandKind::Blueprint => Commands::Blueprint {
            subcommand: Some(BlueprintSubCommands::Blueprint { name }),
        },
    };
    Ok(Cli { command: Some(command) })
}

} // verus!
