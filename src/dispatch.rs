//! The command dispatcher: from a parsed command line to the plan it stands
//! for. Language values are checked here, before any step exists.

use vstd::prelude::*;
use crate::cli::{
    AssembleSubCommands, BlueprintSubCommands, Cli, CliView, CommandKind, Commands,
    ConstructSubCommands, FabricateSubCommands, IgniteSubCommands,
};
use crate::lang::lang_of;
use crate::plan::{Plan, PlanView};
use crate::scaffold::{
    SetupError, assemble_react_vite, assemble_tailwindcss, blueprint_plan, fabricate_plan,
    fullstack_plan, ignite_development, ignite_plan, react_vite_plan, setup_blueprint,
    setup_fabricate, setup_fullstack, tailwindcss_plan,
};
use crate::text::join3;

verus! {

/// What a command line leads to, as data.
pub enum DispatchView {
    Usage,
    NoSubAction(Seq<char>),
    Run(PlanView),
}

/// What a command line leads to: the usage text (no command; exit status 0),
/// a diagnostic for a command given without its parameters (the process goes
/// on and ends normally), or a plan to run.
#[derive(Debug)]
pub enum Dispatch {
    Usage,
    NoSubAction(String),
    Run(Plan),
}

impl View for Dispatch {
    type V = DispatchView;

    open spec fn view(&self) -> DispatchView {
        match self {
            Dispatch::Usage => DispatchView::Usage,
            Dispatch::NoSubAction(m) => DispatchView::NoSubAction(m@),
            Dispatch::Run(p) => DispatchView::Run(p@),
        }
    }
}

/// The command word of `k`.
pub open spec fn command_word(k: CommandKind) -> Seq<char> {
    match k {
        CommandKind::Fabricate => "fabricate"@,
        CommandKind::Construct => "construct"@,
        CommandKind::Assemble => "assemble"@,
        CommandKind::Ignite => "ignite"@,
        CommandKind::Blueprint => "blueprint"@,
    }
}

/// The diagnostic for a command given without its parameters.
pub open spec fn no_sub_action_message(k: CommandKind) -> Seq<char> {
    "No parameters given for '"@ + command_word(k) + "'; nothing to do."@
}

/// The plan, checked against `lang`; an unknown language gives the value back.
pub open spec fn checked(lang: Seq<char>, p: PlanView) -> Result<DispatchView, Seq<char>> {
    if lang_of(lang) is Some {
        Ok(DispatchView::Run(p))
    } else {
        Err(lang)
    }
}

/// What the command line `v` leads to; `Err` carries a rejected language.
pub open spec fn dispatch_of(v: CliView) -> Result<DispatchView, Seq<char>> {
    match v {
        CliView::Usage => Ok(DispatchView::Usage),
        CliView::Bare(k) => Ok(DispatchView::NoSubAction(no_sub_action_message(k))),
        CliView::Fabricate { name, lang, flag } => checked(
            lang,
            fabricate_plan(name, lang_of(lang)->Some_0, flag),
        ),
        CliView::Construct { name } => Ok(DispatchView::Run(fullstack_plan(name))),
        CliView::AssembleReactVite { name, lang } => checked(
            lang,
            react_vite_plan(name, lang_of(lang)->Some_0),
        ),
        CliView::AssembleTailwind { name, lang } => checked(
            lang,
            tailwindcss_plan(name, lang_of(lang)->Some_0),
        ),
        CliView::Ignite { name } => Ok(DispatchView::Run(ignite_plan(name))),
        CliView::Blueprint { name } => Ok(DispatchView::Run(blueprint_plan(name))),
    }
}

/// The language value of a command line, where it has one.
pub open spec fn lang_param(v: CliView) -> Option<Seq<char>> {
    match v {
        CliView::Fabricate { lang, .. } => Some(lang),
        CliView::AssembleReactVite { lang, .. } => Some(lang),
        CliView::AssembleTailwind { lang, .. } => Some(lang),
        _ => None,
    }
}

fn no_sub_action(word: &str) -> (r: Dispatch)
    ensures
        r@ == DispatchView::NoSubAction("No parameters given for '"@ + word@ + "'; nothing to do."@),
{
    Dispatch::NoSubAction(join3("No parameters given for '", word, "'; nothing to do."))
}

/// Routes a command line to what it leads to. A language other than `js` or
/// `ts` is rejected here, so that no step of its plan ever exists.
pub fn plan_for(cli: &Cli) -> (r: Result<Dispatch, SetupError>)
    ensures
        match dispatch_of(cli@) {
            Ok(d) => r matches Ok(x) && x@ == d,
            Err(l) => r matches Err(SetupError::InvalidLang(s)) && s@ == l,
        },
{
    match &cli.command {
        None => Ok(Dispatch::Usage),
        Some(Commands::Fabricate { subcommand }) => match subcommand {
            None => Ok(no_sub_action("fabricate")),
            Some(FabricateSubCommands::Fabricate { name, lang, flag }) => match setup_fabricate(
                name,
                lang,
                *flag,
            ) {
                Ok(p) => Ok(Dispatch::Run(p)),
                Err(e) => Err(e),
            },
        },
        Some(Commands::Construct { subcommand }) => match subcommand {
            None => Ok(no_sub_action("construct")),
            Some(ConstructSubCommands::Construct { name }) => Ok(Dispatch::Run(setup_fullstack(name))),
        },
        Some(Commands::Assemble { subcommand }) => match subcommand {
            None => Ok(no_sub_action("assemble")),
            Some(AssembleSubCommands::ReactVite { name, lang }) => match assemble_react_vite(
                name,
                lang,
            ) {
                Ok(p) => Ok(Dispatch::Run(p)),
                Err(e) => Err(e),
            },
            Some(AssembleSubCommands::TailwindCSS { name, lang }) => match assemble_tailwindcss(
                name,
                lang,
            ) {
                Ok(p) => Ok(Dispatch::Run(p)),
                Err(e) => Err(e),
            },
        },
        Some(Commands::Ignite { subcommand }) => match subcommand {
            None => Ok(no_sub_action("ignite")),
            Some(IgniteSubCommands::Ignite { name }) => Ok(Dispatch::Run(ignite_development(name))),
        },
        Some(Commands::Blueprint { subcommand }) => match subcommand {
            None => Ok(no_sub_action("blueprint")),
            Some(BlueprintSubCommands::Blueprint { name }) => Ok(Dispatch::Run(setup_blueprint(name))),
        },
    }
}

/// A command line whose language value is neither `js` nor `ts` leads to no
/// plan at all: it is rejected with that value, so no step runs and the
/// process ends with a failure.
pub proof fn lemma_invalid_lang_runs_nothing(v: CliView)
    requires
        lang_param(v) matches Some(l) && lang_of(l) is None,
    ensures
        dispatch_of(v) == Err::<DispatchView, Seq<char>>(lang_param(v)->Some_0),
{
}

} // verus!
