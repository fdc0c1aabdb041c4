//! The steps that scaffold, style, extend and start a project, and the plans
//! that the commands are made of.

use vstd::prelude::*;
use crate::lang::{Lang, lang_name, lang_of, lang_str, parse_lang};
use crate::plan::{Action, ActionView, Plan, PlanView, Step, StepView, single_step, step_of};
use crate::templates::{INDEX_CSS, INDEX_CSS_MINIMAL, PACKAGE_JSON, SERVER_JS, VITE_CONFIG};
use crate::text::{join2, join3};

verus! {

/// The Vite template with the SWC compiler for `l`.
pub open spec fn swc_template(l: Lang) -> Seq<char> {
    match l {
        Lang::Js => "react-swc"@,
        Lang::Ts => "react-swc-ts"@,
    }
}

/// The plain React Vite template for `l`.
pub open spec fn react_template(l: Lang) -> Seq<char> {
    match l {
        Lang::Js => "react"@,
        Lang::Ts => "react-ts"@,
    }
}

/// Where the Vite configuration of project `name` lives.
pub open spec fn config_path(name: Seq<char>, l: Lang) -> Seq<char> {
    name + "/vite.config."@ + lang_name(l)
}

/// Where the stylesheet of project `name` lives.
pub open spec fn css_path(name: Seq<char>) -> Seq<char> {
    name + "/src/index.css"@
}

/// The command line that installs Tailwind and its Vite plugin into `name`.
pub open spec fn tailwind_install_command(name: Seq<char>) -> Seq<char> {
    "cd "@ + name + " && npm install tailwindcss @tailwindcss/vite"@
}

/// The step that scaffolds a React project with SWC through `npm create vite`.
pub open spec fn frontend_step(name: Seq<char>, l: Lang) -> StepView {
    StepView {
        label: "Setting up React with Vite..."@,
        failure: "Failed to setup React with Vite."@,
        actions: seq![
            ActionView::Run("npm create vite@latest "@ + name + " -- --template "@ + swc_template(l)),
        ],
    }
}

/// The step that scaffolds a React project through `npx create-vite`.
pub open spec fn react_vite_step(name: Seq<char>, l: Lang) -> StepView {
    StepView {
        label: "Creating a new React project with Vite..."@,
        failure: "Failed to create a new React project with Vite."@,
        actions: seq![
            ActionView::Run("npx create-vite@latest "@ + name + " --template "@ + react_template(l)),
        ],
    }
}

/// The step that installs the dependencies of project `name`.
pub open spec fn install_step(name: Seq<char>) -> StepView {
    StepView {
        label: "Installing dependencies..."@,
        failure: "Failed to install dependencies."@,
        actions: seq![ActionView::Run("cd "@ + name + " && npm install"@)],
    }
}

/// The first styling path: write the configuration and the full stylesheet,
/// then install Tailwind.
pub open spec fn tailwindcss_step(name: Seq<char>, l: Lang) -> StepView {
    StepView {
        label: "Setting up Tailwind CSS..."@,
        failure: "Failed to setup Tailwind."@,
        actions: seq![
            ActionView::WriteFile(config_path(name, l), VITE_CONFIG@),
            ActionView::WriteFile(css_path(name), INDEX_CSS@),
            ActionView::Run(tailwind_install_command(name)),
        ],
    }
}

/// The second styling path: install Tailwind, make sure the source directory
/// exists, then write the configuration and a minimal stylesheet.
pub open spec fn tailwind_step(name: Seq<char>, l: Lang) -> StepView {
    StepView {
        label: "Installing TailwindCSS..."@,
        failure: "Failed to setup Tailwind."@,
        actions: seq![
            ActionView::Run(tailwind_install_command(name)),
            ActionView::CreateDir(name + "/src"@),
            ActionView::WriteFile(config_path(name, l), VITE_CONFIG@),
            ActionView::WriteFile(css_path(name), INDEX_CSS_MINIMAL@),
        ],
    }
}

/// The step that scaffolds a Next.js project and writes its package manifest.
pub open spec fn nextjs_step(name: Seq<char>) -> StepView {
    StepView {
        label: "Setting up Next.js with Express..."@,
        failure: "Failed to setup Next.js."@,
        actions: seq![
            ActionView::Run("npx create-next-app@latest "@ + name + " --ts"@),
            ActionView::CreateDir(name),
            ActionView::WriteFile(name + "/package.json"@, PACKAGE_JSON@),
        ],
    }
}

/// The step that adds Express to a Next.js project and writes its server.
pub open spec fn expressjs_step(name: Seq<char>) -> StepView {
    StepView {
        label: "Setting up Express.js..."@,
        failure: "Failed to setup Express.js during Next.js setup."@,
        actions: seq![
            ActionView::Run("cd "@ + name + " && npm install express"@),
            ActionView::CreateDir(name),
            ActionView::WriteFile(name + "/server.js"@, SERVER_JS@),
        ],
    }
}

/// The step that creates a bare Express project.
pub open spec fn express_step(name: Seq<char>) -> StepView {
    StepView {
        label: "Setting up Express.js..."@,
        failure: "Failed to setup Express.js."@,
        actions: seq![
            ActionView::Run(
                "mkdir "@ + name + " && cd "@ + name + " && npm init -y && npm install express"@,
            ),
        ],
    }
}

/// The step that runs the development server of project `name`.
pub open spec fn dev_server_step(name: Seq<char>) -> StepView {
    StepView {
        label: "Starting the development server..."@,
        failure: "Failed to start the development server."@,
        actions: seq![ActionView::Run("cd "@ + name + " && npm run dev"@)],
    }
}

/// The closing hint that names the project directory.
pub open spec fn navigate_hint(name: Seq<char>) -> Seq<char> {
    "Navigate to '"@ + name + "' to start building your project."@
}

/// Scaffold, install, then style by the path that `flag` selects.
pub open spec fn fabricate_plan(name: Seq<char>, l: Lang, flag: bool) -> PlanView {
    PlanView {
        steps: seq![
            frontend_step(name, l),
            install_step(name),
            if flag { tailwind_step(name, l) } else { tailwindcss_step(name, l) },
        ],
        complete: "React-Vite project setup complete!"@,
        closing: navigate_hint(name),
    }
}

/// Next.js first, then Express on top of it.
pub open spec fn fullstack_plan(name: Seq<char>) -> PlanView {
    PlanView {
        steps: seq![nextjs_step(name), expressjs_step(name)],
        complete: "Next.js and Express.js setup complete!"@,
        closing: "Your full-stack project is ready to go!"@,
    }
}

/// The development server, as the single step of a plan.
pub open spec fn ignite_plan(name: Seq<char>) -> PlanView {
    PlanView {
        steps: seq![dev_server_step(name)],
        complete: "Development server stopped."@,
        closing: Seq::empty(),
    }
}

/// No step at all: only an acknowledgement.
pub open spec fn blueprint_plan(name: Seq<char>) -> PlanView {
    PlanView {
        steps: Seq::empty(),
        complete: "Blueprint noted."@,
        closing: "Blueprint for '"@ + name + "' has nothing to generate yet."@,
    }
}

/// The path of the Vite configuration of `project_name`: its extension is the
/// language's own.
pub fn vite_config_path(project_name: &String, lang: Lang) -> (r: String)
    ensures
        r@ == config_path(project_name@, lang),
{
    join3(project_name.as_str(), "/vite.config.", lang_str(lang))
}

/// Scaffolds a React project with SWC through `npm create vite`.
pub fn setup_frontend(project_name: &String, lang: Lang) -> (r: Step)
    ensures
        r@ == frontend_step(project_name@, lang),
{
    let template = match lang {
        Lang::Js => "react-swc",
        Lang::Ts => "react-swc-ts",
    };
    let mut cmd = join3("npm create vite@latest ", project_name.as_str(), " -- --template ");
    cmd.append(template);
    single_step(
        "Setting up React with Vite...",
        "Failed to setup React with Vite.",
        Action::Run(cmd),
    )
}

/// Scaffolds a React project through `npx create-vite`.
pub fn setup_react_vite(project_name: &String, lang: Lang) -> (r: Step)
    ensures
        r@ == react_vite_step(project_name@, lang),
{
    let template = match lang {
        Lang::Js => "react",
        Lang::Ts => "react-ts",
    };
    let mut cmd = join3("npx create-vite@latest ", project_name.as_str(), " --template ");
    cmd.append(template);
    single_step(
        "Creating a new React project with Vite...",
        "Failed to create a new React project with Vite.",
        Action::Run(cmd),
    )
}

/// Installs the dependencies of the project.
pub fn install_dependencies(project_name: &String) -> (r: Step)
    ensures
        r@ == install_step(project_name@),
{
    single_step(
        "Installing dependencies...",
        "Failed to install dependencies.",
        Action::Run(join3("cd ", project_name.as_str(), " && npm install")),
    )
}

/// Writes the Vite configuration and the full stylesheet, then installs Tailwind.
pub fn setup_tailwindcss(project_name: &String, lang: Lang) -> (r: Step)
    ensures
        r@ == tailwindcss_step(project_name@, lang),
{
    let name = project_name.as_str();
    let mut actions: Vec<Action> = Vec::new();
    actions.push(Action::WriteFile(vite_config_path(project_name, lang), String::from_str(VITE_CONFIG)));
    actions.push(Action::WriteFile(join2(name, "/src/index.css"), String::from_str(INDEX_CSS)));
    actions.push(Action::Run(join3("cd ", name, " && npm install tailwindcss @tailwindcss/vite")));
    let r = step_of("Setting up Tailwind CSS...", "Failed to setup Tailwind.", actions);
    assert(r@.actions =~= tailwindcss_step(project_name@, lang).actions);
    r
}

/// Installs Tailwind, makes sure the source directory exists, then writes the
/// Vite configuration and a minimal stylesheet.
pub fn setup_tailwind(project_name: &String, lang: Lang) -> (r: Step)
    ensures
        r@ == tailwind_step(project_name@, lang),
{
    let name = project_name.as_str();
    let mut actions: Vec<Action> = Vec::new();
    actions.push(Action::Run(join3("cd ", name, " && npm install tailwindcss @tailwindcss/vite")));
    actions.push(Action::CreateDir(join2(name, "/src")));
    actions.push(Action::WriteFile(vite_config_path(project_name, lang), String::from_str(VITE_CONFIG)));
    actions.push(Action::WriteFile(join2(name, "/src/index.css"), String::from_str(INDEX_CSS_MINIMAL)));
    let r = step_of("Installing TailwindCSS...", "Failed to setup Tailwind.", actions);
    assert(r@.actions =~= tailwind_step(project_name@, lang).actions);
    r
}

/// Scaffolds a Next.js project and writes its package manifest.
pub fn setup_nextjs(project_name: &String) -> (r: Step)
    ensures
        r@ == nextjs_step(project_name@),
{
    let name = project_name.as_str();
    let mut actions: Vec<Action> = Vec::new();
    actions.push(Action::Run(join3("npx create-next-app@latest ", name, " --ts")));
    actions.push(Action::CreateDir(project_name.clone()));
    actions.push(Action::WriteFile(join2(name, "/package.json"), String::from_str(PACKAGE_JSON)));
    let r = step_of("Setting up Next.js with Express...", "Failed to setup Next.js.", actions);
    assert(r@.actions =~= nextjs_step(project_name@).actions);
    r
}

/// Adds Express to a Next.js project and writes the server that joins them.
pub fn setup_expressjs(project_name: &String) -> (r: Step)
    ensures
        r@ == expressjs_step(project_name@),
{
    let name = project_name.as_str();
    let mut actions: Vec<Action> = Vec::new();
    actions.push(Action::Run(join3("cd ", name, " && npm install express")));
    actions.push(Action::CreateDir(project_name.clone()));
    actions.push(Action::WriteFile(join2(name, "/server.js"), String::from_str(SERVER_JS)));
    let r = step_of(
        "Setting up Express.js...",
        "Failed to setup Express.js during Next.js setup.",
        actions,
    );
    assert(r@.actions =~= expressjs_step(project_name@).actions);
    r
}

/// Creates a bare Express project in a new directory.
pub fn setup_express(project_name: &String) -> (r: Step)
    ensures
        r@ == express_step(project_name@),
{
    let name = project_name.as_str();
    let mut cmd = join3("mkdir ", name, " && cd ");
    cmd.append(name);
    cmd.append(" && npm init -y && npm install express");
    single_step("Setting up Express.js...", "Failed to setup Express.js.", Action::Run(cmd))
}

/// Why a plan could not be made.
#[derive(Clone, Debug)]
pub enum SetupError {
    /// The language value is neither `js` nor `ts`; it is carried as given.
    InvalidLang(String),
}

impl SetupError {
    /// The diagnostic to show, naming the rejected value.
    pub fn message(&self) -> (r: String)
        ensures
            match self {
                SetupError::InvalidLang(l) => r@ == "Invalid language: "@ + l@
                    + ". Supported values are 'js' or 'ts'."@,
            },
    {
        match self {
            SetupError::InvalidLang(l) => join3(
                "Invalid language: ",
                l.as_str(),
                ". Supported values are 'js' or 'ts'.",
            ),
        }
    }
}

/// The plan of a React project with Vite, its dependencies and Tailwind. The
/// language is checked first: a value other than `js` or `ts` gives no plan.
pub fn setup_fabricate(name: &String, lang: &String, flag: bool) -> (r: Result<Plan, SetupError>)
    ensures
        lang_of(lang@) is None <==> r is Err,
        r matches Err(SetupError::InvalidLang(l)) ==> l@ == lang@,
        r matches Ok(p) ==> p@ == fabricate_plan(name@, lang_of(lang@)->Some_0, flag),
{
    let l = match parse_lang(lang) {
        Some(l) => l,
        None => {
            return Err(SetupError::InvalidLang(lang.clone()));
        },
    };
    let mut steps: Vec<Step> = Vec::new();
    steps.push(setup_frontend(name, l));
    steps.push(install_dependencies(name));
    if flag {
        steps.push(setup_tailwind(name, l));
    } else {
        steps.push(setup_tailwindcss(name, l));
    }
    let closing = join3("Navigate to '", name.as_str(), "' to start building your project.");
    let p = Plan { steps, complete: String::from_str("React-Vite project setup complete!"), closing };
    assert(p@.steps =~= fabricate_plan(name@, l, flag).steps);
    Ok(p)
}

/// The plan of a full-stack project: Next.js, then Express on top of it.
pub fn setup_fullstack(name: &String) -> (r: Plan)
    ensures
        r@ == fullstack_plan(name@),
{
    let mut steps: Vec<Step> = Vec::new();
    steps.push(setup_nextjs(name));
    steps.push(setup_expressjs(name));
    let p = Plan {
        steps,
        complete: String::from_str("Next.js and Express.js setup complete!"),
        closing: String::from_str("Your full-stack project is ready to go!"),
    };
    assert(p@.steps =~= fullstack_plan(name@).steps);
    p
}

/// The plan that starts the development server of a project and waits for it.
pub fn ignite_development(project_name: &String) -> (r: Plan)
    ensures
        r@ == ignite_plan(project_name@),
{
    let mut steps: Vec<Step> = Vec::new();
    steps.push(
        single_step(
            "Starting the development server...",
            "Failed to start the development server.",
            Action::Run(join3("cd ", project_name.as_str(), " && npm run dev")),
        ),
    );
    let p = Plan {
        steps,
        complete: String::from_str("Development server stopped."),
        closing: String::new(),
    };
    assert(p@.steps =~= ignite_plan(project_name@).steps);
    p
}

/// The plan of a blueprint: nothing is generated, only acknowledged.
pub fn setup_blueprint(name: &String) -> (r: Plan)
    ensures
        r@ == blueprint_plan(name@),
{
    let p = Plan {
        steps: Vec::new(),
        complete: String::from_str("Blueprint noted."),
        closing: join3("Blueprint for '", name.as_str(), "' has nothing to generate yet."),
    };
    assert(p@.steps =~= blueprint_plan(name@).steps);
    p
}

/// A React project through `npx create-vite`, and nothing more.
pub open spec fn react_vite_plan(name: Seq<char>, l: Lang) -> PlanView {
    PlanView {
        steps: seq![react_vite_step(name, l)],
        complete: "React-Vite project setup complete!"@,
        closing: navigate_hint(name),
    }
}

/// Tailwind added to an existing project, and nothing more.
pub open spec fn tailwindcss_plan(name: Seq<char>, l: Lang) -> PlanView {
    PlanView {
        steps: seq![tailwindcss_step(name, l)],
        complete: "Tailwind CSS setup complete!"@,
        closing: Seq::empty(),
    }
}

/// The plan of a React project made through `npx create-vite`, after the
/// language is checked as `setup_fabricate` checks it.
pub fn assemble_react_vite(name: &String, lang: &String) -> (r: Result<Plan, SetupError>)
    ensures
        lang_of(lang@) is None <==> r is Err,
        r matches Err(SetupError::InvalidLang(l)) ==> l@ == lang@,
        r matches Ok(p) ==> p@ == react_vite_plan(name@, lang_of(lang@)->Some_0),
{
    let l = match parse_lang(lang) {
        Some(l) => l,
        None => {
            return Err(SetupError::InvalidLang(lang.clone()));
        },
    };
    let mut steps: Vec<Step> = Vec::new();
    steps.push(setup_react_vite(name, l));
    let closing = join3("Navigate to '", name.as_str(), "' to start building your project.");
    let p = Plan { steps, complete: String::from_str("React-Vite project setup complete!"), closing };
    assert(p@.steps =~= react_vite_plan(name@, l).steps);
    Ok(p)
}

/// The plan that adds Tailwind to an existing project, after the language is
/// checked as `setup_fabricate` checks it.
pub fn assemble_tailwindcss(name: &String, lang: &String) -> (r: Result<Plan, SetupError>)
    ensures
        lang_of(lang@) is None <==> r is Err,
        r matches Err(SetupError::InvalidLang(l)) ==> l@ == lang@,
        r matches Ok(p) ==> p@ == tailwindcss_plan(name@, lang_of(lang@)->Some_0),
{
    let l = match parse_lang(lang) {
        Some(l) => l,
        None => {
            return Err(SetupError::InvalidLang(lang.clone()));
        },
    };
    let mut steps: Vec<Step> = Vec::new();
    steps.push(setup_tailwindcss(name, l));
    let p = Plan {
        steps,
        complete: String::from_str("Tailwind CSS setup complete!"),
        closing: String::new(),
    };
    assert(p@.steps =~= tailwindcss_plan(name@, l).steps);
    Ok(p)
}

/// The extension of the Vite configuration that a fabricate plan writes is
/// the language value as given: it is `ts` exactly when the language is
/// TypeScript, whichever styling path the flag selects.
pub proof fn lemma_config_extension_matches_lang(name: Seq<char>, lang: Seq<char>, flag: bool)
    requires
        lang_of(lang) is Some,
    ensures
        fabricate_plan(name, lang_of(lang)->Some_0, flag).steps[2].actions.contains(
            ActionView::WriteFile(name + "/vite.config."@ + lang, VITE_CONFIG@),
        ),
        (lang == "ts"@) <==> (lang_of(lang)->Some_0 == Lang::Ts),
{
    let l = lang_of(lang)->Some_0;
    crate::lang::lemma_lang_round_trip(l);
    assert(lang_name(l) == lang);
    let style = fabricate_plan(name, l, flag).steps[2];
    if flag {
        assert(style.actions[2] == ActionView::WriteFile(config_path(name, l), VITE_CONFIG@));
    } else {
        assert(style.actions[0] == ActionView::WriteFile(config_path(name, l), VITE_CONFIG@));
    }
}

} // verus!
