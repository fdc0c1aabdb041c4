use scaffolder::cli::{parse_cli, AssembleSubCommands, Cli, CliError, Commands, FabricateSubCommands};
use scaffolder::dispatch::{plan_for, Dispatch};
use scaffolder::plan::{Action, Plan};
use scaffolder::runner::{Directive, RunStatus, Runner};
use scaffolder::scaffold::SetupError;

fn words(ws: &[&str]) -> Vec<String> {
    ws.iter().map(|w| w.to_string()).collect()
}

fn plan_of(ws: &[&str]) -> Plan {
    let cli = parse_cli(&words(ws)).expect("command line accepted");
    match plan_for(&cli) {
        Ok(Dispatch::Run(p)) => p,
        other => panic!("expected a plan, got {:?}", other),
    }
}

/// One performed action: the step it belonged to and the action itself.
struct Performed {
    step: u64,
    action: Action,
}

/// Drives a runner like the program does, with a fake executor: the action at
/// position `fail_at` (counted over all actions performed) fails, all others
/// succeed. Returns the log, the final directive and the runner.
fn drive(plan: Plan, fail_at: Option<usize>) -> (Vec<Performed>, Directive, Runner) {
    let mut runner = Runner::new(plan);
    let mut log: Vec<Performed> = Vec::new();
    loop {
        let total = runner.progress().total();
        assert!(runner.progress().position() <= total);
        match runner.current() {
            Directive::Perform(action) => {
                let step = runner.progress().position();
                log.push(Performed { step, action });
                if Some(log.len() - 1) == fail_at {
                    runner.report(Err("Command exited with status: exit status: 1".to_string()));
                } else {
                    runner.report(Ok(()));
                }
            }
            d => return (log, d, runner),
        }
    }
}

fn run_line(a: &Action) -> &str {
    match a {
        Action::Run(c) => c.as_str(),
        _ => "",
    }
}

#[test]
fn fabricate_ts_runs_three_steps_in_order() {
    let plan = plan_of(&["fabricate", "-n", "demo", "-l", "ts"]);
    assert_eq!(plan.steps.len(), 3);
    assert_eq!(plan.steps[0].label, "Setting up React with Vite...");
    assert_eq!(plan.steps[1].label, "Installing dependencies...");
    assert_eq!(plan.steps[2].label, "Setting up Tailwind CSS...");
    let closing = plan.closing.clone();
    let (log, end, runner) = drive(plan, None);
    assert!(matches!(end, Directive::Complete));
    assert_eq!(runner.exit_code(), Some(0));
    let steps: Vec<u64> = log.iter().map(|p| p.step).collect();
    assert_eq!(steps, vec![0, 1, 2, 2, 2]);
    assert_eq!(run_line(&log[0].action), "npm create vite@latest demo -- --template react-swc-ts");
    assert_eq!(run_line(&log[1].action), "cd demo && npm install");
    assert_eq!(run_line(&log[4].action), "cd demo && npm install tailwindcss @tailwindcss/vite");
    assert_eq!(runner.progress().position(), 3);
    assert_eq!(runner.progress().total(), 3);
    assert!(runner.progress().is_finished());
    assert_eq!(runner.progress().label(), "React-Vite project setup complete!");
    assert!(closing.contains("demo"));
    assert_eq!(closing, "Navigate to 'demo' to start building your project.");
}

#[test]
fn fabricate_with_unknown_language_is_rejected() {
    let cli = parse_cli(&words(&["fabricate", "-n", "demo", "-l", "cobol"])).unwrap();
    match plan_for(&cli) {
        Err(e) => {
            let SetupError::InvalidLang(l) = &e;
            assert_eq!(l, "cobol");
            let m = e.message();
            assert!(m.contains("cobol"));
            assert_eq!(m, "Invalid language: cobol. Supported values are 'js' or 'ts'.");
        }
        Ok(d) => panic!("expected a rejection, got {:?}", d),
    }
}

#[test]
fn assemble_with_unknown_language_is_rejected() {
    for ws in [
        vec!["assemble", "-n", "demo", "-l", "py"],
        vec!["assemble", "react-vite", "-n", "demo", "--lang", "TS"],
        vec!["assemble", "tailwind-css", "-n", "demo", "-l", ""],
    ] {
        let cli = parse_cli(&words(&ws)).unwrap();
        assert!(plan_for(&cli).is_err(), "{:?}", ws);
    }
}

#[test]
fn ignite_failure_stops_with_status_one() {
    let plan = plan_of(&["ignite", "-n", "demo"]);
    assert_eq!(plan.steps.len(), 1);
    let (log, end, mut runner) = drive(plan, Some(0));
    assert_eq!(log.len(), 1);
    assert_eq!(run_line(&log[0].action), "cd demo && npm run dev");
    match end {
        Directive::Abort(m) => {
            assert_eq!(
                m,
                "Failed to start the development server.: Command exited with status: exit status: 1"
            );
        }
        d => panic!("expected an abort, got {:?}", d),
    }
    assert_eq!(runner.exit_code(), Some(1));
    assert_eq!(runner.status(), RunStatus::Failed);
    runner.report(Ok(()));
    assert!(matches!(runner.current(), Directive::Abort(_)));
    assert_eq!(runner.exit_code(), Some(1));
}

#[test]
fn failing_step_stops_later_steps() {
    // construct: two steps of three actions each; fail the second action.
    let plan = plan_of(&["construct", "-n", "shop"]);
    assert_eq!(plan.steps.len(), 2);
    let (log, end, runner) = drive(plan, Some(1));
    assert_eq!(log.len(), 2);
    assert!(log.iter().all(|p| p.step == 0));
    assert!(matches!(end, Directive::Abort(ref m) if m.starts_with("Failed to setup Next.js.: ")));
    assert_eq!(runner.progress().position(), 0);

    // fabricate: fail the install step; the styling step never runs.
    let plan = plan_of(&["fabricate", "-n", "demo"]);
    let (log, end, runner) = drive(plan, Some(1));
    assert_eq!(log.len(), 2);
    assert_eq!(log[1].step, 1);
    assert!(matches!(end, Directive::Abort(ref m) if m.starts_with("Failed to install dependencies.")));
    assert_eq!(runner.progress().position(), 1);
}

#[test]
fn every_failure_point_is_the_last_action() {
    let total_actions = 6;
    for k in 0..total_actions {
        let plan = plan_of(&["construct", "-n", "shop"]);
        let (log, end, _) = drive(plan, Some(k));
        assert_eq!(log.len(), k + 1);
        let failed_step = log[k].step;
        assert!(log.iter().all(|p| p.step <= failed_step));
        assert!(matches!(end, Directive::Abort(_)));
    }
}

#[test]
fn construct_writes_manifest_and_server() {
    let plan = plan_of(&["construct", "--name", "shop"]);
    let (log, end, runner) = drive(plan, None);
    assert!(matches!(end, Directive::Complete));
    assert_eq!(runner.exit_code(), Some(0));
    assert_eq!(log.len(), 6);
    assert_eq!(run_line(&log[0].action), "npx create-next-app@latest shop --ts");
    match &log[2].action {
        Action::WriteFile(p, t) => {
            assert_eq!(p, "shop/package.json");
            assert!(t.contains("\"start\": \"node server.js\""));
        }
        a => panic!("unexpected {:?}", a),
    }
    assert_eq!(run_line(&log[3].action), "cd shop && npm install express");
    match &log[5].action {
        Action::WriteFile(p, t) => {
            assert_eq!(p, "shop/server.js");
            assert!(t.starts_with("const express = require('express');"));
        }
        a => panic!("unexpected {:?}", a),
    }
}

#[test]
fn blueprint_runs_nothing() {
    let plan = plan_of(&["blueprint", "-n", "plan"]);
    assert!(plan.steps.is_empty());
    assert_eq!(plan.closing, "Blueprint for 'plan' has nothing to generate yet.");
    let (log, end, runner) = drive(plan, None);
    assert!(log.is_empty());
    assert!(matches!(end, Directive::Complete));
    assert_eq!(runner.progress().total(), 0);
    assert_eq!(runner.progress().position(), 0);
}

#[test]
fn no_command_asks_for_usage() {
    let cli = parse_cli(&Vec::new()).unwrap();
    assert!(cli.command.is_none());
    assert!(matches!(plan_for(&cli), Ok(Dispatch::Usage)));
}

#[test]
fn bare_command_gives_diagnostic_only() {
    let cli = parse_cli(&words(&["fabricate"])).unwrap();
    assert!(matches!(cli.command, Some(Commands::Fabricate { subcommand: None })));
    match plan_for(&cli) {
        Ok(Dispatch::NoSubAction(m)) => {
            assert_eq!(m, "No parameters given for 'fabricate'; nothing to do.")
        }
        d => panic!("unexpected {:?}", d),
    }
}

#[test]
fn parse_defaults_and_flag() {
    let cli: Cli = parse_cli(&words(&["fabricate", "--name", "app", "-f"])).unwrap();
    match cli.command {
        Some(Commands::Fabricate {
            subcommand: Some(FabricateSubCommands::Fabricate { name, lang, flag }),
        }) => {
            assert_eq!(name, "app");
            assert_eq!(lang, "js");
            assert!(flag);
        }
        c => panic!("unexpected {:?}", c),
    }
}

#[test]
fn parse_later_option_wins() {
    let cli = parse_cli(&words(&["fabricate", "-n", "a", "-l", "ts", "-n", "b", "-l", "js"])).unwrap();
    match cli.command {
        Some(Commands::Fabricate {
            subcommand: Some(FabricateSubCommands::Fabricate { name, lang, flag }),
        }) => {
            assert_eq!(name, "b");
            assert_eq!(lang, "js");
            assert!(!flag);
        }
        c => panic!("unexpected {:?}", c),
    }
}

#[test]
fn parse_assemble_forms() {
    let cli = parse_cli(&words(&["assemble", "tailwind-css", "-n", "ui", "-l", "ts"])).unwrap();
    match &cli.command {
        Some(Commands::Assemble { subcommand: Some(AssembleSubCommands::TailwindCSS { name, lang }) }) => {
            assert_eq!(name, "ui");
            assert_eq!(lang, "ts");
        }
        c => panic!("unexpected {:?}", c),
    }
    let plan = match plan_for(&cli) {
        Ok(Dispatch::Run(p)) => p,
        d => panic!("unexpected {:?}", d),
    };
    assert_eq!(plan.steps.len(), 1);
    assert_eq!(plan.steps[0].label, "Setting up Tailwind CSS...");

    let cli = parse_cli(&words(&["assemble", "-n", "ui"])).unwrap();
    assert!(matches!(
        cli.command,
        Some(Commands::Assemble { subcommand: Some(AssembleSubCommands::ReactVite { .. }) })
    ));
    let plan = plan_of(&["assemble", "react-vite", "-n", "ui", "-l", "ts"]);
    assert_eq!(plan.steps.len(), 1);
    assert_eq!(plan.steps[0].actions.len(), 1);
    assert_eq!(run_line(&plan.steps[0].actions[0]), "npx create-vite@latest ui --template react-ts");
}

#[test]
fn parse_errors() {
    match parse_cli(&words(&["launch", "-n", "x"])) {
        Err(CliError::UnknownCommand(t)) => assert_eq!(t, "launch"),
        r => panic!("unexpected {:?}", r),
    }
    match parse_cli(&words(&["ignite", "-n"])) {
        Err(CliError::MissingValue(t)) => assert_eq!(t, "-n"),
        r => panic!("unexpected {:?}", r),
    }
    match parse_cli(&words(&["ignite", "-n", "x", "-l", "ts"])) {
        Err(CliError::UnexpectedArgument(t)) => assert_eq!(t, "-l"),
        r => panic!("unexpected {:?}", r),
    }
    match parse_cli(&words(&["construct", "-f", "-n", "x"])) {
        Err(CliError::UnexpectedArgument(t)) => assert_eq!(t, "-f"),
        r => panic!("unexpected {:?}", r),
    }
    match parse_cli(&words(&["fabricate", "-l", "ts"])) {
        Err(e @ CliError::MissingName) => assert_eq!(
            e.message(),
            "the following required arguments were not provided: --name <NAME>"
        ),
        r => panic!("unexpected {:?}", r),
    }
    let e = parse_cli(&words(&["launch"])).unwrap_err();
    assert_eq!(e.message(), "unrecognized subcommand 'launch'");
    let e = parse_cli(&words(&["fabricate", "-n", "x", "extra"])).unwrap_err();
    assert_eq!(e.message(), "unexpected argument 'extra' found");
    let e = parse_cli(&words(&["fabricate", "-n", "x", "--lang"])).unwrap_err();
    assert_eq!(e.message(), "a value is required for '--lang' but none was supplied");
}
