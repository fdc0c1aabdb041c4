use scaffolder::host::{check_dependencies, required_tools, shell_invocation};
use scaffolder::lang::{lang_str, parse_lang, Lang};
use scaffolder::plan::Action;
use scaffolder::progress::Progress;
use scaffolder::scaffold::{
    install_dependencies, setup_express, setup_fabricate, setup_frontend, setup_nextjs,
    setup_react_vite, setup_tailwind, setup_tailwindcss, vite_config_path,
};
use scaffolder::templates::{INDEX_CSS, INDEX_CSS_MINIMAL, VITE_CONFIG};

fn s(x: &str) -> String {
    x.to_string()
}

fn run_line(a: &Action) -> String {
    match a {
        Action::Run(c) => c.clone(),
        other => panic!("not a command: {:?}", other),
    }
}

#[test]
fn lang_values() {
    assert_eq!(parse_lang(&s("js")), Some(Lang::Js));
    assert_eq!(parse_lang(&s("ts")), Some(Lang::Ts));
    assert_eq!(parse_lang(&s("TS")), None);
    assert_eq!(parse_lang(&s("")), None);
    assert_eq!(parse_lang(&s("cobol")), None);
    assert_eq!(lang_str(Lang::Js), "js");
    assert_eq!(lang_str(Lang::Ts), "ts");
}

#[test]
fn config_extension_follows_language() {
    assert_eq!(vite_config_path(&s("demo"), Lang::Ts), "demo/vite.config.ts");
    assert_eq!(vite_config_path(&s("demo"), Lang::Js), "demo/vite.config.js");
    for (lang, flag) in [("ts", false), ("ts", true), ("js", false), ("js", true)] {
        let plan = setup_fabricate(&s("demo"), &s(lang), flag).unwrap();
        let paths: Vec<&String> = plan.steps[2]
            .actions
            .iter()
            .filter_map(|a| match a {
                Action::WriteFile(p, t) if t == VITE_CONFIG => Some(p),
                _ => None,
            })
            .collect();
        assert_eq!(paths.len(), 1);
        assert_eq!(paths[0].ends_with(".ts"), lang == "ts");
        assert_eq!(paths[0].rsplit('.').next().unwrap(), lang);
    }
}

#[test]
fn progress_never_passes_total() {
    let mut p = Progress::new(2);
    assert_eq!(p.position(), 0);
    for _ in 0..5 {
        p.inc();
        assert!(p.position() <= p.total());
    }
    assert_eq!(p.position(), 2);
    p.set_message("working");
    assert_eq!(p.label(), "working");
    p.finish_with_message("done");
    assert_eq!(p.position(), 2);
    assert!(p.is_finished());
    assert_eq!(p.label(), "done");

    let mut z = Progress::new(0);
    z.inc();
    assert_eq!(z.position(), 0);
}

#[test]
fn command_lines() {
    let n = s("demo");
    let st = setup_frontend(&n, Lang::Js);
    assert_eq!(run_line(&st.actions[0]), "npm create vite@latest demo -- --template react-swc");
    assert_eq!(st.failure, "Failed to setup React with Vite.");
    let st = setup_react_vite(&n, Lang::Js);
    assert_eq!(run_line(&st.actions[0]), "npx create-vite@latest demo --template react");
    let st = install_dependencies(&n);
    assert_eq!(run_line(&st.actions[0]), "cd demo && npm install");
    assert_eq!(st.label, "Installing dependencies...");
    let st = setup_express(&n);
    assert_eq!(
        run_line(&st.actions[0]),
        "mkdir demo && cd demo && npm init -y && npm install express"
    );
    let st = setup_nextjs(&n);
    assert_eq!(run_line(&st.actions[0]), "npx create-next-app@latest demo --ts");
    assert!(matches!(&st.actions[1], Action::CreateDir(d) if d == "demo"));
}

#[test]
fn styling_paths() {
    let n = s("demo");
    let st = setup_tailwindcss(&n, Lang::Ts);
    assert_eq!(st.actions.len(), 3);
    assert!(matches!(&st.actions[0], Action::WriteFile(p, t) if p == "demo/vite.config.ts" && t == VITE_CONFIG));
    assert!(matches!(&st.actions[1], Action::WriteFile(p, t) if p == "demo/src/index.css" && t == INDEX_CSS));
    assert_eq!(run_line(&st.actions[2]), "cd demo && npm install tailwindcss @tailwindcss/vite");

    let st = setup_tailwind(&n, Lang::Js);
    assert_eq!(st.actions.len(), 4);
    assert_eq!(run_line(&st.actions[0]), "cd demo && npm install tailwindcss @tailwindcss/vite");
    assert!(matches!(&st.actions[1], Action::CreateDir(d) if d == "demo/src"));
    assert!(matches!(&st.actions[2], Action::WriteFile(p, _) if p == "demo/vite.config.js"));
    assert!(matches!(&st.actions[3], Action::WriteFile(p, t) if p == "demo/src/index.css" && t == INDEX_CSS_MINIMAL));
    assert!(INDEX_CSS.starts_with("@import \"tailwindcss\";"));
    assert!(VITE_CONFIG.contains("plugins: [react(), tailwindcss()]"));
}

#[test]
fn fabricate_flag_selects_styling_path() {
    let a = setup_fabricate(&s("demo"), &s("js"), false).unwrap();
    let b = setup_fabricate(&s("demo"), &s("js"), true).unwrap();
    assert_eq!(a.steps[2].label, "Setting up Tailwind CSS...");
    assert_eq!(b.steps[2].label, "Installing TailwindCSS...");
    assert_eq!(a.steps[2].failure, "Failed to setup Tailwind.");
    assert_eq!(a.complete, "React-Vite project setup complete!");
}

#[test]
fn dependency_check_names_first_missing_tool() {
    let tools = required_tools();
    assert_eq!(tools, vec![s("npm"), s("npx")]);
    assert_eq!(check_dependencies(&vec![(s("npm"), true), (s("npx"), true)]), Ok(()));
    assert_eq!(check_dependencies(&Vec::new()), Ok(()));
    assert_eq!(
        check_dependencies(&vec![(s("npm"), true), (s("npx"), false), (s("git"), false)]),
        Err(s("Missing dependency: npx. Please install it."))
    );
    assert_eq!(
        check_dependencies(&vec![(s("npm"), false), (s("npx"), true)]),
        Err(s("Missing dependency: npm. Please install it."))
    );
}

#[test]
fn shell_selection() {
    let (p, a) = shell_invocation(&s("echo hi"), false);
    assert_eq!(p, "sh");
    assert_eq!(a, vec![s("-c"), s("echo hi")]);
    let (p, a) = shell_invocation(&s("echo hi"), true);
    assert_eq!(p, "cmd");
    assert_eq!(a, vec![s("/C"), s("echo hi")]);
}
