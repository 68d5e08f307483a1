use depcmd::args::{AddArgs, AnalyzeArgs, DependencyArgs, DependencyCommands, RemoveArgs, UpdateArgs};
use depcmd::error::{DepError, Op};
use depcmd::session::{
    add_dependencies, analyze_dependencies, execute, remove_dependencies, update_dependencies, Action,
    Event, Output, Session, Tone,
};

fn s(x: &str) -> String {
    x.to_string()
}

fn strings(xs: &[&str]) -> Vec<String> {
    xs.iter().map(|x| x.to_string()).collect()
}

fn ok_exit() -> Event {
    Event::Exited { success: true, stdout: String::new(), stderr: String::new() }
}

fn failed_exit(err: &str) -> Event {
    Event::Exited { success: false, stdout: String::new(), stderr: s(err) }
}

fn add(names: &[&str], features: Option<&str>) -> AddArgs {
    AddArgs {
        dependencies: strings(names),
        dev: false,
        features: features.map(s),
        version: None,
        path: Some(s("proj")),
    }
}

/// Runs the session, answering every tool invocation from `exits` in turn and
/// every other action from `answer`; returns the invocations and the outcome.
fn drive(
    mut session: Session,
    mut exits: Vec<Event>,
    answer: &mut dyn FnMut(&Action) -> Event,
) -> (Vec<Vec<String>>, Result<(), DepError>) {
    let mut runs = Vec::new();
    exits.reverse();
    for _ in 0..100 {
        let action = session.action();
        let event = match &action {
            Action::Finished(r) => return (runs, r.clone()),
            Action::Run { args, .. } => {
                runs.push(args.clone());
                exits.pop().unwrap_or_else(ok_exit)
            }
            other => answer(other),
        };
        session.on_event(event);
    }
    panic!("session did not finish");
}

fn located(a: &Action) -> Event {
    match a {
        Action::CheckProject { .. } => Event::ProjectChecked(true),
        _ => panic!("unexpected action {:?}", a),
    }
}

#[test]
fn add_with_explicit_features_runs_once_without_prompt() {
    let session = add_dependencies(add(&["serde"], Some("derive")));
    let (runs, outcome) = drive(session, vec![], &mut located);
    assert_eq!(runs, vec![strings(&["add", "serde", "--features", "derive"])]);
    assert_eq!(outcome, Ok(()));
}

#[test]
fn add_reports_before_and_after() {
    let mut session = add_dependencies(add(&["serde"], Some("derive")));
    session.on_event(Event::ProjectChecked(true));
    let before = session.announcement().unwrap();
    assert_eq!(before.tone, Tone::Success);
    assert_eq!(before.label, "Adding dependency:");
    assert_eq!(before.subject, "serde");
    let after = session.report(&ok_exit()).unwrap();
    assert_eq!(after.label, "Successfully added:");
    assert_eq!(after.subject, "serde");
}

#[test]
fn add_with_chosen_suggestions() {
    let mut session = add_dependencies(add(&["tokio"], None));
    session.on_event(Event::ProjectChecked(true));
    match session.action() {
        Action::ChooseFeatures { dependency, options } => {
            assert_eq!(dependency, "tokio");
            assert_eq!(options, strings(&["full", "rt", "rt-multi-thread", "macros", "io-util", "time"]));
        }
        other => panic!("unexpected {:?}", other),
    }
    session.on_event(Event::Chosen(vec![1, 3]));
    match session.action() {
        Action::Run { args, output, dir } => {
            assert_eq!(args, strings(&["add", "tokio", "--features", "rt,macros"]));
            assert_eq!(output, Output::Captured);
            assert_eq!(dir, Some(s("proj")));
        }
        other => panic!("unexpected {:?}", other),
    }
}

#[test]
fn add_unknown_crate_has_no_features_flag() {
    let mut args = add(&["anyhow"], None);
    args.dev = true;
    args.version = Some(s("1.0"));
    let (runs, outcome) = drive(add_dependencies(args), vec![], &mut located);
    assert_eq!(runs, vec![strings(&["add", "anyhow", "--dev", "--version", "1.0"])]);
    assert_eq!(outcome, Ok(()));
}

#[test]
fn add_with_empty_selection_has_no_features_flag() {
    let mut answer = |a: &Action| match a {
        Action::CheckProject { .. } => Event::ProjectChecked(true),
        Action::ChooseFeatures { .. } => Event::Chosen(vec![]),
        _ => panic!("unexpected"),
    };
    let (runs, _) = drive(add_dependencies(add(&["serde"], None)), vec![], &mut answer);
    assert_eq!(runs, vec![strings(&["add", "serde"])]);
}

#[test]
fn add_prompts_for_names_when_none_given() {
    let mut answer = |a: &Action| match a {
        Action::CheckProject { .. } => Event::ProjectChecked(true),
        Action::AskNames => Event::Line(s(" anyhow , ,thiserror ")),
        _ => panic!("unexpected"),
    };
    let (runs, outcome) = drive(add_dependencies(add(&[], None)), vec![], &mut answer);
    assert_eq!(runs, vec![strings(&["add", "anyhow"]), strings(&["add", "thiserror"])]);
    assert_eq!(outcome, Ok(()));
}

#[test]
fn add_blank_line_is_no_dependencies_specified() {
    let mut answer = |a: &Action| match a {
        Action::CheckProject { .. } => Event::ProjectChecked(true),
        Action::AskNames => Event::Line(s(" , ")),
        _ => panic!("unexpected"),
    };
    let (runs, outcome) = drive(add_dependencies(add(&[], None)), vec![], &mut answer);
    assert!(runs.is_empty());
    assert_eq!(outcome, Err(DepError::NoDependenciesSpecified));
}

#[test]
fn missing_manifest_is_not_a_project() {
    let mut answer = |_: &Action| Event::ProjectChecked(false);
    let (runs, outcome) = drive(add_dependencies(add(&["serde"], Some("derive"))), vec![], &mut answer);
    assert!(runs.is_empty());
    assert_eq!(outcome, Err(DepError::NotAProject));
}

#[test]
fn default_directory_is_current() {
    let session = update_dependencies(UpdateArgs { dependencies: vec![], path: None });
    match session.action() {
        Action::CheckProject { dir } => assert_eq!(dir, "."),
        other => panic!("unexpected {:?}", other),
    }
}

#[test]
fn remove_named_in_order() {
    let session = remove_dependencies(RemoveArgs { dependencies: strings(&["a", "b", "c"]), path: None });
    let (runs, outcome) = drive(session, vec![], &mut located);
    assert_eq!(
        runs,
        vec![strings(&["remove", "a"]), strings(&["remove", "b"]), strings(&["remove", "c"])]
    );
    assert_eq!(outcome, Ok(()));
}

#[test]
fn second_failure_stops_batch() {
    let session = update_dependencies(UpdateArgs { dependencies: strings(&["a", "b", "c"]), path: None });
    let (runs, outcome) = drive(session, vec![ok_exit(), failed_exit("boom")], &mut located);
    assert_eq!(runs.len(), 2);
    assert_eq!(runs[1], strings(&["update", "b"]));
    assert_eq!(
        outcome,
        Err(DepError::ToolFailed { op: Op::Update, name: s("b"), stderr: s("boom") })
    );
}

#[test]
fn launch_failure_stops_batch() {
    let mut session = remove_dependencies(RemoveArgs { dependencies: strings(&["a", "b"]), path: None });
    session.on_event(Event::ProjectChecked(true));
    session.on_event(Event::LaunchFailed);
    match session.action() {
        Action::Finished(r) => assert_eq!(r, Err(DepError::LaunchFailed { op: Op::Remove, name: s("a") })),
        other => panic!("unexpected {:?}", other),
    }
}

#[test]
fn update_without_names_is_one_bulk_call() {
    let session = update_dependencies(UpdateArgs { dependencies: vec![], path: None });
    let (runs, outcome) = drive(session, vec![], &mut located);
    assert_eq!(runs, vec![strings(&["update"])]);
    assert_eq!(outcome, Ok(()));
}

#[test]
fn update_all_failure_carries_stderr() {
    let session = update_dependencies(UpdateArgs { dependencies: vec![], path: None });
    let (runs, outcome) = drive(session, vec![failed_exit("no network")], &mut located);
    assert_eq!(runs.len(), 1);
    assert_eq!(
        outcome,
        Err(DepError::ToolFailed { op: Op::UpdateAll, name: String::new(), stderr: s("no network") })
    );
}

fn remove_from_manifest(text: &str, picks: Vec<usize>) -> (Vec<Vec<String>>, Result<(), DepError>, Vec<String>) {
    let mut offered = Vec::new();
    let text = s(text);
    let mut answer = |a: &Action| match a {
        Action::CheckProject { .. } => Event::ProjectChecked(true),
        Action::ReadManifest { .. } => Event::ManifestText(text.clone()),
        Action::ChooseRemovals { candidates } => {
            offered = candidates.clone();
            Event::Chosen(picks.clone())
        }
        _ => panic!("unexpected"),
    };
    let session = remove_dependencies(RemoveArgs { dependencies: vec![], path: None });
    let (runs, outcome) = drive(session, vec![], &mut answer);
    (runs, outcome, offered)
}

#[test]
fn remove_with_empty_manifest_fails() {
    let (runs, outcome, _) = remove_from_manifest("[package]\nname = \"x\"\n[dependencies]\n", vec![]);
    assert!(runs.is_empty());
    assert_eq!(outcome, Err(DepError::NoDependenciesFound));
}

#[test]
fn remove_chooses_from_manifest() {
    let text = "dependencies = { a = \"1\", b = \"2\" }\ndev-dependencies = { c = \"1\" }\n";
    let (runs, outcome, offered) = remove_from_manifest(text, vec![0, 2]);
    assert_eq!(offered, strings(&["a", "b", "c"]));
    assert_eq!(runs, vec![strings(&["remove", "a"]), strings(&["remove", "c"])]);
    assert_eq!(outcome, Ok(()));
}

#[test]
fn remove_with_nothing_chosen_is_a_quiet_success() {
    let text = "[dependencies]\na = \"1\"\n";
    let (runs, outcome, _) = remove_from_manifest(text, vec![]);
    assert!(runs.is_empty());
    assert_eq!(outcome, Ok(()));
}

#[test]
fn remove_with_malformed_manifest_fails() {
    let (runs, outcome, _) = remove_from_manifest("[dependencies\n", vec![]);
    assert!(runs.is_empty());
    assert_eq!(outcome, Err(DepError::ManifestMalformed));
}

#[test]
fn remove_with_unreadable_manifest_fails() {
    let mut answer = |a: &Action| match a {
        Action::CheckProject { .. } => Event::ProjectChecked(true),
        Action::ReadManifest { .. } => Event::ManifestUnreadable,
        _ => panic!("unexpected"),
    };
    let session = remove_dependencies(RemoveArgs { dependencies: vec![], path: None });
    let (_, outcome) = drive(session, vec![], &mut answer);
    assert_eq!(outcome, Err(DepError::ManifestUnreadable));
}

#[test]
fn prompt_failure_ends_session() {
    let mut answer = |a: &Action| match a {
        Action::CheckProject { .. } => Event::ProjectChecked(true),
        _ => Event::PromptFailed,
    };
    let (_, outcome) = drive(add_dependencies(add(&[], None)), vec![], &mut answer);
    assert_eq!(outcome, Err(DepError::PromptFailed));
}

#[test]
fn analyze_with_audit_installed() {
    let session = analyze_dependencies(AnalyzeArgs { path: None });
    let tree = Event::Exited { success: true, stdout: s("proj v0.1.0"), stderr: String::new() };
    let (runs, outcome) = drive(session, vec![ok_exit(), tree, failed_exit("")], &mut located);
    assert_eq!(runs, vec![strings(&["audit", "--version"]), strings(&["tree"]), strings(&["audit"])]);
    assert_eq!(outcome, Ok(()));
}

#[test]
fn analyze_declined_install_skips_audit() {
    let mut answer = |a: &Action| match a {
        Action::CheckProject { .. } => Event::ProjectChecked(true),
        Action::ConfirmInstall => Event::Confirmed(false),
        _ => panic!("unexpected"),
    };
    let session = execute(DependencyArgs { command: DependencyCommands::Analyze(AnalyzeArgs { path: None }) });
    let (runs, outcome) =
        drive(session, vec![failed_exit(""), ok_exit(), failed_exit("")], &mut answer);
    assert_eq!(
        runs,
        vec![strings(&["audit", "--version"]), strings(&["tree"]), strings(&["audit", "--version"])]
    );
    assert_eq!(outcome, Ok(()));
}

#[test]
fn analyze_installs_audit_helper() {
    let mut answer = |a: &Action| match a {
        Action::CheckProject { .. } => Event::ProjectChecked(true),
        Action::ConfirmInstall => Event::Confirmed(true),
        _ => panic!("unexpected"),
    };
    let session = analyze_dependencies(AnalyzeArgs { path: None });
    let (runs, _) = drive(session, vec![failed_exit("")], &mut answer);
    assert_eq!(
        runs,
        vec![
            strings(&["audit", "--version"]),
            strings(&["install", "cargo-audit"]),
            strings(&["tree"]),
            strings(&["audit", "--version"]),
            strings(&["audit"]),
        ]
    );
}

#[test]
fn tree_output_is_reported() {
    let mut session = analyze_dependencies(AnalyzeArgs { path: None });
    session.on_event(Event::ProjectChecked(true));
    session.on_event(ok_exit());
    let tree = Event::Exited { success: true, stdout: s("proj v0.1.0"), stderr: String::new() };
    let note = session.report(&tree).unwrap();
    assert_eq!(note.label, "proj v0.1.0");
}

#[test]
fn execute_dispatches_add() {
    let session = execute(DependencyArgs { command: DependencyCommands::Add(add(&["rand"], None)) });
    let (runs, _) = drive(session, vec![], &mut located);
    assert_eq!(runs, vec![strings(&["add", "rand"])]);
}
