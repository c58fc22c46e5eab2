use project_starter::provision::{
    Action, Event, ProvisionResult, ProvisionRun, Provisioner, Stage, ToolOutcome,
};

const PARENT: &str = "/home/u/rustprojects";
const PROJECT: &str = "/home/u/rustprojects/demo";

fn provisioner() -> Provisioner {
    Provisioner::new(PARENT.to_string(), vec!["druid".to_string()])
}

fn strings(v: &[&str]) -> Vec<String> {
    v.iter().map(|s| s.to_string()).collect()
}

fn exited(success: bool, stdout: &str, stderr: &str) -> Event {
    Event::ToolFinished {
        outcome: ToolOutcome::Exited {
            success,
            stdout: stdout.to_string(),
            stderr: stderr.to_string(),
        },
    }
}

fn absent() -> Event {
    Event::PathChecked { exists: false }
}

fn scaffold_call() -> Action {
    Action::RunTool {
        subcommand: "new".to_string(),
        args: strings(&["demo"]),
        working_directory: PARENT.to_string(),
    }
}

fn dependency_call() -> Action {
    Action::RunTool {
        subcommand: "add".to_string(),
        args: strings(&["druid"]),
        working_directory: PROJECT.to_string(),
    }
}

fn editor_call() -> Action {
    Action::OpenFiles {
        paths: strings(&[
            "/home/u/rustprojects/demo/Cargo.toml",
            "/home/u/rustprojects/demo/src/main.rs",
        ]),
    }
}

fn started(p: &Provisioner) -> ProvisionRun {
    let (run, first) = p.provision("demo");
    assert_eq!(first, Action::CheckExists { path: PROJECT.to_string() });
    run
}

#[test]
fn full_pipeline_for_a_new_project() {
    let p = provisioner();
    let mut run = started(&p);
    assert_eq!(p.advance(&mut run, absent()), scaffold_call());
    assert_eq!(p.advance(&mut run, exited(true, "", "Created")), dependency_call());
    assert_eq!(p.advance(&mut run, exited(true, "", "")), editor_call());
    assert_eq!(
        p.advance(&mut run, Event::OpenFinished { error: None }),
        Action::Finish {
            result: ProvisionResult::Success {
                project_path: PROJECT.to_string(),
                open_errors: Vec::new(),
            }
        }
    );
    assert_eq!(run.stage, Stage::Finished);
}

#[test]
fn blank_name_does_nothing() {
    let p = provisioner();
    for name in ["", "   ", "\t\n", "\u{3000}"] {
        let (mut run, first) = p.provision(name);
        assert_eq!(first, Action::Finish { result: ProvisionResult::EmptyName });
        assert_eq!(run.stage, Stage::Finished);
        assert_eq!(p.advance(&mut run, absent()), Action::Nothing);
        assert_eq!(p.advance(&mut run, exited(true, "", "")), Action::Nothing);
    }
}

#[test]
fn name_with_spaces_is_used_verbatim() {
    let p = provisioner();
    let (mut run, first) = p.provision(" demo ");
    assert_eq!(first, Action::CheckExists { path: "/home/u/rustprojects/ demo ".to_string() });
    assert_eq!(
        p.advance(&mut run, absent()),
        Action::RunTool {
            subcommand: "new".to_string(),
            args: strings(&[" demo "]),
            working_directory: PARENT.to_string(),
        }
    );
}

#[test]
fn second_run_takes_the_existing_directory() {
    let p = provisioner();
    let mut run = started(&p);
    p.advance(&mut run, absent());
    p.advance(&mut run, exited(true, "", ""));
    p.advance(&mut run, exited(true, "", ""));
    let done = p.advance(&mut run, Event::OpenFinished { error: None });
    assert!(matches!(done, Action::Finish { result: ProvisionResult::Success { .. } }));

    let mut again = started(&p);
    assert_eq!(p.advance(&mut again, Event::PathChecked { exists: true }), editor_call());
    assert_eq!(
        p.advance(&mut again, Event::OpenFinished { error: None }),
        Action::Finish {
            result: ProvisionResult::AlreadyExists {
                project_path: PROJECT.to_string(),
                open_errors: Vec::new(),
            }
        }
    );
}

#[test]
fn scaffolding_failure_keeps_stderr_and_stops() {
    let p = provisioner();
    let mut run = started(&p);
    p.advance(&mut run, absent());
    assert_eq!(
        p.advance(&mut run, exited(false, "out", "error: destination exists")),
        Action::Finish {
            result: ProvisionResult::CreateFailed {
                stderr: "error: destination exists".to_string()
            }
        }
    );
    assert_eq!(p.advance(&mut run, exited(true, "", "")), Action::Nothing);
}

#[test]
fn scaffolding_spawn_failure() {
    let p = provisioner();
    let mut run = started(&p);
    p.advance(&mut run, absent());
    let ev = Event::ToolFinished {
        outcome: ToolOutcome::SpawnFailed { message: "cargo: not found".to_string() },
    };
    assert_eq!(
        p.advance(&mut run, ev),
        Action::Finish {
            result: ProvisionResult::SpawnError { message: "cargo: not found".to_string() }
        }
    );
}

#[test]
fn dependency_failure_carries_the_outcome() {
    let p = provisioner();
    let mut run = started(&p);
    p.advance(&mut run, absent());
    p.advance(&mut run, exited(true, "", ""));
    assert_eq!(
        p.advance(&mut run, exited(false, "some output", "no such crate")),
        Action::Finish {
            result: ProvisionResult::DependencyAddFailed {
                outcome: ToolOutcome::Exited {
                    success: false,
                    stdout: "some output".to_string(),
                    stderr: "no such crate".to_string(),
                }
            }
        }
    );
    assert_eq!(p.advance(&mut run, Event::OpenFinished { error: None }), Action::Nothing);
}

#[test]
fn dependency_spawn_failure() {
    let p = provisioner();
    let mut run = started(&p);
    p.advance(&mut run, absent());
    p.advance(&mut run, exited(true, "", ""));
    let outcome = ToolOutcome::SpawnFailed { message: "interrupted".to_string() };
    assert_eq!(
        p.advance(&mut run, Event::ToolFinished { outcome }),
        Action::Finish {
            result: ProvisionResult::DependencyAddFailed {
                outcome: ToolOutcome::SpawnFailed { message: "interrupted".to_string() }
            }
        }
    );
}

#[test]
fn opener_failures_are_reported_but_do_not_fail_the_run() {
    let mut p = provisioner();
    p.open_folder = true;
    let mut run = started(&p);
    p.advance(&mut run, absent());
    p.advance(&mut run, exited(true, "", ""));
    p.advance(&mut run, exited(true, "", ""));
    assert_eq!(
        p.advance(&mut run, Event::OpenFinished { error: Some("code: not found".to_string()) }),
        Action::OpenDirectory { path: PROJECT.to_string() }
    );
    assert_eq!(
        p.advance(&mut run, Event::OpenFinished { error: Some("no browser".to_string()) }),
        Action::Finish {
            result: ProvisionResult::Success {
                project_path: PROJECT.to_string(),
                open_errors: strings(&["code: not found", "no browser"]),
            }
        }
    );
}

#[test]
fn without_openers_the_run_ends_after_the_dependencies() {
    let mut p = provisioner();
    p.open_editor = false;
    let mut run = started(&p);
    p.advance(&mut run, absent());
    p.advance(&mut run, exited(true, "", ""));
    assert_eq!(
        p.advance(&mut run, exited(true, "", "")),
        Action::Finish {
            result: ProvisionResult::Success {
                project_path: PROJECT.to_string(),
                open_errors: Vec::new(),
            }
        }
    );
}

#[test]
fn events_that_do_not_answer_are_ignored() {
    let p = provisioner();
    let mut run = started(&p);
    assert_eq!(p.advance(&mut run, exited(true, "", "")), Action::Nothing);
    assert_eq!(run.stage, Stage::CheckingExistence);
    assert_eq!(p.advance(&mut run, absent()), scaffold_call());
    assert_eq!(p.advance(&mut run, absent()), Action::Nothing);
    assert_eq!(run.stage, Stage::Creating);
    assert_eq!(p.advance(&mut run, Event::OpenFinished { error: None }), Action::Nothing);
}

#[test]
fn several_dependencies_in_one_call() {
    let p = Provisioner::new(PARENT.to_string(), strings(&["druid", "serde"]));
    let mut run = started(&p);
    p.advance(&mut run, absent());
    assert_eq!(
        p.advance(&mut run, exited(true, "", "")),
        Action::RunTool {
            subcommand: "add".to_string(),
            args: strings(&["druid", "serde"]),
            working_directory: PROJECT.to_string(),
        }
    );
}

#[test]
fn project_path_joins_parent_and_name() {
    assert_eq!(provisioner().project_path("demo"), PROJECT);
    let p = Provisioner::new("/tmp/".to_string(), Vec::new());
    assert_eq!(p.project_path("x"), "/tmp/x");
}
