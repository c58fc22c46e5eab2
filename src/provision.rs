//! Provisioning a project: check for its directory, scaffold it, add its
//! dependencies, then open it.
//!
//! A run is a small state machine. [`Provisioner::provision`] starts one and
//! names the first action; [`Provisioner::advance`] takes what came of the
//! pending action and names the next. The caller performs each action and
//! stops at [`Action::Finish`].

use crate::text::{copy_strings, is_blank, is_blank_name, join_path, path_join, texts};
use vstd::prelude::*;

verus! {

/// What came of running a command-line tool.
#[derive(Debug, PartialEq, Eq)]
pub enum ToolOutcome {
    /// The tool ran to its end, with this exit status and output.
    Exited { success: bool, stdout: String, stderr: String },
    /// The tool could not be started.
    SpawnFailed { message: String },
}

pub enum ToolOutcomeView {
    Exited { success: bool, stdout: Seq<char>, stderr: Seq<char> },
    SpawnFailed { message: Seq<char> },
}

impl View for ToolOutcome {
    type V = ToolOutcomeView;

    open spec fn view(&self) -> ToolOutcomeView {
        match self {
            ToolOutcome::Exited { success, stdout, stderr } => ToolOutcomeView::Exited {
                success: *success,
                stdout: stdout@,
                stderr: stderr@,
            },
            ToolOutcome::SpawnFailed { message } => ToolOutcomeView::SpawnFailed {
                message: message@,
            },
        }
    }
}

/// How a run of provisioning ended.
#[derive(Debug, PartialEq, Eq)]
pub enum ProvisionResult {
    /// The name was blank; nothing was done.
    EmptyName,
    /// The directory was there already; it was opened as it stands.
    AlreadyExists { project_path: String, open_errors: Vec<String> },
    /// The project was created and its dependencies added.
    Success { project_path: String, open_errors: Vec<String> },
    /// The scaffolding tool exited with failure; its standard error is kept.
    CreateFailed { stderr: String },
    /// The scaffolding tool could not be started.
    SpawnError { message: String },
    /// Adding the dependencies failed, with this outcome of the tool.
    DependencyAddFailed { outcome: ToolOutcome },
}

pub enum ProvisionResultView {
    EmptyName,
    AlreadyExists { project_path: Seq<char>, open_errors: Seq<Seq<char>> },
    Success { project_path: Seq<char>, open_errors: Seq<Seq<char>> },
    CreateFailed { stderr: Seq<char> },
    SpawnError { message: Seq<char> },
    DependencyAddFailed { outcome: ToolOutcomeView },
}

impl View for ProvisionResult {
    type V = ProvisionResultView;

    open spec fn view(&self) -> ProvisionResultView {
        match self {
            ProvisionResult::EmptyName => ProvisionResultView::EmptyName,
            ProvisionResult::AlreadyExists { project_path, open_errors } =>
                ProvisionResultView::AlreadyExists {
                project_path: project_path@,
                open_errors: texts(open_errors@),
            },
            ProvisionResult::Success { project_path, open_errors } => ProvisionResultView::Success {
                project_path: project_path@,
                open_errors: texts(open_errors@),
            },
            ProvisionResult::CreateFailed { stderr } => ProvisionResultView::CreateFailed {
                stderr: stderr@,
            },
            ProvisionResult::SpawnError { message } => ProvisionResultView::SpawnError {
                message: message@,
            },
            ProvisionResult::DependencyAddFailed { outcome } =>
                ProvisionResultView::DependencyAddFailed { outcome: outcome@ },
        }
    }
}

/// What the caller is asked to do next.
#[derive(Debug, PartialEq, Eq)]
pub enum Action {
    /// Find out whether `path` is present.
    CheckExists { path: String },
    /// Run the project tool with `subcommand` and `args` in `working_directory`.
    RunTool { subcommand: String, args: Vec<String>, working_directory: String },
    /// Open these files in the editor.
    OpenFiles { paths: Vec<String> },
    /// Open this directory in the file browser.
    OpenDirectory { path: String },
    /// The run is over, with this result.
    Finish { result: ProvisionResult },
    /// Nothing: the event did not answer the pending action.
    Nothing,
}

pub enum ActionView {
    CheckExists { path: Seq<char> },
    RunTool { subcommand: Seq<char>, args: Seq<Seq<char>>, working_directory: Seq<char> },
    OpenFiles { paths: Seq<Seq<char>> },
    OpenDirectory { path: Seq<char> },
    Finish { result: ProvisionResultView },
    Nothing,
}

impl View for Action {
    type V = ActionView;

    open spec fn view(&self) -> ActionView {
        match self {
            Action::CheckExists { path } => ActionView::CheckExists { path: path@ },
            Action::RunTool { subcommand, args, working_directory } => ActionView::RunTool {
                subcommand: subcommand@,
                args: texts(args@),
                working_directory: working_directory@,
            },
            Action::OpenFiles { paths } => ActionView::OpenFiles { paths: texts(paths@) },
            Action::OpenDirectory { path } => ActionView::OpenDirectory { path: path@ },
            Action::Finish { result } => ActionView::Finish { result: result@ },
            Action::Nothing => ActionView::Nothing,
        }
    }
}

/// What came of the pending action.
#[derive(Debug, PartialEq, Eq)]
pub enum Event {
    /// The answer to [`Action::CheckExists`].
    PathChecked { exists: bool },
    /// The answer to [`Action::RunTool`].
    ToolFinished { outcome: ToolOutcome },
    /// The answer to [`Action::OpenFiles`] and [`Action::OpenDirectory`]:
    /// the error, if the opener failed.
    OpenFinished { error: Option<String> },
}

pub enum EventView {
    PathChecked { exists: bool },
    ToolFinished { outcome: ToolOutcomeView },
    OpenFinished { error: Option<Seq<char>> },
}

impl View for Event {
    type V = EventView;

    open spec fn view(&self) -> EventView {
        match self {
            Event::PathChecked { exists } => EventView::PathChecked { exists: *exists },
            Event::ToolFinished { outcome } => EventView::ToolFinished { outcome: outcome@ },
            Event::OpenFinished { error } => EventView::OpenFinished {
                error: match error {
                    Some(e) => Some(e@),
                    None => None,
                },
            },
        }
    }
}

/// Where a run stands.
#[derive(Clone, Copy, Debug, PartialEq, Eq, Structural)]
pub enum Stage {
    CheckingExistence,
    Creating,
    AddingDependencies,
    OpeningEditor,
    OpeningFolder,
    Finished,
}

/// One run of provisioning, for one project name.
#[derive(Debug, PartialEq, Eq)]
pub struct ProvisionRun {
    pub project_name: String,
    pub project_path: String,
    pub stage: Stage,
    /// Whether the directory was there before the run.
    pub existed: bool,
    /// What the openers reported, in order.
    pub open_errors: Vec<String>,
}

pub struct ProvisionRunView {
    pub project_name: Seq<char>,
    pub project_path: Seq<char>,
    pub stage: Stage,
    pub existed: bool,
    pub open_errors: Seq<Seq<char>>,
}

impl View for ProvisionRun {
    type V = ProvisionRunView;

    open spec fn view(&self) -> ProvisionRunView {
        ProvisionRunView {
            project_name: self.project_name@,
            project_path: self.project_path@,
            stage: self.stage,
            existed: self.existed,
            open_errors: texts(self.open_errors@),
        }
    }
}

/// The fixed settings of provisioning.
#[derive(Debug, PartialEq, Eq)]
pub struct Provisioner {
    /// The directory that new projects are created in.
    pub parent_directory: String,
    /// The dependencies added to each new project.
    pub dependencies: Vec<String>,
    /// The manifest file of a project, relative to its directory.
    pub manifest_file: String,
    /// The entry source file of a project, relative to its directory.
    pub entry_source_file: String,
    /// Whether to open the manifest and entry source in the editor.
    pub open_editor: bool,
    /// Whether to open the project directory in the file browser.
    pub open_folder: bool,
}

pub struct ProvisionerView {
    pub parent_directory: Seq<char>,
    pub dependencies: Seq<Seq<char>>,
    pub manifest_file: Seq<char>,
    pub entry_source_file: Seq<char>,
    pub open_editor: bool,
    pub open_folder: bool,
}

impl View for Provisioner {
    type V = ProvisionerView;

    open spec fn view(&self) -> ProvisionerView {
        ProvisionerView {
            parent_directory: self.parent_directory@,
            dependencies: texts(self.dependencies@),
            manifest_file: self.manifest_file@,
            entry_source_file: self.entry_source_file@,
            open_editor: self.open_editor,
            open_folder: self.open_folder,
        }
    }
}

/// The directory of the project called `name`.
pub open spec fn project_path_of(cfg: ProvisionerView, name: Seq<char>) -> Seq<char> {
    path_join(cfg.parent_directory, name)
}

/// The run that [`Provisioner::provision`] starts for `name`.
pub open spec fn start_run(cfg: ProvisionerView, name: Seq<char>) -> ProvisionRunView {
    ProvisionRunView {
        project_name: name,
        project_path: project_path_of(cfg, name),
        stage: if is_blank_name(name) {
            Stage::Finished
        } else {
            Stage::CheckingExistence
        },
        existed: false,
        open_errors: Seq::empty(),
    }
}

/// The first action of the run for `name`.
pub open spec fn start_action(cfg: ProvisionerView, name: Seq<char>) -> ActionView {
    if is_blank_name(name) {
        ActionView::Finish { result: ProvisionResultView::EmptyName }
    } else {
        ActionView::CheckExists { path: project_path_of(cfg, name) }
    }
}

/// The scaffolding call: `new` with the project name, in the parent directory.
pub open spec fn scaffold_call(cfg: ProvisionerView, name: Seq<char>) -> ActionView {
    ActionView::RunTool {
        subcommand: "new"@,
        args: seq![name],
        working_directory: cfg.parent_directory,
    }
}

/// The dependency call: `add` with the dependencies, in the project
/// directory `path`.
pub open spec fn dependency_call(cfg: ProvisionerView, path: Seq<char>) -> ActionView {
    ActionView::RunTool { subcommand: "add"@, args: cfg.dependencies, working_directory: path }
}

/// The editor call: the project's manifest and entry source.
pub open spec fn editor_call(cfg: ProvisionerView, path: Seq<char>) -> ActionView {
    ActionView::OpenFiles {
        paths: seq![path_join(path, cfg.manifest_file), path_join(path, cfg.entry_source_file)],
    }
}

/// The result of a run whose project is in place.
pub open spec fn ready_result(run: ProvisionRunView) -> ProvisionResultView {
    if run.existed {
        ProvisionResultView::AlreadyExists {
            project_path: run.project_path,
            open_errors: run.open_errors,
        }
    } else {
        ProvisionResultView::Success {
            project_path: run.project_path,
            open_errors: run.open_errors,
        }
    }
}

/// `run` moved to `stage`.
pub open spec fn at_stage(run: ProvisionRunView, stage: Stage) -> ProvisionRunView {
    ProvisionRunView { stage, ..run }
}

/// The run ends with `result`.
pub open spec fn finish(run: ProvisionRunView, result: ProvisionResultView) -> (
    ProvisionRunView,
    ActionView,
) {
    (at_stage(run, Stage::Finished), ActionView::Finish { result })
}

/// The step into the opening of the directory in the file browser, if the
/// settings ask for it, or else the end.
pub open spec fn open_folder_or_finish(cfg: ProvisionerView, run: ProvisionRunView) -> (
    ProvisionRunView,
    ActionView,
) {
    if cfg.open_folder {
        (at_stage(run, Stage::OpeningFolder), ActionView::OpenDirectory { path: run.project_path })
    } else {
        finish(run, ready_result(run))
    }
}

/// The step once the project is in place: the first opening that the
/// settings ask for, or the end.
pub open spec fn open_project(cfg: ProvisionerView, run: ProvisionRunView) -> (
    ProvisionRunView,
    ActionView,
) {
    if cfg.open_editor {
        (at_stage(run, Stage::OpeningEditor), editor_call(cfg, run.project_path))
    } else {
        open_folder_or_finish(cfg, run)
    }
}

/// `run` with an opener's error, if any, recorded.
pub open spec fn record_open(run: ProvisionRunView, error: Option<Seq<char>>) -> ProvisionRunView {
    match error {
        Some(e) => ProvisionRunView { open_errors: run.open_errors.push(e), ..run },
        None => run,
    }
}

/// The next run and action once `ev` has come of the pending action of `run`.
/// An event that does not answer the pending action changes nothing and asks
/// for nothing.
pub open spec fn step(cfg: ProvisionerView, run: ProvisionRunView, ev: EventView) -> (
    ProvisionRunView,
    ActionView,
) {
    match run.stage {
        Stage::CheckingExistence => match ev {
            EventView::PathChecked { exists } => if exists {
                open_project(cfg, ProvisionRunView { existed: true, ..run })
            } else {
                (at_stage(run, Stage::Creating), scaffold_call(cfg, run.project_name))
            },
            _ => (run, ActionView::Nothing),
        },
        Stage::Creating => match ev {
            EventView::ToolFinished { outcome } => match outcome {
                ToolOutcomeView::Exited { success, stdout, stderr } => if success {
                    (
                        at_stage(run, Stage::AddingDependencies),
                        dependency_call(cfg, run.project_path),
                    )
                } else {
                    finish(run, ProvisionResultView::CreateFailed { stderr })
                },
                ToolOutcomeView::SpawnFailed { message } => finish(
                    run,
                    ProvisionResultView::SpawnError { message },
                ),
            },
            _ => (run, ActionView::Nothing),
        },
        Stage::AddingDependencies => match ev {
            EventView::ToolFinished { outcome } => if outcome matches ToolOutcomeView::Exited {
                success: true,
                ..
            } {
                open_project(cfg, run)
            } else {
                finish(run, ProvisionResultView::DependencyAddFailed { outcome })
            },
            _ => (run, ActionView::Nothing),
        },
        Stage::OpeningEditor => match ev {
            EventView::OpenFinished { error } => open_folder_or_finish(
                cfg,
                record_open(run, error),
            ),
            _ => (run, ActionView::Nothing),
        },
        Stage::OpeningFolder => match ev {
            EventView::OpenFinished { error } => {
                let r = record_open(run, error);
                finish(r, ready_result(r))
            },
            _ => (run, ActionView::Nothing),
        },
        Stage::Finished => (run, ActionView::Nothing),
    }
}

/// The run `run` ended with `result`.
fn end_run(run: &mut ProvisionRun, result: ProvisionResult) -> (a: Action)
    ensures
        (final(run)@, a@) == finish(old(run)@, result@),
{
    run.stage = Stage::Finished;
    Action::Finish { result }
}

/// The result of `run` once its project is in place.
fn result_when_ready(run: &ProvisionRun) -> (r: ProvisionResult)
    ensures
        r@ == ready_result(run@),
{
    let project_path = run.project_path.clone();
    let open_errors = copy_strings(&run.open_errors);
    if run.existed {
        ProvisionResult::AlreadyExists { project_path, open_errors }
    } else {
        ProvisionResult::Success { project_path, open_errors }
    }
}

/// Records an opener's error, if any, in `run`.
fn record_open_error(run: &mut ProvisionRun, error: Option<String>)
    ensures
        final(run)@ == record_open(old(run)@, match error {
            Some(e) => Some(e@),
            None => None,
        }),
{
    match error {
        Some(e) => {
            let ghost before = run.open_errors@;
            run.open_errors.push(e);
            assert(texts(run.open_errors@) =~= texts(before).push(e@));
        },
        None => {},
    }
}

impl Provisioner {
    /// Settings that create projects in `parent_directory`, add
    /// `dependencies` to each, and open its `Cargo.toml` and `src/main.rs` in
    /// the editor, without the file browser.
    pub fn new(parent_directory: String, dependencies: Vec<String>) -> (p: Provisioner)
        ensures
            p@.parent_directory == parent_directory@,
            p@.dependencies == texts(dependencies@),
            p@.manifest_file == "Cargo.toml"@,
            p@.entry_source_file == "src/main.rs"@,
            p@.open_editor,
            !p@.open_folder,
    {
        Provisioner {
            parent_directory,
            dependencies,
            manifest_file: String::from_str("Cargo.toml"),
            entry_source_file: String::from_str("src/main.rs"),
            open_editor: true,
            open_folder: false,
        }
    }

    /// The directory of the project called `project_name`.
    pub fn project_path(&self, project_name: &str) -> (r: String)
        ensures
            r@ == project_path_of(self@, project_name@),
    {
        join_path(self.parent_directory.as_str(), project_name)
    }

    /// Starts provisioning the project called `project_name`: the run and its
    /// first action. A blank name ends the run at once with
    /// [`ProvisionResult::EmptyName`]; any other is looked for on disk first.
    pub fn provision(&self, project_name: &str) -> (r: (ProvisionRun, Action))
        ensures
            r.0@ == start_run(self@, project_name@),
            r.1@ == start_action(self@, project_name@),
    {
        let project_path = self.project_path(project_name);
        let blank = is_blank(project_name);
        let run = ProvisionRun {
            project_name: String::from_str(project_name),
            project_path: project_path.clone(),
            stage: if blank {
                Stage::Finished
            } else {
                Stage::CheckingExistence
            },
            existed: false,
            open_errors: Vec::new(),
        };
        assert(texts(run.open_errors@) =~= Seq::empty());
        if blank {
            (run, Action::Finish { result: ProvisionResult::EmptyName })
        } else {
            (run, Action::CheckExists { path: project_path })
        }
    }

    /// The scaffolding call for `project_name`.
    fn scaffold_action(&self, project_name: &String) -> (a: Action)
        ensures
            a@ == scaffold_call(self@, project_name@),
    {
        let mut args: Vec<String> = Vec::new();
        args.push(project_name.clone());
        assert(texts(args@) =~= seq![project_name@]);
        Action::RunTool {
            subcommand: String::from_str("new"),
            args,
            working_directory: self.parent_directory.clone(),
        }
    }

    /// The dependency call for the project in `project_path`.
    fn dependency_action(&self, project_path: &String) -> (a: Action)
        ensures
            a@ == dependency_call(self@, project_path@),
    {
        Action::RunTool {
            subcommand: String::from_str("add"),
            args: copy_strings(&self.dependencies),
            working_directory: project_path.clone(),
        }
    }

    /// The editor call for the project in `project_path`.
    fn editor_action(&self, project_path: &String) -> (a: Action)
        ensures
            a@ == editor_call(self@, project_path@),
    {
        let mut paths: Vec<String> = Vec::new();
        paths.push(join_path(project_path.as_str(), self.manifest_file.as_str()));
        paths.push(join_path(project_path.as_str(), self.entry_source_file.as_str()));
        assert(texts(paths@) =~= seq![
            path_join(project_path@, self@.manifest_file),
            path_join(project_path@, self@.entry_source_file),
        ]);
        Action::OpenFiles { paths }
    }

    /// Moves `run` on to the file browser, if the settings ask for it, or
    /// else ends it.
    fn enter_folder_or_finish(&self, run: &mut ProvisionRun) -> (a: Action)
        ensures
            (final(run)@, a@) == open_folder_or_finish(self@, old(run)@),
    {
        if self.open_folder {
            run.stage = Stage::OpeningFolder;
            Action::OpenDirectory { path: run.project_path.clone() }
        } else {
            let result = result_when_ready(run);
            end_run(run, result)
        }
    }

    /// Moves `run`, whose project is in place, on to the first opening that
    /// the settings ask for, or else ends it.
    fn enter_opening(&self, run: &mut ProvisionRun) -> (a: Action)
        ensures
            (final(run)@, a@) == open_project(self@, old(run)@),
    {
        if self.open_editor {
            run.stage = Stage::OpeningEditor;
            self.editor_action(&run.project_path)
        } else {
            self.enter_folder_or_finish(run)
        }
    }

    /// Moves `run` on by what came of its pending action, and names the next
    /// action. An event that does not answer the pending action changes
    /// nothing and asks for [`Action::Nothing`].
    pub fn advance(&self, run: &mut ProvisionRun, event: Event) -> (a: Action)
        ensures
            (final(run)@, a@) == step(self@, old(run)@, event@),
    {
        match run.stage {
            Stage::CheckingExistence => match event {
                Event::PathChecked { exists } => {
                    if exists {
                        run.existed = true;
                        self.enter_opening(run)
                    } else {
                        run.stage = Stage::Creating;
                        self.scaffold_action(&run.project_name)
                    }
                },
                _ => Action::Nothing,
            },
            Stage::Creating => match event {
                Event::ToolFinished { outcome } => match outcome {
                    ToolOutcome::Exited { success, stdout, stderr } => {
                        if success {
                            run.stage = Stage::AddingDependencies;
                            self.dependency_action(&run.project_path)
                        } else {
                            end_run(run, ProvisionResult::CreateFailed { stderr })
                        }
                    },
                    ToolOutcome::SpawnFailed { message } => {
                        end_run(run, ProvisionResult::SpawnError { message })
                    },
                },
                _ => Action::Nothing,
            },
            Stage::AddingDependencies => match event {
                Event::ToolFinished { outcome } => {
                    let succeeded = match &outcome {
                        ToolOutcome::Exited { success, .. } => *success,
                        ToolOutcome::SpawnFailed { .. } => false,
                    };
                    if succeeded {
                        self.enter_opening(run)
                    } else {
                        end_run(run, ProvisionResult::DependencyAddFailed { outcome })
                    }
                },
                _ => Action::Nothing,
            },
            Stage::OpeningEditor => match event {
                Event::OpenFinished { error } => {
                    record_open_error(run, error);
                    self.enter_folder_or_finish(run)
                },
                _ => Action::Nothing,
            },
            Stage::OpeningFolder => match event {
                Event::OpenFinished { error } => {
                    record_open_error(run, error);
                    let result = result_when_ready(run);
                    end_run(run, result)
                },
                _ => Action::Nothing,
            },
            Stage::Finished => Action::Nothing,
        }
    }
}

} // verus!
