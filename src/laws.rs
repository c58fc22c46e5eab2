//! What holds of whole runs of provisioning, over any events a caller feeds
//! them.

use crate::provision::{
    dependency_call, project_path_of, scaffold_call, start_action, start_run, step, ActionView,
    EventView, ProvisionResultView, ProvisionRunView, ProvisionerView, Stage, ToolOutcomeView,
};
use crate::text::is_blank_name;
use vstd::prelude::*;

verus! {

/// The run for `name` once it has taken in `events`, in order.
pub open spec fn run_after(cfg: ProvisionerView, name: Seq<char>, events: Seq<EventView>) -> ProvisionRunView
    decreases events.len(),
{
    if events.len() == 0 {
        start_run(cfg, name)
    } else {
        step(cfg, run_after(cfg, name, events.drop_last()), events.last()).0
    }
}

/// The action that the run for `name` answers the event `events[k]` with.
pub open spec fn action_at(
    cfg: ProvisionerView,
    name: Seq<char>,
    events: Seq<EventView>,
    k: int,
) -> ActionView {
    step(cfg, run_after(cfg, name, events.take(k)), events[k]).1
}

/// A call of the scaffolding tool.
pub open spec fn is_scaffold_call(a: ActionView) -> bool {
    a matches ActionView::RunTool { subcommand, .. } && subcommand == "new"@
}

/// A call of the tool that adds dependencies.
pub open spec fn is_dependency_call(a: ActionView) -> bool {
    a matches ActionView::RunTool { subcommand, .. } && subcommand == "add"@
}

/// An action that touches nothing outside the library.
pub open spec fn is_inert(a: ActionView) -> bool {
    a is Nothing || a is Finish
}

/// How far along its stages a run is.
pub open spec fn stage_rank(s: Stage) -> int {
    match s {
        Stage::CheckingExistence => 0,
        Stage::Creating => 1,
        Stage::AddingDependencies => 2,
        Stage::OpeningEditor => 3,
        Stage::OpeningFolder => 4,
        Stage::Finished => 5,
    }
}

proof fn lemma_distinct_subcommands()
    ensures
        "new"@ != "add"@,
{
    reveal_strlit("new");
    reveal_strlit("add");
    assert("new"@[0] != "add"@[0]);
}

/// A step never moves a run back and keeps its name, its path and whether its
/// directory was there. It calls the scaffolding tool only from the existence
/// check and the dependency tool only from creation, no tool once opening has
/// begun, and a `Success` it ends with names the run's path.
proof fn lemma_step(cfg: ProvisionerView, run: ProvisionRunView, ev: EventView)
    ensures
        stage_rank(step(cfg, run, ev).0.stage) >= stage_rank(run.stage),
        step(cfg, run, ev).0.project_name == run.project_name,
        step(cfg, run, ev).0.project_path == run.project_path,
        run.existed ==> step(cfg, run, ev).0.existed,
        is_scaffold_call(step(cfg, run, ev).1) ==> run.stage == Stage::CheckingExistence,
        is_dependency_call(step(cfg, run, ev).1) ==> run.stage == Stage::Creating,
        run.stage == Stage::Finished ==> step(cfg, run, ev) == (run, ActionView::Nothing),
        run.existed && stage_rank(run.stage) >= 3 && step(cfg, run, ev).1 is Finish ==> step(cfg, run, ev).1->result is AlreadyExists,
        stage_rank(run.stage) >= 3 ==> !(step(cfg, run, ev).1 is RunTool),
        step(cfg, run, ev).1 matches ActionView::Finish {
            result: ProvisionResultView::Success { project_path, .. },
        } ==> project_path == run.project_path,
{
    lemma_distinct_subcommands();
}

/// What [`lemma_step`] says of one step, over every stretch of a run.
proof fn lemma_run(cfg: ProvisionerView, name: Seq<char>, events: Seq<EventView>, j: int, k: int)
    requires
        0 <= j <= k <= events.len(),
    ensures
        stage_rank(run_after(cfg, name, events.take(j)).stage) <= stage_rank(
            run_after(cfg, name, events.take(k)).stage,
        ),
        run_after(cfg, name, events.take(k)).project_name == name,
        run_after(cfg, name, events.take(k)).project_path == project_path_of(cfg, name),
        run_after(cfg, name, events.take(j)).existed ==> run_after(cfg, name, events.take(k)).existed,
        run_after(cfg, name, events.take(j)).stage == Stage::Finished ==> run_after(
            cfg,
            name,
            events.take(k),
        ).stage == Stage::Finished,
    decreases k,
{
    if k == 0 {
        assert(events.take(0) =~= Seq::<EventView>::empty());
    } else {
        lemma_run(cfg, name, events, if j == k { k - 1 } else { j }, k - 1);
        assert(events.take(k).drop_last() =~= events.take(k - 1));
        lemma_step(cfg, run_after(cfg, name, events.take(k - 1)), events[k - 1]);
    }
}

/// The run after `events.take(k + 1)` is the step of `events[k]`.
proof fn lemma_next(cfg: ProvisionerView, name: Seq<char>, events: Seq<EventView>, k: int)
    requires
        0 <= k < events.len(),
    ensures
        run_after(cfg, name, events.take(k + 1)) == step(
            cfg,
            run_after(cfg, name, events.take(k)),
            events[k],
        ).0,
{
    assert(events.take(k + 1).drop_last() =~= events.take(k));
}

/// A blank name ends the run at once with `EmptyName`, and whatever events
/// follow, the run asks for nothing more: no collaborator is ever called.
pub proof fn lemma_blank_name_does_nothing(
    cfg: ProvisionerView,
    name: Seq<char>,
    events: Seq<EventView>,
)
    requires
        is_blank_name(name),
    ensures
        start_action(cfg, name) == (ActionView::Finish { result: ProvisionResultView::EmptyName }),
        forall|k: int| 0 <= k < events.len() ==> #[trigger] action_at(cfg, name, events, k) == ActionView::Nothing,
{
    assert forall|k: int| 0 <= k < events.len() implies #[trigger] action_at(cfg, name, events, k)
        == ActionView::Nothing by {
        lemma_run(cfg, name, events, 0, k);
        assert(events.take(0) =~= Seq::<EventView>::empty());
        lemma_step(cfg, run_after(cfg, name, events.take(k)), events[k]);
    }
}

/// For a name that is not blank and a directory that is not there yet, the
/// run first checks the project's path; once told it is absent it runs the
/// scaffolding tool with the name in the parent directory; once that exits
/// with success it runs the dependency tool in the project's directory. Each
/// tool is called at that one point of the run and at no other, whatever
/// events follow.
pub proof fn lemma_create_then_add(cfg: ProvisionerView, name: Seq<char>, events: Seq<EventView>)
    requires
        !is_blank_name(name),
        events.len() >= 2,
        events[0] == (EventView::PathChecked { exists: false }),
        events[1] matches EventView::ToolFinished {
            outcome: ToolOutcomeView::Exited { success: true, .. },
        },
    ensures
        start_action(cfg, name) == (ActionView::CheckExists { path: project_path_of(cfg, name) }),
        action_at(cfg, name, events, 0) == scaffold_call(cfg, name),
        action_at(cfg, name, events, 1) == dependency_call(cfg, project_path_of(cfg, name)),
        forall|k: int|
            0 <= k < events.len() && is_scaffold_call(#[trigger] action_at(cfg, name, events, k))
                ==> k == 0,
        forall|k: int|
            0 <= k < events.len() && is_dependency_call(#[trigger] action_at(cfg, name, events, k))
                ==> k == 1,
{
    assert(events.take(0) =~= Seq::<EventView>::empty());
    lemma_next(cfg, name, events, 0);
    lemma_run(cfg, name, events, 1, 1);
    assert forall|k: int|
        0 <= k < events.len() && is_scaffold_call(#[trigger] action_at(cfg, name, events, k))
            implies k == 0 by {
        if k > 0 {
            lemma_run(cfg, name, events, 1, k);
            lemma_step(cfg, run_after(cfg, name, events.take(k)), events[k]);
        }
    }
    lemma_next(cfg, name, events, 1);
    assert forall|k: int|
        0 <= k < events.len() && is_dependency_call(#[trigger] action_at(cfg, name, events, k))
            implies k == 1 by {
        lemma_run(cfg, name, events, 0, k);
        lemma_step(cfg, run_after(cfg, name, events.take(k)), events[k]);
        if k > 1 {
            lemma_run(cfg, name, events, 2, k);
        }
    }
}

/// When the scaffolding tool does not exit with success, the run ends there:
/// the dependency tool is never called, and a failing exit gives
/// `CreateFailed` with the tool's standard error.
pub proof fn lemma_create_failure_stops(
    cfg: ProvisionerView,
    name: Seq<char>,
    events: Seq<EventView>,
    outcome: ToolOutcomeView,
)
    requires
        !is_blank_name(name),
        events.len() >= 2,
        events[0] == (EventView::PathChecked { exists: false }),
        events[1] == (EventView::ToolFinished { outcome }),
        !(outcome matches ToolOutcomeView::Exited { success: true, .. }),
    ensures
        outcome matches ToolOutcomeView::Exited { stderr, .. } ==> action_at(cfg, name, events, 1)
            == (ActionView::Finish { result: ProvisionResultView::CreateFailed { stderr } }),
        forall|k: int|
            0 <= k < events.len() ==> !is_dependency_call(#[trigger] action_at(cfg, name, events, k)),
        forall|k: int| 1 < k < events.len() ==> #[trigger] action_at(cfg, name, events, k) == ActionView::Nothing,
{
    assert(events.take(0) =~= Seq::<EventView>::empty());
    lemma_next(cfg, name, events, 0);
    lemma_next(cfg, name, events, 1);
    lemma_distinct_subcommands();
    assert forall|k: int| 1 < k < events.len() implies #[trigger] action_at(cfg, name, events, k)
        == ActionView::Nothing by {
        lemma_run(cfg, name, events, 2, k);
        lemma_step(cfg, run_after(cfg, name, events.take(k)), events[k]);
    }
    assert forall|k: int|
        0 <= k < events.len() implies !is_dependency_call(#[trigger] action_at(cfg, name, events, k)) by {
        if k > 1 {
            assert(action_at(cfg, name, events, k) == ActionView::Nothing);
        }
    }
}

/// When the dependency tool fails after the project was created, the run
/// ends with `DependencyAddFailed` carrying the tool's outcome, and asks for
/// nothing after that: nothing removes the created project.
pub proof fn lemma_dependency_failure_keeps_project(
    cfg: ProvisionerView,
    name: Seq<char>,
    events: Seq<EventView>,
    outcome: ToolOutcomeView,
)
    requires
        !is_blank_name(name),
        events.len() >= 3,
        events[0] == (EventView::PathChecked { exists: false }),
        events[1] matches EventView::ToolFinished {
            outcome: ToolOutcomeView::Exited { success: true, .. },
        },
        events[2] == (EventView::ToolFinished { outcome }),
        !(outcome matches ToolOutcomeView::Exited { success: true, .. }),
    ensures
        action_at(cfg, name, events, 2) == (ActionView::Finish {
            result: ProvisionResultView::DependencyAddFailed { outcome },
        }),
        forall|k: int| 2 < k < events.len() ==> #[trigger] action_at(cfg, name, events, k) == ActionView::Nothing,
{
    assert(events.take(0) =~= Seq::<EventView>::empty());
    lemma_next(cfg, name, events, 0);
    lemma_next(cfg, name, events, 1);
    lemma_next(cfg, name, events, 2);
    assert forall|k: int| 2 < k < events.len() implies #[trigger] action_at(cfg, name, events, k)
        == ActionView::Nothing by {
        lemma_run(cfg, name, events, 3, k);
        lemma_step(cfg, run_after(cfg, name, events.take(k)), events[k]);
    }
}

/// Provisioning is idempotent at the level of the directory. Once a run for
/// a name has ended in `Success`, a second run for the same name checks the
/// very path the first one created; when that path is reported present, the
/// second run never calls the scaffolding tool, and if it ends, it ends with
/// `AlreadyExists`.
pub proof fn lemma_second_run_reopens(
    cfg: ProvisionerView,
    name: Seq<char>,
    first: Seq<EventView>,
    k: int,
    second: Seq<EventView>,
)
    requires
        !is_blank_name(name),
        0 <= k < first.len(),
        action_at(cfg, name, first, k) matches ActionView::Finish {
            result: ProvisionResultView::Success { .. },
        },
        second.len() >= 1,
        second[0] == (EventView::PathChecked { exists: true }),
    ensures
        action_at(cfg, name, first, k) matches ActionView::Finish {
            result: ProvisionResultView::Success { project_path, .. },
        } && project_path == project_path_of(cfg, name),
        start_action(cfg, name) == (ActionView::CheckExists { path: project_path_of(cfg, name) }),
        forall|j: int|
            0 <= j < second.len() ==> !is_scaffold_call(#[trigger] action_at(cfg, name, second, j)),
        forall|j: int|
            0 <= j < second.len() && (#[trigger] action_at(cfg, name, second, j)) is Finish
                ==> action_at(cfg, name, second, j)->result is AlreadyExists,
{
    lemma_run(cfg, name, first, k, k);
    lemma_step(cfg, run_after(cfg, name, first.take(k)), first[k]);
    assert(second.take(0) =~= Seq::<EventView>::empty());
    lemma_next(cfg, name, second, 0);
    lemma_distinct_subcommands();
    assert forall|j: int| 0 <= j < second.len() implies !is_scaffold_call(
        #[trigger] action_at(cfg, name, second, j),
    ) && (action_at(cfg, name, second, j) is Finish ==> action_at(cfg, name, second, j)->result is AlreadyExists) by {
        if j > 0 {
            lemma_run(cfg, name, second, 1, j);
            lemma_step(cfg, run_after(cfg, name, second.take(j)), second[j]);
        }
    }
}

} // verus!
