//! What holds of batches and of running commands, step by step, whatever comes of the commands.

use vstd::prelude::*;
use vstd::utf8::*;

use crate::batch::{
    self, BatchModel, CommandEventModel, CommandWatch, DeleteModel, DeleteStage, DeleteStepModel,
    OutcomeModel, StepModel,
};
use crate::compose::{self, Action, CommandModel, FailureModel, RemoveOptions};
use crate::compose_laws;
use crate::config::ConfigModel;
use crate::native;
use crate::output;
use crate::project::ProjectModel;
use crate::text;

verus! {

/// A command has failed if and only if it did not end with success; the failure gives its exit code,
/// or the reason why it could not be run. What is reported of its end is how it ended.
pub proof fn commands_fail_unless_they_succeed(outcome: OutcomeModel)
    ensures
        outcome.failure() is None <==> (outcome matches OutcomeModel::Exited(exit) && exit.success),
        outcome matches OutcomeModel::Exited(exit) ==> {
            &&& outcome.reported() == exit
            &&& !exit.success ==> (exit.exit_code matches Some(code) ==> outcome.failure() == Some(
                "command exited with "@ + text::signed_text(code as int),
            ))
            &&& !exit.success && exit.exit_code is None ==> outcome.failure() == Some(
                "command exited with "@ + "signal"@,
            )
        },
        outcome matches OutcomeModel::Broken(message) ==> {
            &&& outcome.failure() == Some(message)
            &&& !outcome.reported().success
            &&& outcome.reported().exit_code is None
        },
{
}

/// A batch begins with all its projects to come, in their order, and nothing failed.
pub proof fn batches_begin_with_all_projects(
    projects: Seq<ProjectModel>,
    config: ConfigModel,
    action: Action,
    purge: bool,
)
    ensures
        BatchModel::start(projects, config, action).waiting == projects,
        BatchModel::start(projects, config, action).current is None,
        BatchModel::start(projects, config, action).failures.len() == 0,
        BatchModel::start(projects, config, action).config == config,
        BatchModel::start(projects, config, action).action == action,
        DeleteModel::start(projects, config, purge).waiting == projects,
        DeleteModel::start(projects, config, purge).current is None,
        DeleteModel::start(projects, config, purge).failures.len() == 0,
        DeleteModel::start(projects, config, purge).config == config,
        DeleteModel::start(projects, config, purge).purge == purge,
{
}

/// A batch goes on with the project at hand while that has commands left, and hands out the first of
/// them; else it goes on with the first project to come, and hands out the first of its commands; it
/// is through when there is neither. What it hands out it has no more, and nothing else changes.
pub proof fn batches_hand_out_commands_in_turn(batch: BatchModel, global_env: bool)
    ensures
        ({
            let step = batch.next_step(global_env);
            let next = batch.advanced(global_env);
            let busy = batch.current is Some && batch.current->0.pending.len() > 0;
            let first = batch.waiting[0];
            let commands = compose::action_commands(batch.action, batch.config, first, global_env);
            &&& step is None <==> !busy && batch.waiting.len() == 0
            &&& step is None ==> next == batch
            &&& busy ==> {
                &&& step->0.project == batch.current->0.project
                &&& step->0.command == batch.current->0.pending[0]
                &&& next.current is Some
                &&& next.current->0.project == batch.current->0.project
                &&& next.current->0.pending == batch.current->0.pending.drop_first()
                &&& next.waiting == batch.waiting
            }
            &&& !busy && batch.waiting.len() > 0 ==> {
                &&& step->0.project == first
                &&& step->0.command == commands[0]
                &&& next.current is Some
                &&& next.current->0.project == first
                &&& next.current->0.pending == commands.drop_first()
                &&& next.waiting == batch.waiting.drop_first()
            }
            &&& next.failures == batch.failures
            &&& next.action == batch.action
            &&& next.config == batch.config
        }),
{
}

/// A command that succeeded changes nothing in what is to come. One that failed is noted once, under
/// the name of its project and with the reason, and ends that project alone: its other commands are
/// dropped, and all projects to come stay.
pub proof fn failures_end_their_project_alone(batch: BatchModel, outcome: OutcomeModel)
    requires
        batch.current is Some,
    ensures
        ({
            let next = batch.settled(outcome);
            let good = outcome matches OutcomeModel::Exited(exit) && exit.success;
            &&& good ==> next == batch
            &&& !good ==> {
                &&& next.current is None
                &&& next.failures.len() == batch.failures.len() + 1
                &&& next.failures.drop_last() == batch.failures
                &&& next.failures.last().project == batch.current->0.project.name
                &&& Some(next.failures.last().message) == outcome.failure()
                &&& next.waiting == batch.waiting
                &&& next.action == batch.action
                &&& next.config == batch.config
            }
        }),
{
    let next = batch.settled(outcome);
    if outcome.failure() is Some {
        assert(next.failures.drop_last() =~= batch.failures);
    }
}

/// A batch in which every command succeeds runs every command of every project, project by project,
/// and reports no failure.
pub proof fn good_batches_run_everything(
    projects: Seq<ProjectModel>,
    config: ConfigModel,
    action: Action,
    outcomes: spec_fn(int, int) -> OutcomeModel,
    global_env: spec_fn(int) -> bool,
)
    requires
        forall|project: int, command: int|
            (#[trigger] outcomes(project, command)) matches OutcomeModel::Exited(exit)
                && exit.success,
    ensures
        batch::run_to_end(
            BatchModel::start(projects, config, action),
            outcomes,
            global_env,
            0,
            0,
        ).failures.len() == 0,
        batch::steps_to_end(
            BatchModel::start(projects, config, action),
            outcomes,
            global_env,
            0,
            0,
        ) == all_steps(projects, config, action, global_env, projects.len() as int),
{
    batch::batch_reports_first_failures(projects, config, action, outcomes, global_env);
    batch::batch_runs_in_sequence(projects, config, action, outcomes, global_env);
    nothing_failed(projects, action, outcomes, projects.len() as int);
    good_steps(projects, config, action, outcomes, global_env, 0);
    let none: Seq<StepModel> = seq![];
    assert(none + batch::steps_from(projects, config, action, outcomes, global_env, 0)
        =~= batch::steps_from(projects, config, action, outcomes, global_env, 0));
}

/// All commands of the first `count` projects, each with its project.
pub open spec fn all_steps(
    projects: Seq<ProjectModel>,
    config: ConfigModel,
    action: Action,
    global_env: spec_fn(int) -> bool,
    count: int,
) -> Seq<StepModel>
    decreases count,
{
    if count <= 0 {
        seq![]
    } else {
        all_steps(projects, config, action, global_env, count - 1) + compose::action_commands(
            action,
            config,
            projects[count - 1],
            global_env(count - 1),
        ).map_values(
            |command: CommandModel| StepModel { project: projects[count - 1], command },
        )
    }
}

proof fn nothing_failed(
    projects: Seq<ProjectModel>,
    action: Action,
    outcomes: spec_fn(int, int) -> OutcomeModel,
    count: int,
)
    requires
        forall|project: int, command: int|
            (#[trigger] outcomes(project, command)) matches OutcomeModel::Exited(exit)
                && exit.success,
    ensures
        batch::first_failures(projects, action, outcomes, count).len() == 0,
    decreases count,
{
    if count > 0 {
        nothing_failed(projects, action, outcomes, count - 1);
        let all = batch::project_outcomes(action, outcomes, count - 1);
        assert forall|i: int| 0 <= i < all.len() implies (#[trigger] all[i]).failure() is None by {
            assert(all[i] == outcomes(count - 1, i));
        }
        good_outcomes(all);
    }
}

proof fn good_outcomes(outcomes: Seq<OutcomeModel>)
    requires
        forall|i: int| 0 <= i < outcomes.len() ==> (#[trigger] outcomes[i]).failure() is None,
    ensures
        batch::first_failure(outcomes) is None,
        batch::commands_run(outcomes) == outcomes.len(),
    decreases outcomes.len(),
{
    if outcomes.len() > 0 {
        let rest = outcomes.drop_first();
        assert(outcomes[0].failure() is None);
        assert forall|i: int| 0 <= i < rest.len() implies (#[trigger] rest[i]).failure() is None by {
            assert(rest[i] == outcomes[i + 1]);
        }
        good_outcomes(rest);
    }
}

proof fn good_steps(
    projects: Seq<ProjectModel>,
    config: ConfigModel,
    action: Action,
    outcomes: spec_fn(int, int) -> OutcomeModel,
    global_env: spec_fn(int) -> bool,
    from: int,
)
    requires
        0 <= from <= projects.len(),
        forall|project: int, command: int|
            (#[trigger] outcomes(project, command)) matches OutcomeModel::Exited(exit)
                && exit.success,
    ensures
        all_steps(projects, config, action, global_env, from) + batch::steps_from(
            projects,
            config,
            action,
            outcomes,
            global_env,
            from,
        ) == all_steps(projects, config, action, global_env, projects.len() as int),
    decreases projects.len() - from,
{
    let done = all_steps(projects, config, action, global_env, from);
    if from < projects.len() {
        let all = batch::project_outcomes(action, outcomes, from);
        assert forall|i: int| 0 <= i < all.len() implies (#[trigger] all[i]).failure() is None by {
            assert(all[i] == outcomes(from, i));
        }
        good_outcomes(all);
        let commands = compose::action_commands(action, config, projects[from], global_env(from));
        assert(commands.take(commands.len() as int) =~= commands);
        let steps = commands.map_values(
            |command: CommandModel| StepModel { project: projects[from], command },
        );
        let rest = batch::steps_from(projects, config, action, outcomes, global_env, from + 1);
        assert(batch::steps_of(projects[from], commands) =~= steps);
        assert(batch::steps_from(projects, config, action, outcomes, global_env, from) =~= steps
            + rest);
        assert(done + (steps + rest) =~= (done + steps) + rest);
        good_steps(projects, config, action, outcomes, global_env, from + 1);
    } else {
        assert(done + batch::steps_from(projects, config, action, outcomes, global_env, from)
            =~= done);
    }
}

/// What a batch that deletes asks for: where it purges, of each project the removal of its containers
/// and volumes, and once that has gone well the deletion of its directory; else the deletion alone.
/// It goes on with the first project to come, and is through when there is none.
pub proof fn deletions_are_asked_for_in_turn(batch: DeleteModel, global_env: bool)
    ensures
        ({
            let step = batch.next_step(global_env);
            let next = batch.advanced();
            let gone = batch.current matches Some((_, DeleteStage::Removed));
            let first = batch.waiting[0];
            let removal = compose::action_commands(
                Action::Remove(RemoveOptions { volumes: true, remove_orphans: false, rmi: None }),
                batch.config,
                first,
                global_env,
            );
            &&& step is None <==> !gone && batch.waiting.len() == 0
            &&& step is None ==> next == batch
            &&& gone ==> {
                let (project, _) = batch.current->0;
                &&& step == Some(
                    DeleteStepModel::Delete {
                        project,
                        command: "delete project dir "@ + native::shown_text(project.dir),
                    },
                )
                &&& next.current == Some((project, DeleteStage::Deleting))
                &&& next.waiting == batch.waiting
            }
            &&& !gone && batch.waiting.len() > 0 && batch.purge ==> {
                &&& step == Some(
                    DeleteStepModel::Run(StepModel { project: first, command: removal[0] }),
                )
                &&& next.current == Some((first, DeleteStage::Removing))
                &&& next.waiting == batch.waiting.drop_first()
            }
            &&& !gone && batch.waiting.len() > 0 && !batch.purge ==> {
                &&& step == Some(
                    DeleteStepModel::Delete {
                        project: first,
                        command: "delete project dir "@ + native::shown_text(first.dir),
                    },
                )
                &&& next.current == Some((first, DeleteStage::Deleting))
                &&& next.waiting == batch.waiting.drop_first()
            }
            &&& next.failures == batch.failures
            &&& next.purge == batch.purge
            &&& next.config == batch.config
        }),
{
}

/// A purge takes the volumes of a project away with its containers, and nothing more: it runs
/// `down -v`.
pub proof fn purges_remove_volumes(batch: DeleteModel, global_env: bool)
    requires
        batch.purge,
        batch.waiting.len() > 0,
        !(batch.current matches Some((_, DeleteStage::Removed))),
    ensures
        batch.next_step(global_env) matches Some(DeleteStepModel::Run(step)) && step.project
            == batch.waiting[0] && step.command.args.skip(
            compose_laws::args_before_name(global_env, batch.waiting[0]) + 4,
        ) == seq![encode_utf8("down"@), encode_utf8("-v"@)],
{
    let options = RemoveOptions { volumes: true, remove_orphans: false, rmi: None };
    let first = batch.waiting[0];
    let commands = compose::action_commands(
        Action::Remove(options),
        batch.config,
        first,
        global_env,
    );
    let words = commands[0].args.skip(compose_laws::args_before_name(global_env, first) + 4);
    assert(words =~= seq![encode_utf8("down"@), encode_utf8("-v"@)]);
}

/// A removal that went well leaves the directory of its project to be deleted. One that failed, and a
/// deletion that failed, is noted once under the name of its project and ends that project alone. A
/// deletion that went well ends its project without a failure.
pub proof fn failed_deletions_end_their_project_alone(
    batch: DeleteModel,
    outcome: OutcomeModel,
    result: Result<(), Seq<char>>,
)
    requires
        batch.current is Some,
    ensures
        ({
            let (project, _) = batch.current->0;
            let removed = batch.removal_settled(outcome);
            let deleted = batch.deletion_settled(result);
            let good = outcome matches OutcomeModel::Exited(exit) && exit.success;
            &&& good ==> removed.current == Some((project, DeleteStage::Removed)) && removed.failures
                == batch.failures
            &&& !good ==> removed.current is None && removed.failures == batch.failures.push(
                FailureModel { project: project.name, message: outcome.failure()->0 },
            )
            &&& deleted.current is None
            &&& result is Ok ==> deleted.failures == batch.failures
            &&& result matches Err(message) ==> deleted.failures == batch.failures.push(
                FailureModel { project: project.name, message },
            )
            &&& removed.waiting == batch.waiting
            &&& deleted.waiting == batch.waiting
            &&& removed.purge == batch.purge
            &&& deleted.purge == batch.purge
            &&& removed.config == batch.config
            &&& deleted.config == batch.config
        }),
{
}

/// An event of a running command is taken for what it is: a line changes nothing, the end of the
/// output and the end of the command are noted each by itself, and only both together end the watch.
pub proof fn watches_note_each_end(watch: CommandWatch, event: CommandEventModel)
    ensures
        event is Output ==> watch.after(event) == watch,
        event is OutputEnded ==> watch.after(event).output_over && watch.after(event).exit
            == watch.exit,
        event matches CommandEventModel::Exited(code) ==> watch.after(event).exit == Some(code)
            && watch.after(event).output_over == watch.output_over,
        watch.over() <==> watch.exit is Some && watch.output_over,
        !CommandWatch::start().output_over,
        CommandWatch::start().exit is None,
{
}

/// A command is announced with its project and its whole line; its end is reported with its project,
/// whether it went well, and the exit code, or that a signal ended it.
pub proof fn reports_name_project_and_outcome(
    project: Seq<char>,
    command: Seq<char>,
    code: i32,
)
    ensures
        output::started_line(project, command) == "==> ["@ + project + "] "@ + command,
        output::finished_line(project, true, Some(code)) == "-- ["@ + project + "] "@ + "ok"@
            + " (exit "@ + text::signed_text(code as int) + ")"@,
        output::finished_line(project, false, Some(code)) == "-- ["@ + project + "] "@ + "failed"@
            + " (exit "@ + text::signed_text(code as int) + ")"@,
        output::finished_line(project, false, None) == "-- ["@ + project + "] "@ + "failed"@
            + " (exit "@ + "signal"@ + ")"@,
        output::finished_line(project, true, None) == "-- ["@ + project + "] "@ + "ok"@ + " (exit "@
            + "signal"@ + ")"@,
{
}

} // verus!
