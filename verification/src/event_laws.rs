//! What each report from the background, and each return from an editor or a shell, does to the
//! screen.

use vstd::prelude::*;

use crate::compose::FailureModel;
use crate::config::ConfigModel;
use crate::docker_api::StatusModel;
use crate::key_laws;
use crate::native;
use crate::output::LineModel;
use crate::project::ProjectModel;
use crate::text;
use crate::tui::{
    self, AppModel, EditorModel, EventModel, Focus, InputMode, ShellModel, OUTPUT_LIMIT,
};

verus! {

/// Whether the screen after something is the screen before it with one line of output more, which is
/// the last and in view: beyond 2000 lines the oldest goes.
pub open spec fn shows_line(
    before: AppModel,
    after: AppModel,
    line: Seq<char>,
    stderr: bool,
) -> bool {
    &&& before.output.len() < 2000 ==> after.output == before.output.push(
        LineModel { text: line, stderr },
    )
    &&& before.output.len() == 2000 ==> after.output == before.output.drop_first().push(
        LineModel { text: line, stderr },
    )
    &&& before.output.len() <= 2000 ==> after.output_scroll == after.output.len() - 1
}

/// The screen begins empty, on the list of projects, with nothing marked, asked or running.
pub proof fn screen_begins_empty(config: ConfigModel)
    ensures
        ({
            let app = AppModel::start(config);
            &&& app.config == config
            &&& app.statuses.len() == 0
            &&& app.selected_index == 0
            &&& app.marked == Set::<Seq<char>>::empty()
            &&& app.focus == Focus::Projects
            &&& app.input_mode == InputMode::Normal
            &&& app.filter.len() == 0
            &&& app.output.len() == 0
            &&& app.output_scroll == 0
            &&& app.details_scroll == 0
            &&& !app.refresh_inflight
            &&& !app.command_running
            &&& app.status_message == "Loading project status..."@
            &&& app.last_command is None
            &&& !app.show_help
            &&& app.help_scroll == 0
            &&& app.pending_action is None
            &&& app.shell_container_index == 0
            &&& app.new_project_name.len() == 0
            &&& app.new_project_error is None
        }),
        OUTPUT_LIMIT == 2000,
{
}

/// Loaded statuses take the place of those before them. The refresh is over, and the highlight stays
/// where it is as long as the list reaches that far, else it goes to the last project. Marks, filter
/// and output stay.
pub proof fn loaded_statuses_are_shown(app: AppModel, statuses: Seq<StatusModel>)
    ensures
        ({
            let after = app.on_event(EventModel::StatusesLoaded(statuses));
            let len = after.visible().len();
            &&& after.statuses == statuses
            &&& after.selected_index == (if len == 0 {
                0
            } else {
                key_laws::between(0, app.selected_index as int, len - 1)
            })
            &&& after == (AppModel {
                statuses,
                refresh_inflight: false,
                status_message: "Ready"@,
                selected_index: after.selected_index,
                ..app
            })
        }),
{
    let after = app.on_event(EventModel::StatusesLoaded(statuses));
    let loaded = AppModel {
        statuses,
        refresh_inflight: false,
        status_message: "Ready"@,
        ..app
    };
    key_laws::list_shows_names_with_the_filter(after);
    key_laws::list_shows_names_with_the_filter(loaded);
    let first = |name: Seq<char>|
        after.filter.len() == 0 || text::contains_text(name, after.filter);
    let second = |name: Seq<char>|
        loaded.filter.len() == 0 || text::contains_text(name, loaded.filter);
    assert(first =~= second);
}

/// A refresh that failed is over, its message is shown, and the statuses stay.
pub proof fn failed_refreshes_keep_statuses(app: AppModel, message: Seq<char>)
    ensures
        app.on_event(EventModel::StatusRefreshFailed(message)) == (AppModel {
            refresh_inflight: false,
            status_message: message,
            ..app
        }),
        app.refreshing() == (AppModel { refresh_inflight: true, ..app }),
{
}

/// A command that starts is the last command, counts as running, and is announced in the output with
/// its project; what it writes comes to the output as it is, with errors set off; its end comes to
/// the output too, set off where it failed.
pub proof fn commands_are_followed_in_the_output(
    app: AppModel,
    project: Seq<char>,
    command: Seq<char>,
    line: Seq<char>,
    stderr: bool,
    success: bool,
    code: i32,
)
    ensures
        ({
            let started = app.on_event(EventModel::CommandStarted { project, command });
            let wrote = app.on_event(EventModel::CommandOutput { line, stderr });
            let ended = app.on_event(
                EventModel::CommandFinished { project, success, exit_code: Some(code) },
            );
            let killed = app.on_event(
                EventModel::CommandFinished { project, success, exit_code: None },
            );
            let verdict = if success {
                "ok"@
            } else {
                "failed"@
            };
            &&& shows_line(app, started, "==> ["@ + project + "] "@ + command, false)
            &&& started == (AppModel {
                command_running: true,
                last_command: Some(command),
                output: started.output,
                output_scroll: started.output_scroll,
                ..app
            })
            &&& shows_line(app, wrote, line, stderr)
            &&& wrote == (AppModel {
                output: wrote.output,
                output_scroll: wrote.output_scroll,
                ..app
            })
            &&& shows_line(
                app,
                ended,
                "-- ["@ + project + "] "@ + verdict + " (exit "@ + text::signed_text(code as int)
                    + ")"@,
                !success,
            )
            &&& ended == (AppModel {
                output: ended.output,
                output_scroll: ended.output_scroll,
                ..app
            })
            &&& shows_line(
                app,
                killed,
                "-- ["@ + project + "] "@ + verdict + " (exit "@ + "signal"@ + ")"@,
                !success,
            )
            &&& killed == (AppModel {
                output: killed.output,
                output_scroll: killed.output_scroll,
                ..app
            })
        }),
{
}

/// The end of a batch lets the next one start. It is reported as completed if and only if it failed
/// for no project; otherwise the message names every project that it failed for, with the reason.
pub proof fn batches_end_with_a_message(
    app: AppModel,
    failures: Seq<FailureModel>,
    next: FailureModel,
)
    ensures
        ({
            let after = app.on_event(EventModel::BatchFinished(failures));
            let more = app.on_event(EventModel::BatchFinished(failures.push(next)));
            let shown = next.project + ": "@ + next.message;
            &&& after == (AppModel {
                command_running: false,
                status_message: after.status_message,
                ..app
            })
            &&& failures.len() == 0 ==> after.status_message == "Command batch completed"@
                && more.status_message == shown
            &&& failures.len() > 0 ==> more.status_message == after.status_message + " | "@ + shown
        }),
{
    let of = |failure: FailureModel| failure.project + ": "@ + failure.message;
    let parts = failures.map_values(of);
    assert(failures.push(next).map_values(of) =~= parts.push(of(next)));
    assert(parts.push(of(next)).drop_last() =~= parts);
}

/// A file to edit that could not be prepared is complained of, and nothing else changes.
pub proof fn unprepared_files_are_complained_of(
    app: AppModel,
    target_label: Seq<char>,
    message: Seq<char>,
)
    ensures
        ({
            let after = app.edit_unprepared(target_label, message);
            &&& after == (AppModel {
                status_message: message,
                output: after.output,
                output_scroll: after.output_scroll,
                ..app
            })
            &&& shows_line(
                app,
                after,
                "Failed to prepare "@ + target_label + ": "@ + message,
                true,
            )
        }),
{
}

/// An editor that was closed is noted with what it edited and where, as the creation of the project
/// where it was opened on a new one; one that failed is noted with the reason. A refresh is due.
pub proof fn editors_are_noted_when_closed(
    app: AppModel,
    launch: EditorModel,
    error: Seq<char>,
)
    ensures
        ({
            let good = app.edited(launch, Ok(()));
            let bad = app.edited(launch, Err(error));
            let path = native::shown_text(launch.path);
            let done = match launch.created_project {
                Some(name) => "Created project "@ + name,
                None => "Edited "@ + launch.target_label,
            };
            let failed = "Editor failed for "@ + launch.target_label + ": "@ + error;
            &&& good == (AppModel {
                refresh_inflight: false,
                status_message: done,
                output: good.output,
                output_scroll: good.output_scroll,
                ..app
            })
            &&& shows_line(app, good, done + " at "@ + path, false)
            &&& bad == (AppModel {
                refresh_inflight: false,
                status_message: match launch.created_project {
                    Some(name) => "Project "@ + name + " created, editor failed: "@ + error,
                    None => failed,
                },
                output: bad.output,
                output_scroll: bad.output_scroll,
                ..app
            })
            &&& shows_line(app, bad, failed, true)
        }),
{
}

/// A shell that was left is noted with its container and its project; one that failed with the reason
/// too. A refresh is due.
pub proof fn shells_are_noted_when_left(app: AppModel, launch: ShellModel, error: Seq<char>)
    ensures
        ({
            let good = app.shell_left(launch, Ok(()));
            let bad = app.shell_left(launch, Err(error));
            let name = launch.container_name;
            &&& good == (AppModel {
                refresh_inflight: false,
                status_message: "Shell exited for "@ + name,
                output: good.output,
                output_scroll: good.output_scroll,
                ..app
            })
            &&& shows_line(
                app,
                good,
                "Shell exited for "@ + name + " in "@ + launch.project_name,
                false,
            )
            &&& bad == (AppModel {
                refresh_inflight: false,
                status_message: "Shell failed for "@ + name + ": "@ + error,
                output: bad.output,
                output_scroll: bad.output_scroll,
                ..app
            })
            &&& shows_line(
                app,
                bad,
                "Shell failed for "@ + name + " in "@ + launch.project_name + ": "@ + error,
                true,
            )
        }),
{
}

/// A project that has been created is opened in the editor, on its compose file, and its name is
/// asked for no more; one that could not be created is complained of, and its name stays.
pub proof fn created_projects_are_edited(
    app: AppModel,
    editor: Seq<char>,
    project: ProjectModel,
    message: Seq<char>,
)
    ensures
        app.project_created(editor, Err(message)) == (
            AppModel { new_project_error: Some(message), status_message: message, ..app },
            None::<EditorModel>,
        ),
        ({
            let (after, launch) = app.project_created(editor, Ok(project));
            &&& after == (AppModel {
                input_mode: InputMode::Normal,
                new_project_name: seq![],
                new_project_error: None,
                status_message: "Opening editor for "@ + project.name,
                ..app
            })
            &&& launch matches Some(launch) && {
                &&& launch.editor == editor
                &&& launch.target_label == project.name
                &&& launch.path == project.compose_file
                &&& !launch.create_missing
                &&& launch.created_project == Some(project.name)
            }
        }),
{
}

/// A scroll position moves by what it is told, and stops at the first and at the last position that
/// there is. Focus goes from the projects to the details, to the output, and back.
pub proof fn scrolling_stops_at_the_ends(current: u16, delta: int)
    ensures
        tui::scroll_moved(current, delta) == key_laws::between(
            0,
            current + delta,
            u16::MAX as int,
        ),
        tui::focus_after(Focus::Projects) == Focus::Details,
        tui::focus_after(Focus::Details) == Focus::Output,
        tui::focus_after(Focus::Output) == Focus::Projects,
{
}

} // verus!
