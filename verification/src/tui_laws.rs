//! What holds of the screen, whatever is pressed and whatever is reported.

use vstd::prelude::*;

use crate::compose::{Action, LogsOptions};
use crate::config::ConfigModel;
use crate::docker_api::StatusModel;
use crate::help::HELP_LINE_COUNT;
use crate::names;
use crate::project::ProjectModel;
use crate::tui::{
    self, AppModel, EditorModel, EventModel, InputMode, KeyCode, KeyEvent, KeyOutcomeModel,
    OUTPUT_LIMIT, ShellModel, TuiAction,
};

verus! {

impl AppModel {
    /// The highlight is inside the list, or at its top where the list is empty; no more output is
    /// kept than the limit; the help is scrolled no further than its last line.
    pub open spec fn in_bounds(self) -> bool {
        &&& self.selected_index == 0 || self.selected_index < self.visible().len()
        &&& self.output.len() <= OUTPUT_LIMIT
        &&& self.help_scroll < HELP_LINE_COUNT
    }
}

proof fn same_list(a: AppModel, b: AppModel)
    requires
        a.statuses == b.statuses,
        a.filter == b.filter,
    ensures
        a.visible() == b.visible(),
{
    let names = a.statuses.map_values(|status: StatusModel| status.project.name);
    let first = |name: Seq<char>| a.lets_through(name);
    let second = |name: Seq<char>| b.lets_through(name);
    assert(first =~= second);
}

proof fn clamped_is_in_list(app: AppModel)
    ensures
        app.clamped().selected_index == 0 || app.clamped().selected_index
            < app.clamped().visible().len(),
{
    same_list(app, app.clamped());
}

/// The screen begins with everything in bounds.
pub proof fn start_is_in_bounds(config: ConfigModel)
    ensures
        AppModel::start(config).in_bounds(),
{
}

/// Every key keeps the highlight, the output and the help in bounds.
#[verifier::rlimit(30)]
pub proof fn keys_stay_in_bounds(app: AppModel, key: KeyEvent, editor: Option<Seq<char>>)
    requires
        app.in_bounds(),
    ensures
        app.on_key(key, editor).0.in_bounds(),
{
    let (after, _) = app.on_key(key, editor);
    if app.show_help || app.pending_action is Some || app.input_mode != InputMode::Filter {
        same_list(app, after);
    } else {
        match key.code {
            KeyCode::Backspace => {
                let edited = AppModel {
                    filter: if app.filter.len() > 0 {
                        app.filter.drop_last()
                    } else {
                        app.filter
                    },
                    ..app
                };
                clamped_is_in_list(edited);
            },
            KeyCode::Char(ch) => {
                if key.modifiers.control {
                    same_list(app, after);
                } else {
                    clamped_is_in_list(AppModel { filter: app.filter.push(ch), ..app });
                }
            },
            _ => {
                same_list(app, after);
            },
        }
    }
}

/// Every report keeps the highlight, the output and the help in bounds.
pub proof fn events_stay_in_bounds(app: AppModel, event: EventModel)
    requires
        app.in_bounds(),
    ensures
        app.on_event(event).in_bounds(),
{
    match event {
        EventModel::StatusesLoaded(statuses) => {
            let loaded = (AppModel { statuses, refresh_inflight: false, ..app }).with_message(
                "Ready"@,
            );
            clamped_is_in_list(loaded);
        },
        _ => {
            same_list(app, app.on_event(event));
        },
    }
}

/// What an editor, a shell or the creation of a project came to keeps everything in bounds.
pub proof fn visits_stay_in_bounds(
    app: AppModel,
    editor: EditorModel,
    shell: ShellModel,
    result: Result<(), Seq<char>>,
    created: Result<ProjectModel, Seq<char>>,
    message: Seq<char>,
)
    requires
        app.in_bounds(),
    ensures
        app.edited(editor, result).in_bounds(),
        app.shell_left(shell, result).in_bounds(),
        app.edit_unprepared(editor.target_label, message).in_bounds(),
        app.project_created(editor.editor, created).0.in_bounds(),
        app.refreshing().in_bounds(),
{
    same_list(app, app.edited(editor, result));
    same_list(app, app.shell_left(shell, result));
    same_list(app, app.edit_unprepared(editor.target_label, message));
    same_list(app, app.project_created(editor.editor, created).0);
    same_list(app, app.refreshing());
}

/// A line of output is always kept, as the last one, and what was kept before it moves up by at most
/// one line.
pub proof fn newest_output_is_kept(app: AppModel, text: Seq<char>, stderr: bool)
    ensures
        app.with_output(text, stderr).output.last().text == text,
        app.with_output(text, stderr).output.last().stderr == stderr,
        app.output.len() < OUTPUT_LIMIT ==> app.with_output(text, stderr).output.drop_last()
            == app.output,
        app.output.len() == OUTPUT_LIMIT ==> app.with_output(text, stderr).output.drop_last()
            == app.output.drop_first(),
        app.output.len() <= OUTPUT_LIMIT ==> app.with_output(text, stderr).output_scroll
            == app.with_output(text, stderr).output.len() - 1,
{
    let after = app.with_output(text, stderr);
    if app.output.len() < OUTPUT_LIMIT {
        assert(after.output.drop_last() =~= app.output);
    }
    if app.output.len() == OUTPUT_LIMIT {
        assert(after.output.drop_last() =~= app.output.drop_first());
    }
}

/// Nothing is changed unasked: a key starts an action only when it confirms that action, and then on
/// the selected projects. The one exception shows logs, which changes nothing.
pub proof fn actions_are_confirmed(app: AppModel, key: KeyEvent, editor: Option<Seq<char>>)
    ensures
        ({
            let outcome = app.on_key(key, editor).1;
            let confirmed = app.pending_action is Some && (key.code == KeyCode::Enter || key.code
                == KeyCode::Char('y'));
            &&& outcome matches KeyOutcomeModel::RunAction { projects, action } ==> {
                &&& projects == app.selected_projects()
                &&& projects.len() > 0
                &&& (confirmed && app.pending_action->0.action == TuiAction::Compose(action)) || (
                app.pending_action is None && key.code == KeyCode::Char('l') && action
                    == Action::Logs(
                    LogsOptions { follow: false, tail: app.config.default_log_lines },
                ))
            }
            &&& outcome matches KeyOutcomeModel::DeleteProjects { projects, purge } ==> {
                &&& projects == app.selected_projects()
                &&& projects.len() > 0
                &&& confirmed
                &&& app.pending_action->0.action == (if purge {
                    TuiAction::PurgeProject
                } else {
                    TuiAction::DeleteProjectFiles
                })
            }
        }),
{
    if app.pending_action is Some {
        let answered = AppModel { pending_action: None, ..app };
        same_selection(app, answered);
    }
}

proof fn same_selection(a: AppModel, b: AppModel)
    requires
        a.statuses == b.statuses,
        a.filter == b.filter,
        a.selected_index == b.selected_index,
    ensures
        a.selected() == b.selected(),
        a.shell_containers() == b.shell_containers(),
        a.marked == b.marked ==> a.selected_projects() == b.selected_projects(),
{
    same_list(a, b);
    if a.marked == b.marked {
        let first = |status: StatusModel| a.marked.contains(status.project.name);
        let second = |status: StatusModel| b.marked.contains(status.project.name);
        assert(first =~= second);
    }
}

/// A question that is declined starts nothing and is gone; any other key leaves it open.
pub proof fn questions_can_be_declined(app: AppModel, key: KeyEvent, editor: Option<Seq<char>>)
    requires
        !app.show_help,
        app.pending_action is Some,
        key.code != KeyCode::Enter,
        key.code != KeyCode::Char('y'),
    ensures
        app.on_key(key, editor).1 is Continue,
        key.code == KeyCode::Esc || key.code == KeyCode::Char('n') || key.code == KeyCode::Char('q')
            ==> app.on_key(key, editor).0 == (AppModel {
            pending_action: None,
            status_message: app.pending_action->0.label + " cancelled"@,
            ..app
        }),
        key.code != KeyCode::Esc && key.code != KeyCode::Char('n') && key.code != KeyCode::Char('q')
            ==> app.on_key(key, editor).0 == app,
{
}

/// While commands run no key on the list of projects starts anything else: no action, no question,
/// no editor, no shell and no new project.
pub proof fn commands_run_undisturbed(app: AppModel, key: KeyEvent, editor: Option<Seq<char>>)
    requires
        app.command_running,
        !app.show_help,
        app.pending_action is None,
        app.input_mode == InputMode::Normal,
    ensures
        app.on_key(key, editor).1 is Continue || app.on_key(key, editor).1 is Quit,
        app.on_key(key, editor).0.pending_action is None,
        app.on_key(key, editor).0.command_running,
        app.on_key(key, editor).0.input_mode == InputMode::Normal || app.on_key(
            key,
            editor,
        ).0.input_mode == InputMode::Filter,
{
}

/// The edit and shell shortcuts go by the highlighted project alone: what is marked makes no
/// difference to what they open.
pub proof fn edits_and_shells_ignore_marks(
    app: AppModel,
    marked: Set<Seq<char>>,
    editor: Option<Seq<char>>,
)
    ensures
        ({
            let other = AppModel { marked, ..app };
            &&& other.editing_compose(editor).1 == app.editing_compose(editor).1
            &&& other.editing_env(editor).1 == app.editing_env(editor).1
            &&& other.editing_global_env(editor).1 == app.editing_global_env(editor).1
            &&& other.choosing_container() == (AppModel { marked, ..app.choosing_container() })
            &&& other.chosen_shell().1 == app.chosen_shell().1
        }),
{
    same_selection(app, AppModel { marked, ..app });
}

/// The global env file can be edited whatever projects there are.
pub proof fn global_env_needs_no_project(
    app: AppModel,
    statuses: Seq<StatusModel>,
    editor: Option<Seq<char>>,
)
    ensures
        (AppModel { statuses, ..app }).editing_global_env(editor).1 == app.editing_global_env(
            editor,
        ).1,
        app.editing_global_env(editor).1 is Some <==> editor is Some,
{
}

/// Where several projects are marked, actions run on the marked ones, in the order of the list;
/// otherwise on the highlighted one alone.
pub proof fn actions_follow_marks(app: AppModel)
    ensures
        app.marked.len() < 2 && app.selected() is Some
            ==> app.selected_projects() == seq![app.selected()->0.project],
        app.marked.len() < 2 && app.selected() is None
            ==> app.selected_projects().len() == 0,
        app.marked.len() >= 2 ==> {
            &&& app.selected_projects() == app.statuses.filter(
                |status: StatusModel| app.marked.contains(status.project.name),
            ).map_values(|status: StatusModel| status.project)
            &&& forall|i: int|
                0 <= i < app.selected_projects().len() ==> app.marked.contains(
                    (#[trigger] app.selected_projects()[i]).name,
                )
            &&& forall|i: int|
                0 <= i < app.statuses.len() && app.marked.contains(
                    (#[trigger] app.statuses[i]).project.name,
                ) ==> app.selected_projects().contains(app.statuses[i].project)
        },
{
    if app.marked.len() >= 2 {
        let pred = |status: StatusModel| app.marked.contains(status.project.name);
        let of = |status: StatusModel| status.project;
        let kept = app.statuses.filter(pred);
        assert forall|i: int|
            0 <= i < app.selected_projects().len() implies app.marked.contains(
            (#[trigger] app.selected_projects()[i]).name,
        ) by {
            app.statuses.lemma_filter_pred(pred, i);
        }
        assert forall|i: int|
            0 <= i < app.statuses.len() && app.marked.contains(
                (#[trigger] app.statuses[i]).project.name,
            ) implies app.selected_projects().contains(app.statuses[i].project) by {
            app.statuses.lemma_filter_contains(pred, i);
            let j = choose|j: int| 0 <= j < kept.len() && kept[j] == app.statuses[i];
            assert(app.selected_projects()[j] == app.statuses[i].project);
        }
    }
}

/// Without a filter the list holds every project, in order.
pub proof fn no_filter_shows_all(app: AppModel)
    requires
        app.filter.len() == 0,
    ensures
        app.visible() == app.statuses.map_values(|status: StatusModel| status.project.name),
{
    names::all_match(
        app.statuses.map_values(|status: StatusModel| status.project.name),
        |name: Seq<char>| app.lets_through(name),
    );
}

/// Marking a project twice leaves the marks as they were.
pub proof fn marking_twice_restores(app: AppModel)
    ensures
        app.mark_toggled().mark_toggled() == app,
{
    let once = app.mark_toggled();
    same_list(app, once);
    if app.selected_index < app.visible().len() {
        let name = app.visible()[app.selected_index as int];
        assert(tui::toggled(tui::toggled(app.marked, name), name) =~= app.marked);
    }
}

spec fn times_odd(names: Seq<Seq<char>>, name: Seq<char>) -> bool
    decreases names.len(),
{
    if names.len() == 0 {
        false
    } else {
        times_odd(names.drop_last(), name) != (names.last() == name)
    }
}

proof fn toggled_each_contains(marked: Set<Seq<char>>, names: Seq<Seq<char>>, name: Seq<char>)
    ensures
        tui::toggled_each(marked, names).contains(name) == (marked.contains(name) != times_odd(
            names,
            name,
        )),
    decreases names.len(),
{
    if names.len() > 0 {
        toggled_each_contains(marked, names.drop_last(), name);
    }
}

/// Inverting the marks twice leaves them as they were.
pub proof fn inverting_twice_restores(app: AppModel)
    ensures
        app.inverted().inverted().marked == app.marked,
{
    let once = app.inverted();
    let names = app.visible();
    same_list(app, once);
    if names.len() > 0 {
        assert forall|name: Seq<char>| once.inverted().marked.contains(name)
            == app.marked.contains(name) by {
            toggled_each_contains(app.marked, names, name);
            toggled_each_contains(once.marked, names, name);
        }
        assert(once.inverted().marked =~= app.marked);
    }
}

/// Selecting all marks every project in the list, or, where every one is marked, none of them; the
/// marks of other projects stay.
pub proof fn selecting_all_is_all_or_none(app: AppModel, name: Seq<char>)
    ensures
        !app.visible().contains(name) ==> app.all_toggled().marked.contains(name)
            == app.marked.contains(name),
        app.visible().contains(name) ==> app.all_toggled().marked.contains(name)
            == !app.all_visible_marked(),
{
}

/// Commands count as running from their start until the end of the batch is reported: no key and no
/// other report says otherwise.
pub proof fn commands_run_until_reported(
    app: AppModel,
    key: KeyEvent,
    editor: Option<Seq<char>>,
    event: EventModel,
)
    ensures
        app.command_running ==> app.on_key(key, editor).0.command_running,
        app.on_key(key, editor).1 is RunAction || app.on_key(key, editor).1 is DeleteProjects
            ==> app.on_key(key, editor).0.command_running,
        app.command_running && !(event is BatchFinished) ==> app.on_event(event).command_running,
        event is BatchFinished ==> !app.on_event(event).command_running,
{
}

} // verus!
