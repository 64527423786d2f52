//! What each key does to the screen, whatever the screen shows.

use vstd::prelude::*;
use vstd::utf8::*;

use crate::compose::{Action, LogsOptions, RemoveOptions};
use crate::docker_api::{ContainerModel, StatusModel};
use crate::native;
use crate::project;
use crate::text;
use crate::tui::{
    self, AppModel, Focus, InputMode, KeyCode, KeyEvent, KeyOutcomeModel, PendingModel, TuiAction,
};

verus! {

impl AppModel {
    /// Whether keys are taken for shortcuts: no help, no question, nothing being edited.
    pub open spec fn idle(self) -> bool {
        &&& !self.show_help
        &&& self.pending_action is None
        &&& self.input_mode == InputMode::Normal
    }
}

impl KeyEvent {
    /// Whether the key is a letter without Alt.
    pub open spec fn is_letter(self, ch: char) -> bool {
        self.code == KeyCode::Char(ch) && !self.modifiers.alt
    }
}

/// The list shows the names that hold the text of the filter, in the order of the projects, each as
/// often as projects have it; without a filter all.
pub proof fn list_shows_names_with_the_filter(app: AppModel)
    ensures
        app.visible() == app.statuses.map_values(
            |status: StatusModel| status.project.name,
        ).filter(
            |name: Seq<char>| app.filter.len() == 0 || text::contains_text(name, app.filter),
        ),
{
    let names = app.statuses.map_values(|status: StatusModel| status.project.name);
    let first = |name: Seq<char>| app.lets_through(name);
    let second = |name: Seq<char>|
        app.filter.len() == 0 || text::contains_text(name, app.filter);
    assert(first =~= second);
}

/// The highlighted project is the one whose name stands in the list at the highlight, the first where
/// several have it; there is none if and only if the highlight is outside the list.
pub proof fn highlight_is_on_the_name_in_the_list(app: AppModel)
    ensures
        app.selected() is Some <==> app.selected_index < app.visible().len(),
        app.selected() matches Some(status) ==> {
            &&& status.project.name == app.visible()[app.selected_index as int]
            &&& exists|i: int| #[trigger] first_of_name(app.statuses, i) && app.statuses[i] == status
        },
{
    if app.selected_index < app.visible().len() {
        let name = app.visible()[app.selected_index as int];
        let names = app.statuses.map_values(|status: StatusModel| status.project.name);
        let pred = |name: Seq<char>| app.lets_through(name);
        let kept = names.filter(pred);
        assert(kept.contains(name));
        names.lemma_filter_contains_rev(pred, name);
        let j = choose|j: int| 0 <= j < names.len() && names[j] == name;
        assert(app.statuses[j].project.name == name);
        named_is_first(app.statuses, name, j);
    }
}

/// Whether no project before the one at `index` has its name.
pub open spec fn first_of_name(statuses: Seq<StatusModel>, index: int) -> bool {
    &&& 0 <= index < statuses.len()
    &&& forall|j: int|
        0 <= j < index ==> (#[trigger] statuses[j]).project.name != statuses[index].project.name
}

proof fn named_is_first(statuses: Seq<StatusModel>, name: Seq<char>, at: int)
    requires
        0 <= at < statuses.len(),
        statuses[at].project.name == name,
    ensures
        tui::status_named(statuses, name) is Some,
        tui::status_named(statuses, name)->0.project.name == name,
        exists|i: int| #[trigger] first_of_name(statuses, i) && Some(statuses[i])
            == tui::status_named(statuses, name),
    decreases statuses.len(),
{
    if statuses[0].project.name == name {
        assert(first_of_name(statuses, 0));
    } else {
        let rest = statuses.drop_first();
        assert(rest[at - 1] == statuses[at]);
        named_is_first(rest, name, at - 1);
        let i = choose|i: int| #[trigger] first_of_name(rest, i) && Some(rest[i])
            == tui::status_named(rest, name);
        assert(statuses[i + 1] == rest[i]);
        assert forall|j: int| 0 <= j < i + 1 implies (#[trigger] statuses[j]).project.name
            != statuses[i + 1].project.name by {
            if j > 0 {
                assert(rest[j - 1] == statuses[j]);
            }
        }
        assert(first_of_name(statuses, i + 1));
    }
}

/// `E` opens the editor on the `.env` of the highlighted project's own directory, which is created
/// where it is missing. Without a highlighted project or an editor nothing is opened, and a message
/// says why.
pub proof fn upper_e_edits_the_projects_env(
    app: AppModel,
    key: KeyEvent,
    editor: Option<Seq<char>>,
)
    requires
        app.idle(),
        !app.command_running,
        key.code == KeyCode::Char('E'),
    ensures
        ({
            let (after, outcome) = app.on_key(key, editor);
            &&& app.selected() is None ==> outcome is Continue && after == (AppModel {
                status_message: "No project selected"@,
                ..app
            })
            &&& app.selected() is Some && editor is None ==> outcome is Continue && after == (
            AppModel { status_message: "set VISUAL or EDITOR to edit files"@, ..app })
            &&& app.selected() matches Some(status) ==> editor matches Some(command) ==> {
                &&& outcome matches KeyOutcomeModel::OpenEditor(launch) && {
                    &&& launch.editor == command
                    &&& launch.path == native::path_below(
                        status.project.dir,
                        encode_utf8(".env"@),
                    )
                    &&& launch.create_missing
                    &&& launch.target_label == ".env for "@ + status.project.name
                    &&& launch.created_project is None
                }
                &&& after == (AppModel {
                    status_message: "Opening editor for "@ + (".env for "@ + status.project.name),
                    ..app
                })
            }
        }),
{
}

/// `e` opens the editor on the compose file of the highlighted project, which is not created.
pub proof fn lower_e_edits_the_projects_compose_file(
    app: AppModel,
    key: KeyEvent,
    editor: Option<Seq<char>>,
)
    requires
        app.idle(),
        !app.command_running,
        key.is_letter('e'),
    ensures
        ({
            let (after, outcome) = app.on_key(key, editor);
            &&& app.selected() is None ==> outcome is Continue && after == (AppModel {
                status_message: "No project selected"@,
                ..app
            })
            &&& app.selected() is Some && editor is None ==> outcome is Continue && after == (
            AppModel { status_message: "set VISUAL or EDITOR to edit files"@, ..app })
            &&& app.selected() matches Some(status) ==> editor matches Some(command) ==> {
                &&& outcome matches KeyOutcomeModel::OpenEditor(launch) && {
                    &&& launch.editor == command
                    &&& launch.path == status.project.compose_file
                    &&& !launch.create_missing
                    &&& launch.target_label == "compose for "@ + status.project.name
                    &&& launch.created_project is None
                }
                &&& after == (AppModel {
                    status_message: "Opening editor for "@ + ("compose for "@ + status.project.name),
                    ..app
                })
            }
        }),
{
}

/// `Alt+e` opens the editor on `.env.global` in the compose directory, whatever project is
/// highlighted; the file is created where it is missing.
pub proof fn alt_e_edits_the_global_env(app: AppModel, key: KeyEvent, editor: Option<Seq<char>>)
    requires
        app.idle(),
        !app.command_running,
        key.code == KeyCode::Char('e'),
        key.modifiers.alt,
    ensures
        ({
            let (after, outcome) = app.on_key(key, editor);
            &&& editor is None ==> outcome is Continue && after == (AppModel {
                status_message: "set VISUAL or EDITOR to edit files"@,
                ..app
            })
            &&& editor matches Some(command) ==> {
                &&& outcome matches KeyOutcomeModel::OpenEditor(launch) && {
                    &&& launch.editor == command
                    &&& launch.path == native::path_below(
                        app.config.compose_dir,
                        encode_utf8(".env.global"@),
                    )
                    &&& launch.create_missing
                    &&& launch.target_label == ".env.global"@
                    &&& launch.created_project is None
                }
                &&& after == (AppModel {
                    status_message: "Opening editor for "@ + ".env.global"@,
                    ..app
                })
            }
        }),
{
}

/// Whether a screen asks an action to be confirmed where there is anything to act on, and nothing
/// else has changed.
pub open spec fn asks(
    app: AppModel,
    result: (AppModel, KeyOutcomeModel),
    label: Seq<char>,
    action: TuiAction,
) -> bool {
    let (after, outcome) = result;
    let count = app.selected_projects().len();
    &&& outcome is Continue
    &&& count == 0 ==> after == (AppModel { status_message: "No project selected"@, ..app })
    &&& count > 0 ==> after == (AppModel {
        pending_action: Some(PendingModel { label, action }),
        status_message: "Confirm "@ + label + " for "@ + text::decimal_text(count)
            + " project(s)"@,
        ..app
    })
}

/// Each action has its key: `u` deploys, `U` updates, `s` stops, `r` restarts, `d` removes, `D`
/// removes with the volumes, `x` deletes the files, `X` purges. Each asks first.
pub proof fn action_keys_ask_for_their_actions(
    app: AppModel,
    key: KeyEvent,
    editor: Option<Seq<char>>,
)
    requires
        app.idle(),
        !app.command_running,
    ensures
        ({
            let result = app.on_key(key, editor);
            let removal = |volumes: bool|
                TuiAction::Compose(
                    Action::Remove(RemoveOptions { volumes, remove_orphans: false, rmi: None }),
                );
            &&& key.code == KeyCode::Char('u') ==> asks(
                app,
                result,
                "deploy"@,
                TuiAction::Compose(Action::Deploy),
            )
            &&& key.code == KeyCode::Char('U') ==> asks(
                app,
                result,
                "update"@,
                TuiAction::Compose(Action::Update),
            )
            &&& key.code == KeyCode::Char('s') ==> asks(
                app,
                result,
                "stop"@,
                TuiAction::Compose(Action::Stop),
            )
            &&& key.code == KeyCode::Char('r') ==> asks(
                app,
                result,
                "restart"@,
                TuiAction::Compose(Action::Restart),
            )
            &&& key.code == KeyCode::Char('d') ==> asks(app, result, "remove"@, removal(false))
            &&& key.code == KeyCode::Char('D') ==> asks(
                app,
                result,
                "remove with volumes"@,
                removal(true),
            )
            &&& key.code == KeyCode::Char('x') ==> asks(
                app,
                result,
                "delete project files"@,
                TuiAction::DeleteProjectFiles,
            )
            &&& key.code == KeyCode::Char('X') ==> asks(
                app,
                result,
                "purge project"@,
                TuiAction::PurgeProject,
            )
        }),
{
}

proof fn same_selected_projects(a: AppModel, b: AppModel)
    requires
        a.statuses == b.statuses,
        a.filter == b.filter,
        a.selected_index == b.selected_index,
        a.marked == b.marked,
    ensures
        a.visible() == b.visible(),
        a.selected() == b.selected(),
        a.selected_projects() == b.selected_projects(),
{
    list_shows_names_with_the_filter(a);
    list_shows_names_with_the_filter(b);
    let first = |name: Seq<char>| a.filter.len() == 0 || text::contains_text(name, a.filter);
    let second = |name: Seq<char>| b.filter.len() == 0 || text::contains_text(name, b.filter);
    assert(first =~= second);
    let marked_a = |status: StatusModel| a.marked.contains(status.project.name);
    let marked_b = |status: StatusModel| b.marked.contains(status.project.name);
    assert(marked_a =~= marked_b);
}

/// A question that is answered with `y` or Enter starts the action that was asked about, on the
/// selected projects: a compose action runs, deleting files deletes without a purge, and purging
/// deletes with one. The question is gone, and commands count as running.
pub proof fn confirming_starts_the_action(
    app: AppModel,
    key: KeyEvent,
    editor: Option<Seq<char>>,
)
    requires
        !app.show_help,
        app.pending_action is Some,
        key.code == KeyCode::Char('y') || key.code == KeyCode::Enter,
    ensures
        ({
            let (after, outcome) = app.on_key(key, editor);
            let projects = app.selected_projects();
            &&& projects.len() == 0 ==> outcome is Continue && after == (AppModel {
                pending_action: None,
                status_message: "No project selected"@,
                ..app
            })
            &&& projects.len() > 0 ==> {
                &&& after == (AppModel { pending_action: None, command_running: true, ..app })
                &&& app.pending_action->0.action matches TuiAction::Compose(action) ==> outcome == (
                KeyOutcomeModel::RunAction { projects, action })
                &&& app.pending_action->0.action is DeleteProjectFiles ==> outcome == (
                KeyOutcomeModel::DeleteProjects { projects, purge: false })
                &&& app.pending_action->0.action is PurgeProject ==> outcome == (
                KeyOutcomeModel::DeleteProjects { projects, purge: true })
            }
        }),
{
    same_selected_projects(app, AppModel { pending_action: None, ..app });
}

/// `l` shows the logs of the selected projects at once, as many lines as configured, without
/// following them.
pub proof fn l_shows_logs(app: AppModel, key: KeyEvent, editor: Option<Seq<char>>)
    requires
        app.idle(),
        !app.command_running,
        key.code == KeyCode::Char('l'),
    ensures
        ({
            let (after, outcome) = app.on_key(key, editor);
            let projects = app.selected_projects();
            &&& projects.len() == 0 ==> outcome is Continue && after == (AppModel {
                status_message: "No project selected"@,
                ..app
            })
            &&& projects.len() > 0 ==> after == (AppModel { command_running: true, ..app })
                && outcome == (KeyOutcomeModel::RunAction {
                projects,
                action: Action::Logs(
                    LogsOptions { follow: false, tail: app.config.default_log_lines },
                ),
            })
        }),
{
}

/// `n` asks for the name of a new project, empty at first.
pub proof fn n_asks_for_a_name(app: AppModel, key: KeyEvent, editor: Option<Seq<char>>)
    requires
        app.idle(),
        !app.command_running,
        key.code == KeyCode::Char('n'),
    ensures
        app.on_key(key, editor) == (
            AppModel {
                input_mode: InputMode::NewProject,
                new_project_name: seq![],
                new_project_error: None,
                status_message: "Enter new project name"@,
                ..app
            },
            KeyOutcomeModel::Continue,
        ),
{
}

/// `c` offers the running containers of the highlighted project, the first of them chosen. Where none
/// runs, or no project is highlighted, it says so.
pub proof fn c_offers_running_containers(app: AppModel, key: KeyEvent, editor: Option<Seq<char>>)
    requires
        app.idle(),
        !app.command_running,
        key.code == KeyCode::Char('c'),
    ensures
        ({
            let (after, outcome) = app.on_key(key, editor);
            &&& outcome is Continue
            &&& app.selected() is None ==> after == (AppModel {
                status_message: "No project selected"@,
                ..app
            })
            &&& app.selected() matches Some(status) ==> {
                let any = exists|i: int|
                    0 <= i < status.containers.len() && (#[trigger] status.containers[i]).state
                        == "running"@;
                &&& !any ==> after == (AppModel { status_message: "No running containers"@, ..app })
                &&& any ==> after == (AppModel {
                    input_mode: InputMode::ContainerShell,
                    shell_container_index: 0,
                    status_message: "Select container for "@ + status.project.name,
                    ..app
                })
            }
        }),
{
    if let Some(status) = app.selected() {
        running_are_kept(status.containers);
    }
}

proof fn running_are_kept(containers: Seq<ContainerModel>)
    ensures
        tui::running_among(containers) == containers.filter(
            |container: ContainerModel| container.state == "running"@,
        ),
        tui::running_among(containers).len() > 0 <==> exists|i: int|
            0 <= i < containers.len() && (#[trigger] containers[i]).state == "running"@,
{
    let running = |container: ContainerModel| container.running();
    let state = |container: ContainerModel| container.state == "running"@;
    assert(running =~= state);
    let kept = containers.filter(state);
    if kept.len() > 0 {
        assert(kept.contains(kept[0]));
        containers.lemma_filter_pred(state, 0);
        containers.lemma_filter_contains_rev(state, kept[0]);
        let i = choose|i: int| 0 <= i < containers.len() && containers[i] == kept[0];
        assert(containers[i].state == "running"@);
    }
    if exists|i: int| 0 <= i < containers.len() && (#[trigger] containers[i]).state == "running"@ {
        let i = choose|i: int|
            0 <= i < containers.len() && (#[trigger] containers[i]).state == "running"@;
        containers.lemma_filter_contains(state, i);
    }
}

/// The containers that a shell can be opened in are those of the highlighted project whose state is
/// `running`, in their order.
pub proof fn shells_open_in_running_containers(app: AppModel)
    ensures
        app.selected() is None ==> app.shell_containers().len() == 0,
        app.selected() matches Some(status) ==> app.shell_containers() == status.containers.filter(
            |container: ContainerModel| container.state == "running"@,
        ),
{
    if let Some(status) = app.selected() {
        running_are_kept(status.containers);
    }
}

/// Keys that only look around: `?` opens the help at its top, `/` edits the filter, Tab goes on to the
/// next panel, Enter to the details; nothing else changes. `q` quits.
pub proof fn view_keys_change_the_view(app: AppModel, key: KeyEvent, editor: Option<Seq<char>>)
    requires
        app.idle(),
    ensures
        ({
            let (after, outcome) = app.on_key(key, editor);
            &&& key.code == KeyCode::Char('q') ==> outcome is Quit && after == app
            &&& key.code == KeyCode::Char('?') ==> outcome is Continue && after == (AppModel {
                show_help: true,
                help_scroll: 0,
                ..app
            })
            &&& key.code == KeyCode::Char('/') ==> outcome is Continue && after == (AppModel {
                input_mode: InputMode::Filter,
                ..app
            })
            &&& key.code == KeyCode::Enter ==> outcome is Continue && after == (AppModel {
                focus: Focus::Details,
                ..app
            })
            &&& key.code == KeyCode::Tab && app.focus == Focus::Projects ==> outcome is Continue
                && after == (AppModel { focus: Focus::Details, ..app })
            &&& key.code == KeyCode::Tab && app.focus == Focus::Details ==> outcome is Continue
                && after == (AppModel { focus: Focus::Output, ..app })
            &&& key.code == KeyCode::Tab && app.focus == Focus::Output ==> outcome is Continue
                && after == (AppModel { focus: Focus::Projects, ..app })
        }),
{
}

/// A scroll position moved within what a position can be.
pub open spec fn between(low: int, value: int, high: int) -> int {
    if value < low {
        low
    } else if value > high {
        high
    } else {
        value
    }
}

/// `j` and Down move the highlight one project down, `k` and Up one up, inside the list, while the
/// list has the focus; in a panel of text they scroll that panel by one line. Nothing else changes.
pub proof fn moving_keys_move_by_one(app: AppModel, key: KeyEvent, editor: Option<Seq<char>>)
    requires
        app.idle(),
        key.code == KeyCode::Char('j') || key.code == KeyCode::Down || key.code == KeyCode::Char('k')
            || key.code == KeyCode::Up,
        app.selected_index == 0 || app.selected_index < app.visible().len(),
    ensures
        ({
            let (after, outcome) = app.on_key(key, editor);
            let step: int = if key.code == KeyCode::Char('j') || key.code == KeyCode::Down {
                1
            } else {
                -1
            };
            let len = app.visible().len();
            &&& outcome is Continue
            &&& app.focus == Focus::Projects && len == 0 ==> after == app
            &&& app.focus == Focus::Projects && len > 0 ==> after == (AppModel {
                selected_index: between(0, app.selected_index + step, len - 1) as nat,
                ..app
            })
            &&& app.focus == Focus::Details ==> after == (AppModel {
                details_scroll: between(0, app.details_scroll + step, u16::MAX as int) as u16,
                ..app
            })
            &&& app.focus == Focus::Output ==> after == (AppModel {
                output_scroll: between(0, app.output_scroll + step, u16::MAX as int) as u16,
                ..app
            })
        }),
{
}

/// PageDown and PageUp scroll the panel of text that has the focus by five lines, and leave the list
/// of projects alone.
pub proof fn page_keys_scroll_by_five(app: AppModel, key: KeyEvent, editor: Option<Seq<char>>)
    requires
        app.idle(),
        key.code == KeyCode::PageDown || key.code == KeyCode::PageUp,
    ensures
        ({
            let (after, outcome) = app.on_key(key, editor);
            let step: int = if key.code == KeyCode::PageDown {
                5
            } else {
                -5
            };
            &&& outcome is Continue
            &&& app.focus == Focus::Projects ==> after == app
            &&& app.focus == Focus::Details ==> after == (AppModel {
                details_scroll: between(0, app.details_scroll + step, u16::MAX as int) as u16,
                ..app
            })
            &&& app.focus == Focus::Output ==> after == (AppModel {
                output_scroll: between(0, app.output_scroll + step, u16::MAX as int) as u16,
                ..app
            })
        }),
{
}

/// Space marks the highlighted project, or takes its mark off, while the list has the focus. No other
/// mark changes, and nothing else does.
pub proof fn space_toggles_one_mark(
    app: AppModel,
    key: KeyEvent,
    editor: Option<Seq<char>>,
    name: Seq<char>,
)
    requires
        app.idle(),
        key.code == KeyCode::Char(' '),
    ensures
        ({
            let (after, outcome) = app.on_key(key, editor);
            let hits = app.focus == Focus::Projects && app.selected_index < app.visible().len()
                && name == app.visible()[app.selected_index as int];
            &&& outcome is Continue
            &&& after.marked.contains(name) <==> (app.marked.contains(name) != hits)
            &&& after == (AppModel { marked: after.marked, ..app })
        }),
{
}

/// `a` marks every project in the list, or, where all of them are marked, none of them. Marks of
/// projects outside the list stay. The message counts the projects in the list.
pub proof fn a_marks_the_list(
    app: AppModel,
    key: KeyEvent,
    editor: Option<Seq<char>>,
    name: Seq<char>,
)
    requires
        app.idle(),
        key.code == KeyCode::Char('a'),
    ensures
        ({
            let (after, outcome) = app.on_key(key, editor);
            let listed = app.visible().contains(name);
            let all = forall|i: int|
                0 <= i < app.visible().len() ==> app.marked.contains(#[trigger] app.visible()[i]);
            let count = text::decimal_text(app.visible().len());
            &&& outcome is Continue
            &&& listed ==> (after.marked.contains(name) <==> !all)
            &&& !listed ==> (after.marked.contains(name) <==> app.marked.contains(name))
            &&& after == (AppModel {
                marked: after.marked,
                status_message: if app.visible().len() == 0 {
                    "No visible projects"@
                } else if all {
                    "Cleared "@ + count + " visible project(s)"@
                } else {
                    "Selected "@ + count + " visible project(s)"@
                },
                ..app
            })
        }),
{
}

/// `A` turns the mark of each project in the list around, and of no other; of a name that stands there
/// once, the mark is the opposite afterwards.
pub proof fn upper_a_turns_marks_around(
    app: AppModel,
    key: KeyEvent,
    editor: Option<Seq<char>>,
    name: Seq<char>,
)
    requires
        app.idle(),
        key.code == KeyCode::Char('A'),
        app.visible().no_duplicates(),
    ensures
        ({
            let (after, outcome) = app.on_key(key, editor);
            &&& outcome is Continue
            &&& after.marked.contains(name) <==> (app.marked.contains(name)
                != app.visible().contains(name))
            &&& after == (AppModel {
                marked: after.marked,
                status_message: if app.visible().len() == 0 {
                    "No visible projects"@
                } else {
                    "Inverted "@ + text::decimal_text(app.visible().len()) + " visible project(s)"@
                },
                ..app
            })
        }),
{
    toggling_each_once(app.marked, app.visible(), name);
}

proof fn toggling_each_once(marked: Set<Seq<char>>, names: Seq<Seq<char>>, name: Seq<char>)
    requires
        names.no_duplicates(),
    ensures
        tui::toggled_each(marked, names).contains(name) <==> (marked.contains(name)
            != names.contains(name)),
    decreases names.len(),
{
    if names.len() > 0 {
        let rest = names.drop_last();
        toggling_each_once(marked, rest, name);
        assert(names[names.len() - 1] == names.last());
        if names.contains(name) && name != names.last() {
            let i = choose|i: int| 0 <= i < names.len() && names[i] == name;
            assert(rest[i] == name);
        }
        if rest.contains(name) {
            let i = choose|i: int| 0 <= i < rest.len() && rest[i] == name;
            assert(names[i] == name);
        }
    }
}

/// A letter without a meaning does nothing, and neither does a letter that acts on projects while
/// commands run. Neither does any key that is not named.
pub proof fn other_keys_do_nothing(app: AppModel, key: KeyEvent, editor: Option<Seq<char>>, ch: char)
    requires
        app.idle(),
    ensures
        ({
            let (after, outcome) = app.on_key(key, editor);
            let acts = ch == 'n' || ch == 'e' || ch == 'E' || ch == 'c' || ch == 'l' || ch == 'u'
                || ch == 'U' || ch == 's' || ch == 'r' || ch == 'd' || ch == 'D' || ch == 'x' || ch
                == 'X';
            let views = ch == 'q' || ch == '?' || ch == '/' || ch == 'a' || ch == 'A' || ch == ' '
                || ch == 'j' || ch == 'k';
            &&& key.code == KeyCode::Char(ch) && !acts && !views ==> outcome is Continue && after
                == app
            &&& key.code == KeyCode::Char(ch) && acts && app.command_running ==> outcome is Continue
                && after == app
            &&& key.code is Esc || key.code is Backspace || key.code is Other ==> outcome is Continue
                && after == app
        }),
{
}

/// While the help is open, `?`, `q` and Esc close it, `j`, `k`, Down and Up scroll it by a line,
/// PageDown and PageUp by eight, between its first and its last line; nothing else changes, and no
/// other key does anything.
pub proof fn help_keys_only_move_the_help(app: AppModel, key: KeyEvent, editor: Option<Seq<char>>)
    requires
        app.show_help,
        app.help_scroll < 38,
    ensures
        ({
            let (after, outcome) = app.on_key(key, editor);
            let code = key.code;
            let closes = code == KeyCode::Char('?') || code == KeyCode::Char('q') || code
                == KeyCode::Esc;
            let step: int = if code == KeyCode::Char('j') || code == KeyCode::Down {
                1
            } else if code == KeyCode::Char('k') || code == KeyCode::Up {
                -1
            } else if code == KeyCode::PageDown {
                8
            } else if code == KeyCode::PageUp {
                -8
            } else {
                0
            };
            &&& outcome is Continue
            &&& closes ==> after == (AppModel { show_help: false, help_scroll: 0, ..app })
            &&& !closes ==> after == (AppModel {
                help_scroll: between(0, app.help_scroll + step, 37) as u16,
                ..app
            })
        }),
{
}

/// While the filter is edited, a character without Control is put behind it, Backspace takes the last
/// one off, and Enter and Esc leave the filter as it is and go back to the list. The highlight stays
/// where it is as long as the list reaches that far, else it goes to the last project that is left.
pub proof fn filter_keys_edit_the_filter(
    app: AppModel,
    key: KeyEvent,
    editor: Option<Seq<char>>,
    ch: char,
)
    requires
        !app.show_help,
        app.pending_action is None,
        app.input_mode == InputMode::Filter,
    ensures
        ({
            let (after, outcome) = app.on_key(key, editor);
            let typed = key.code == KeyCode::Char(ch) && !key.modifiers.control;
            let len = after.visible().len();
            &&& outcome is Continue
            &&& typed ==> after.filter == app.filter.push(ch)
            &&& key.code == KeyCode::Backspace && app.filter.len() > 0 ==> after.filter
                == app.filter.drop_last()
            &&& key.code == KeyCode::Backspace && app.filter.len() == 0 ==> after.filter == app.filter
            &&& typed || key.code == KeyCode::Backspace ==> {
                &&& after.selected_index == (if len == 0 {
                    0
                } else {
                    between(0, app.selected_index as int, len - 1)
                })
                &&& after == (AppModel {
                    filter: after.filter,
                    selected_index: after.selected_index,
                    ..app
                })
            }
            &&& key.code == KeyCode::Enter || key.code == KeyCode::Esc ==> after == (AppModel {
                input_mode: InputMode::Normal,
                ..app
            })
            &&& key.code == KeyCode::Char(ch) && key.modifiers.control ==> after == app
            &&& key.code is Tab || key.code is Up || key.code is Down || key.code is PageUp
                || key.code is PageDown || key.code is Other ==> after == app
        }),
{
    let (after, _) = app.on_key(key, editor);
    let shorter = AppModel {
        filter: if app.filter.len() > 0 {
            app.filter.drop_last()
        } else {
            app.filter
        },
        ..app
    };
    let longer = AppModel { filter: app.filter.push(ch), ..app };
    if key.code == KeyCode::Backspace {
        same_selected_list(shorter, after);
    }
    if key.code == KeyCode::Char(ch) && !key.modifiers.control {
        same_selected_list(longer, after);
    }
}

proof fn same_selected_list(a: AppModel, b: AppModel)
    requires
        a.statuses == b.statuses,
        a.filter == b.filter,
    ensures
        a.visible() == b.visible(),
{
    list_shows_names_with_the_filter(a);
    list_shows_names_with_the_filter(b);
    let first = |name: Seq<char>| a.filter.len() == 0 || text::contains_text(name, a.filter);
    let second = |name: Seq<char>| b.filter.len() == 0 || text::contains_text(name, b.filter);
    assert(first =~= second);
}

/// While a new project is named, a character without Control is put behind the name, Backspace takes
/// the last one off, both take a complaint away, and Esc gives the project up. Nothing else changes.
pub proof fn naming_keys_edit_the_name(
    app: AppModel,
    key: KeyEvent,
    editor: Option<Seq<char>>,
    ch: char,
)
    requires
        !app.show_help,
        app.pending_action is None,
        app.input_mode == InputMode::NewProject,
        key.code != KeyCode::Enter,
    ensures
        ({
            let (after, outcome) = app.on_key(key, editor);
            &&& outcome is Continue
            &&& key.code == KeyCode::Char(ch) && !key.modifiers.control ==> after == (AppModel {
                new_project_name: app.new_project_name.push(ch),
                new_project_error: None,
                ..app
            })
            &&& key.code == KeyCode::Char(ch) && key.modifiers.control ==> after == app
            &&& key.code == KeyCode::Backspace ==> after == (AppModel {
                new_project_name: if app.new_project_name.len() > 0 {
                    app.new_project_name.drop_last()
                } else {
                    app.new_project_name
                },
                new_project_error: None,
                ..app
            })
            &&& key.code == KeyCode::Esc ==> after == (AppModel {
                input_mode: InputMode::Normal,
                new_project_name: seq![],
                new_project_error: None,
                status_message: "New project cancelled"@,
                ..app
            })
            &&& key.code is Tab || key.code is Up || key.code is Down || key.code is PageUp
                || key.code is PageDown || key.code is Other ==> after == app
        }),
{
}

/// Enter creates the project that has been named, if and only if its name is valid and there is an
/// editor: right below the compose directory, with a compose file that has no services, which the
/// editor is to open on. An invalid name stays to be corrected, and is complained of.
pub proof fn entering_a_name_creates_the_project(
    app: AppModel,
    key: KeyEvent,
    editor: Option<Seq<char>>,
)
    requires
        !app.show_help,
        app.pending_action is None,
        app.input_mode == InputMode::NewProject,
        key.code == KeyCode::Enter,
    ensures
        ({
            let (after, outcome) = app.on_key(key, editor);
            let name = app.new_project_name;
            let valid = project::valid_project_name(name);
            let complaint = if name.len() == 0 {
                "project name cannot be empty"@
            } else if !('a' <= name[0] <= 'z' || '0' <= name[0] <= '9') {
                "project name must start with a lowercase letter or digit"@
            } else {
                "project name can contain only lowercase letters, digits, '-' and '_'"@
            };
            &&& !valid ==> outcome is Continue && after == (AppModel {
                new_project_error: Some(complaint),
                status_message: complaint,
                ..app
            })
            &&& valid && editor is None ==> outcome is Continue && after == (AppModel {
                input_mode: InputMode::Normal,
                new_project_name: seq![],
                new_project_error: None,
                status_message: "set VISUAL or EDITOR to create projects"@,
                ..app
            })
            &&& editor matches Some(command) ==> valid ==> {
                &&& after == app
                &&& outcome matches KeyOutcomeModel::CreateProject(new) && {
                    &&& new.compose_dir == app.config.compose_dir
                    &&& new.project.name == name
                    &&& new.project.dir == native::path_below(
                        app.config.compose_dir,
                        encode_utf8(name),
                    )
                    &&& new.project.compose_file == native::path_below(
                        new.project.dir,
                        encode_utf8("docker-compose.yaml"@),
                    )
                    &&& new.project.env_file is None
                    &&& new.contents == "services: {}\n"@
                    &&& new.editor == command
                }
            }
        }),
{
}

/// While a container is chosen, `j` and Down go one container down, `k` and Up one up, inside the list
/// of running containers; Esc and `q` give the choice up; other keys than these and Enter do nothing.
pub proof fn choosing_keys_move_the_choice(
    app: AppModel,
    key: KeyEvent,
    editor: Option<Seq<char>>,
)
    requires
        !app.show_help,
        app.pending_action is None,
        app.input_mode == InputMode::ContainerShell,
        app.shell_container_index <= u16::MAX,
        key.code != KeyCode::Enter,
    ensures
        ({
            let (after, outcome) = app.on_key(key, editor);
            let len = app.shell_containers().len();
            let down = key.code == KeyCode::Char('j') || key.code == KeyCode::Down;
            let up = key.code == KeyCode::Char('k') || key.code == KeyCode::Up;
            let leaves = key.code == KeyCode::Esc || key.code == KeyCode::Char('q');
            let step: int = if down {
                1
            } else {
                -1
            };
            &&& outcome is Continue
            &&& (down || up) && len == 0 ==> after == (AppModel { shell_container_index: 0, ..app })
            &&& (down || up) && 0 < len <= u16::MAX ==> after == (AppModel {
                shell_container_index: between(
                    0,
                    app.shell_container_index + step,
                    len - 1,
                ) as nat,
                ..app
            })
            &&& leaves ==> after == (AppModel {
                input_mode: InputMode::Normal,
                shell_container_index: 0,
                status_message: "Container shell cancelled"@,
                ..app
            })
            &&& !down && !up && !leaves ==> after == app
        }),
{
}

/// Enter opens a shell in the chosen container of the highlighted project, and in no other; where
/// there is no such container, it says so and opens none.
pub proof fn choosing_opens_a_shell_in_the_container(
    app: AppModel,
    key: KeyEvent,
    editor: Option<Seq<char>>,
)
    requires
        !app.show_help,
        app.pending_action is None,
        app.input_mode == InputMode::ContainerShell,
        key.code == KeyCode::Enter,
    ensures
        ({
            let (after, outcome) = app.on_key(key, editor);
            let containers = app.shell_containers();
            let at = app.shell_container_index as int;
            &&& app.selected() is None ==> outcome is Continue && after == (AppModel {
                status_message: "No project selected"@,
                ..app
            })
            &&& app.selected() is Some && at >= containers.len() ==> outcome is Continue && after == (
            AppModel { status_message: "No running containers"@, ..app })
            &&& app.selected() matches Some(status) ==> at < containers.len() ==> {
                &&& after == (AppModel {
                    input_mode: InputMode::Normal,
                    shell_container_index: 0,
                    status_message: "Opening shell for "@ + containers[at].name,
                    ..app
                })
                &&& outcome matches KeyOutcomeModel::OpenShell(launch) && {
                    &&& launch.docker_bin == app.config.docker_bin
                    &&& launch.project_name == status.project.name
                    &&& launch.container_id == containers[at].id
                    &&& launch.container_name == containers[at].name
                }
            }
        }),
{
}

/// Scrolling moves the panel of text that has the focus by as much as it is told, the help within its
/// lines, and the choice of container within the running containers; nothing else changes.
pub proof fn scrolling_moves_one_position(app: AppModel, delta: int)
    requires
        i16::MIN <= delta <= i16::MAX,
    ensures
        app.focus == Focus::Projects ==> app.scrolled(delta) == app,
        app.focus == Focus::Details ==> app.scrolled(delta) == (AppModel {
            details_scroll: between(0, app.details_scroll + delta, u16::MAX as int) as u16,
            ..app
        }),
        app.focus == Focus::Output ==> app.scrolled(delta) == (AppModel {
            output_scroll: between(0, app.output_scroll + delta, u16::MAX as int) as u16,
            ..app
        }),
        app.help_scrolled(delta) == (AppModel {
            help_scroll: between(0, app.help_scroll + delta, 37) as u16,
            ..app
        }),
        app.shell_containers().len() == 0 ==> app.container_moved(delta) == (AppModel {
            shell_container_index: 0,
            ..app
        }),
        app.shell_container_index <= u16::MAX && 0 < app.shell_containers().len() <= u16::MAX
            ==> app.container_moved(delta) == (AppModel {
            shell_container_index: between(
                0,
                app.shell_container_index + delta,
                app.shell_containers().len() - 1,
            ) as nat,
            ..app
        }),
{
}

/// A highlight that is beyond the list comes back to its last project when the list has become
/// shorter, and by a step down; a step up moves it by one, and stops at the top.
pub proof fn highlight_comes_back_into_the_list(app: AppModel)
    ensures
        app.clamped() == (AppModel {
            selected_index: if app.visible().len() == 0 {
                0
            } else {
                between(0, app.selected_index as int, app.visible().len() - 1) as nat
            },
            ..app
        }),
        app.focus == Focus::Projects && app.visible().len() > 0 ==> app.moved_down() == (AppModel {
            selected_index: between(0, app.selected_index as int + 1, app.visible().len() - 1) as nat,
            ..app
        }),
        app.focus == Focus::Projects ==> app.moved_up() == (AppModel {
            selected_index: between(0, app.selected_index - 1, app.selected_index as int) as nat,
            ..app
        }),
{
}

/// Whatever action is asked for or started, it is that action, on the selected projects; without any
/// it is refused.
pub proof fn actions_are_taken_as_given(app: AppModel, label: Seq<char>, action: TuiAction)
    ensures
        asks(app, (app.asking(label, action), KeyOutcomeModel::Continue), label, action),
        app.selected_projects().len() == 0 ==> app.started(action) == (
            AppModel { status_message: "No project selected"@, ..app },
            KeyOutcomeModel::Continue,
        ),
        app.selected_projects().len() > 0 ==> app.started(action) == (
            AppModel { command_running: true, ..app },
            match action {
                TuiAction::Compose(action) => KeyOutcomeModel::RunAction {
                    projects: app.selected_projects(),
                    action,
                },
                TuiAction::DeleteProjectFiles => KeyOutcomeModel::DeleteProjects {
                    projects: app.selected_projects(),
                    purge: false,
                },
                TuiAction::PurgeProject => KeyOutcomeModel::DeleteProjects {
                    projects: app.selected_projects(),
                    purge: true,
                },
            },
        ),
{
}

/// An editor is opened on what it is asked for, if and only if there is one.
pub proof fn editors_open_what_is_asked_for(
    app: AppModel,
    target_label: Seq<char>,
    path: Seq<u8>,
    create_missing: bool,
    command: Seq<char>,
)
    ensures
        app.editing(target_label, path, create_missing, None).1 is None,
        app.editing(target_label, path, create_missing, None).0 == (AppModel {
            status_message: "set VISUAL or EDITOR to edit files"@,
            ..app
        }),
        app.editing(target_label, path, create_missing, Some(command)).0 == (AppModel {
            status_message: "Opening editor for "@ + target_label,
            ..app
        }),
        app.editing(target_label, path, create_missing, Some(command)).1 matches Some(launch)
            && launch.editor == command && launch.target_label == target_label && launch.path == path
            && launch.create_missing == create_missing && launch.created_project is None,
{
}

/// A message counts what it says it counts, in decimal notation.
pub proof fn messages_count_in_decimals(before: Seq<char>, count: nat, after: Seq<char>)
    ensures
        tui::count_text(before, count, after) == before + text::decimal_text(count) + after,
{
}

} // verus!
