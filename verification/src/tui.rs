//! The state of the interactive screen: what each key and each report from the background does to
//! it, and what it asks for in turn.

use vstd::prelude::*;
use vstd::utf8::*;

use crate::compose::{
    Action, ActionBatchResult, FailureModel, LogsOptions, ProjectFailure, RemoveOptions,
};
use crate::config::{self, AppConfig, ConfigModel};
use crate::docker_api::{ContainerModel, ContainerStatus, ProjectStatus, StatusModel};
use crate::help::HELP_LINE_COUNT;
use crate::names::NameSet;
use crate::native::{self, NativeString};
use crate::output::{self, LineModel, OutputLine, OutputSink};
use crate::project::{self, Project, ProjectModel, ProjectPlan};
use crate::text;

verus! {

/// How many lines of output are kept.
pub const OUTPUT_LIMIT: usize = 2_000;

/// The panel that has the focus.
#[derive(Debug, Clone, Copy, PartialEq, Eq, Structural)]
pub enum Focus {
    Projects,
    Details,
    Output,
}

/// What keys are taken for.
#[derive(Debug, Clone, Copy, PartialEq, Eq, Structural)]
pub enum InputMode {
    Normal,
    Filter,
    NewProject,
    ContainerShell,
}

/// An action on the selected projects.
#[derive(Debug, Clone, Copy, PartialEq, Eq, Structural)]
pub enum TuiAction {
    Compose(Action),
    DeleteProjectFiles,
    PurgeProject,
}

/// An action that waits to be confirmed.
#[derive(Debug, Clone, Copy)]
pub struct PendingAction {
    pub label: &'static str,
    pub action: TuiAction,
}

/// A [`PendingAction`] as plain values.
#[verifier::ext_equal]
pub struct PendingModel {
    pub label: Seq<char>,
    pub action: TuiAction,
}

impl View for PendingAction {
    type V = PendingModel;

    open spec fn view(&self) -> PendingModel {
        PendingModel { label: self.label@, action: self.action }
    }
}

impl DeepView for PendingAction {
    type V = PendingModel;

    open spec fn deep_view(&self) -> PendingModel {
        self@
    }
}

/// A key.
#[derive(Debug, Clone, Copy, PartialEq, Eq, Structural)]
pub enum KeyCode {
    Char(char),
    Enter,
    Esc,
    Tab,
    Backspace,
    Up,
    Down,
    PageUp,
    PageDown,
    Other,
}

/// The keys held down with a key.
#[derive(Debug, Clone, Copy, PartialEq, Eq, Structural)]
pub struct KeyModifiers {
    pub control: bool,
    pub alt: bool,
}

/// A key press.
#[derive(Debug, Clone, Copy, PartialEq, Eq, Structural)]
pub struct KeyEvent {
    pub code: KeyCode,
    pub modifiers: KeyModifiers,
}

/// An editor to open.
#[derive(Debug)]
pub struct EditorLaunch {
    pub editor: String,
    pub target_label: String,
    pub path: NativeString,
    /// Whether the file is to be created first where it is missing.
    pub create_missing: bool,
    pub created_project: Option<String>,
}

/// An [`EditorLaunch`] as plain values.
#[verifier::ext_equal]
pub struct EditorModel {
    pub editor: Seq<char>,
    pub target_label: Seq<char>,
    pub path: Seq<u8>,
    pub create_missing: bool,
    pub created_project: Option<Seq<char>>,
}

impl View for EditorLaunch {
    type V = EditorModel;

    open spec fn view(&self) -> EditorModel {
        EditorModel {
            editor: self.editor@,
            target_label: self.target_label@,
            path: self.path@,
            create_missing: self.create_missing,
            created_project: self.created_project.deep_view(),
        }
    }
}

impl DeepView for EditorLaunch {
    type V = EditorModel;

    open spec fn deep_view(&self) -> EditorModel {
        self@
    }
}

/// A shell to open in a container.
#[derive(Debug)]
pub struct ShellLaunch {
    pub docker_bin: NativeString,
    pub project_name: String,
    pub container_id: String,
    pub container_name: String,
}

/// A [`ShellLaunch`] as plain values.
#[verifier::ext_equal]
pub struct ShellModel {
    pub docker_bin: Seq<u8>,
    pub project_name: Seq<char>,
    pub container_id: Seq<char>,
    pub container_name: Seq<char>,
}

impl View for ShellLaunch {
    type V = ShellModel;

    open spec fn view(&self) -> ShellModel {
        ShellModel {
            docker_bin: self.docker_bin@,
            project_name: self.project_name@,
            container_id: self.container_id@,
            container_name: self.container_name@,
        }
    }
}

impl DeepView for ShellLaunch {
    type V = ShellModel;

    open spec fn deep_view(&self) -> ShellModel {
        self@
    }
}

/// A project to create, and the editor that is to open on it.
#[derive(Debug)]
pub struct NewProject {
    pub plan: ProjectPlan,
    pub editor: String,
}

/// A [`NewProject`] as plain values.
#[verifier::ext_equal]
pub struct NewProjectModel {
    pub compose_dir: Seq<u8>,
    pub project: ProjectModel,
    pub contents: Seq<char>,
    pub editor: Seq<char>,
}

impl View for NewProject {
    type V = NewProjectModel;

    open spec fn view(&self) -> NewProjectModel {
        NewProjectModel {
            compose_dir: self.plan.compose_dir@,
            project: self.plan.project@,
            contents: self.plan.contents@,
            editor: self.editor@,
        }
    }
}

impl DeepView for NewProject {
    type V = NewProjectModel;

    open spec fn deep_view(&self) -> NewProjectModel {
        self@
    }
}

/// What a key asks for beyond a change of the screen.
#[derive(Debug)]
pub enum KeyOutcome {
    Continue,
    Quit,
    OpenEditor(EditorLaunch),
    OpenShell(ShellLaunch),
    CreateProject(NewProject),
    RunAction { projects: Vec<Project>, action: Action },
    DeleteProjects { projects: Vec<Project>, purge: bool },
}

/// A [`KeyOutcome`] as plain values.
#[verifier::ext_equal]
pub enum KeyOutcomeModel {
    Continue,
    Quit,
    OpenEditor(EditorModel),
    OpenShell(ShellModel),
    CreateProject(NewProjectModel),
    RunAction { projects: Seq<ProjectModel>, action: Action },
    DeleteProjects { projects: Seq<ProjectModel>, purge: bool },
}

impl View for KeyOutcome {
    type V = KeyOutcomeModel;

    open spec fn view(&self) -> KeyOutcomeModel {
        match self {
            KeyOutcome::Continue => KeyOutcomeModel::Continue,
            KeyOutcome::Quit => KeyOutcomeModel::Quit,
            KeyOutcome::OpenEditor(launch) => KeyOutcomeModel::OpenEditor(launch@),
            KeyOutcome::OpenShell(launch) => KeyOutcomeModel::OpenShell(launch@),
            KeyOutcome::CreateProject(new) => KeyOutcomeModel::CreateProject(new@),
            KeyOutcome::RunAction { projects, action } => KeyOutcomeModel::RunAction {
                projects: projects.deep_view(),
                action: *action,
            },
            KeyOutcome::DeleteProjects { projects, purge } => KeyOutcomeModel::DeleteProjects {
                projects: projects.deep_view(),
                purge: *purge,
            },
        }
    }
}

/// A report from the background.
#[derive(Debug)]
pub enum TuiEvent {
    StatusesLoaded(Vec<ProjectStatus>),
    StatusRefreshFailed(String),
    CommandStarted { project: String, command: String },
    CommandOutput { line: String, stderr: bool },
    CommandFinished { project: String, success: bool, exit_code: Option<i32> },
    BatchFinished(ActionBatchResult),
}

/// A [`TuiEvent`] as plain values.
#[verifier::ext_equal]
pub enum EventModel {
    StatusesLoaded(Seq<StatusModel>),
    StatusRefreshFailed(Seq<char>),
    CommandStarted { project: Seq<char>, command: Seq<char> },
    CommandOutput { line: Seq<char>, stderr: bool },
    CommandFinished { project: Seq<char>, success: bool, exit_code: Option<i32> },
    BatchFinished(Seq<FailureModel>),
}

impl View for TuiEvent {
    type V = EventModel;

    open spec fn view(&self) -> EventModel {
        match self {
            TuiEvent::StatusesLoaded(statuses) => EventModel::StatusesLoaded(statuses.deep_view()),
            TuiEvent::StatusRefreshFailed(message) => EventModel::StatusRefreshFailed(message@),
            TuiEvent::CommandStarted { project, command } => EventModel::CommandStarted {
                project: project@,
                command: command@,
            },
            TuiEvent::CommandOutput { line, stderr } => EventModel::CommandOutput {
                line: line@,
                stderr: *stderr,
            },
            TuiEvent::CommandFinished { project, success, exit_code } =>
                EventModel::CommandFinished {
                project: project@,
                success: *success,
                exit_code: *exit_code,
            },
            TuiEvent::BatchFinished(result) => EventModel::BatchFinished(result@),
        }
    }
}

/// The state of the screen.
#[derive(Debug)]
pub struct App {
    pub config: AppConfig,
    pub statuses: Vec<ProjectStatus>,
    pub selected_index: usize,
    pub marked: NameSet,
    pub focus: Focus,
    pub input_mode: InputMode,
    pub filter: String,
    pub output: std::collections::VecDeque<OutputLine>,
    pub output_scroll: u16,
    pub details_scroll: u16,
    pub refresh_inflight: bool,
    pub command_running: bool,
    pub status_message: String,
    pub last_command: Option<String>,
    pub show_help: bool,
    pub help_scroll: u16,
    pub pending_action: Option<PendingAction>,
    pub shell_container_index: usize,
    pub new_project_name: String,
    pub new_project_error: Option<String>,
}

/// An [`App`] as plain values.
#[verifier::ext_equal]
pub struct AppModel {
    pub config: ConfigModel,
    pub statuses: Seq<StatusModel>,
    pub selected_index: nat,
    pub marked: Set<Seq<char>>,
    pub focus: Focus,
    pub input_mode: InputMode,
    pub filter: Seq<char>,
    pub output: Seq<LineModel>,
    pub output_scroll: u16,
    pub details_scroll: u16,
    pub refresh_inflight: bool,
    pub command_running: bool,
    pub status_message: Seq<char>,
    pub last_command: Option<Seq<char>>,
    pub show_help: bool,
    pub help_scroll: u16,
    pub pending_action: Option<PendingModel>,
    pub shell_container_index: nat,
    pub new_project_name: Seq<char>,
    pub new_project_error: Option<Seq<char>>,
}

impl View for App {
    type V = AppModel;

    open spec fn view(&self) -> AppModel {
        AppModel {
            config: self.config@,
            statuses: self.statuses.deep_view(),
            selected_index: self.selected_index as nat,
            marked: self.marked@,
            focus: self.focus,
            input_mode: self.input_mode,
            filter: self.filter@,
            output: self.output.deep_view(),
            output_scroll: self.output_scroll,
            details_scroll: self.details_scroll,
            refresh_inflight: self.refresh_inflight,
            command_running: self.command_running,
            status_message: self.status_message@,
            last_command: self.last_command.deep_view(),
            show_help: self.show_help,
            help_scroll: self.help_scroll,
            pending_action: self.pending_action.deep_view(),
            shell_container_index: self.shell_container_index as nat,
            new_project_name: self.new_project_name@,
            new_project_error: self.new_project_error.deep_view(),
        }
    }
}

/// The first project with the given name.
pub open spec fn status_named(statuses: Seq<StatusModel>, name: Seq<char>) -> Option<StatusModel>
    decreases statuses.len(),
{
    if statuses.len() == 0 {
        None
    } else if statuses[0].project.name == name {
        Some(statuses[0])
    } else {
        status_named(statuses.drop_first(), name)
    }
}

/// The containers that are running.
pub open spec fn running_among(containers: Seq<ContainerModel>) -> Seq<ContainerModel> {
    containers.filter(|container: ContainerModel| container.running())
}

impl AppModel {
    /// The screen at the start.
    pub open spec fn start(config: ConfigModel) -> AppModel {
        AppModel {
            config,
            statuses: seq![],
            selected_index: 0,
            marked: Set::empty(),
            focus: Focus::Projects,
            input_mode: InputMode::Normal,
            filter: seq![],
            output: seq![],
            output_scroll: 0,
            details_scroll: 0,
            refresh_inflight: false,
            command_running: false,
            status_message: "Loading project status..."@,
            last_command: None,
            show_help: false,
            help_scroll: 0,
            pending_action: None,
            shell_container_index: 0,
            new_project_name: seq![],
            new_project_error: None,
        }
    }

    /// Whether the filter lets a project through.
    pub open spec fn lets_through(self, name: Seq<char>) -> bool {
        self.filter.len() == 0 || text::contains_text(name, self.filter)
    }

    /// The names of the projects in the list.
    pub open spec fn visible(self) -> Seq<Seq<char>> {
        self.statuses.map_values(|status: StatusModel| status.project.name).filter(
            |name: Seq<char>| self.lets_through(name),
        )
    }

    /// The highlighted project.
    pub open spec fn selected(self) -> Option<StatusModel> {
        if self.selected_index < self.visible().len() {
            status_named(self.statuses, self.visible()[self.selected_index as int])
        } else {
            None
        }
    }

    /// The running containers of the highlighted project.
    pub open spec fn shell_containers(self) -> Seq<ContainerModel> {
        match self.selected() {
            Some(status) => running_among(status.containers),
            None => seq![],
        }
    }

    /// The projects that an action runs on: those marked where several are, and otherwise the
    /// highlighted one.
    pub open spec fn selected_projects(self) -> Seq<ProjectModel> {
        if self.marked.len() >= 2 {
            self.statuses.filter(
                |status: StatusModel| self.marked.contains(status.project.name),
            ).map_values(|status: StatusModel| status.project)
        } else {
            match self.selected() {
                Some(status) => seq![status.project],
                None => seq![],
            }
        }
    }

    /// The screen with another message.
    pub open spec fn with_message(self, message: Seq<char>) -> AppModel {
        AppModel { status_message: message, ..self }
    }

    /// The screen with one line of output more. Beyond the limit the oldest line goes.
    pub open spec fn with_output(self, text: Seq<char>, stderr: bool) -> AppModel {
        let kept = if self.output.len() == OUTPUT_LIMIT {
            self.output.drop_first()
        } else {
            self.output
        };
        let output = kept.push(LineModel { text, stderr });
        AppModel { output, output_scroll: ((output.len() - 1) % 0x1_0000) as u16, ..self }
    }
}

impl App {
    /// The screen at the start.
    pub fn new(config: AppConfig) -> (app: App)
        ensures
            app@ == AppModel::start(config@),
    {
        let app = App {
            config,
            statuses: Vec::new(),
            selected_index: 0,
            marked: NameSet::new(),
            focus: Focus::Projects,
            input_mode: InputMode::Normal,
            filter: String::new(),
            output: std::collections::VecDeque::new(),
            output_scroll: 0,
            details_scroll: 0,
            refresh_inflight: false,
            command_running: false,
            status_message: "Loading project status...".to_owned(),
            last_command: None,
            show_help: false,
            help_scroll: 0,
            pending_action: None,
            shell_container_index: 0,
            new_project_name: String::new(),
            new_project_error: None,
        };
        assert(app@ =~= AppModel::start(config@));
        app
    }

    /// The names of the projects in the list.
    pub fn visible_project_names(&self) -> (names: Vec<String>)
        ensures
            names.deep_view() == self@.visible(),
    {
        let ghost views = self.statuses.deep_view();
        let ghost all = views.map_values(|status: StatusModel| status.project.name);
        let ghost pred = |name: Seq<char>| self@.lets_through(name);
        let mut names: Vec<String> = Vec::new();
        proof {
            reveal(Seq::filter);
            assert(names.deep_view() =~= all.take(0).filter(pred));
        }
        for i in 0..self.statuses.len()
            invariant
                views == self.statuses.deep_view(),
                all == views.map_values(|status: StatusModel| status.project.name),
                pred == (|name: Seq<char>| self@.lets_through(name)),
                names.deep_view() == all.take(i as int).filter(pred),
        {
            let ghost before = names.deep_view();
            let name = &self.statuses[i].project.name;
            proof {
                assert(views[i as int] == self.statuses@[i as int]@);
                assert(all[i as int] == name@);
                assert(all.take(i + 1) =~= all.take(i as int).push(name@));
                all.take(i as int).lemma_filter_push(name@, pred);
            }
            if self.filter.unicode_len() == 0 || text::text_contains(name, &self.filter) {
                names.push(name.clone());
                assert(names.deep_view() =~= before.push(name@));
            }
        }
        assert(all.take(all.len() as int) =~= all);
        names
    }

    fn status_with_name(&self, name: &str) -> (status: Option<&ProjectStatus>)
        ensures
            match status {
                Some(status) => status_named(self.statuses.deep_view(), name@) == Some(status@),
                None => status_named(self.statuses.deep_view(), name@) is None,
            },
    {
        let ghost views = self.statuses.deep_view();
        assert(views.skip(0) =~= views);
        for i in 0..self.statuses.len()
            invariant
                views == self.statuses.deep_view(),
                status_named(views, name@) == status_named(views.skip(i as int), name@),
        {
            assert(views.skip(i as int)[0] == self.statuses@[i as int]@);
            assert(views.skip(i as int).drop_first() =~= views.skip(i + 1));
            if text::same_text(&self.statuses[i].project.name, name) {
                return Some(&self.statuses[i]);
            }
        }
        None
    }

    /// The highlighted project.
    pub fn selected_status(&self) -> (status: Option<&ProjectStatus>)
        ensures
            match status {
                Some(status) => self@.selected() == Some(status@),
                None => self@.selected() is None,
            },
    {
        let visible = self.visible_project_names();
        if self.selected_index < visible.len() {
            assert(self@.visible()[self.selected_index as int]
                == visible@[self.selected_index as int]@);
            self.status_with_name(&visible[self.selected_index])
        } else {
            None
        }
    }

    /// The projects that an action runs on: those marked where several are, and otherwise the
    /// highlighted one.
    pub fn selected_projects(&self) -> (projects: Vec<Project>)
        ensures
            projects.deep_view() == self@.selected_projects(),
    {
        let mut projects: Vec<Project> = Vec::new();
        if !self.marked.has_several() {
            if let Some(status) = self.selected_status() {
                projects.push(status.project.clone());
            }
            assert(projects.deep_view() =~= self@.selected_projects());
            return projects;
        }
        let ghost views = self.statuses.deep_view();
        let ghost pred = |status: StatusModel| self@.marked.contains(status.project.name);
        let ghost of = |status: StatusModel| status.project;
        proof {
            reveal(Seq::filter);
            assert(projects.deep_view() =~= views.take(0).filter(pred).map_values(of));
        }
        for i in 0..self.statuses.len()
            invariant
                views == self.statuses.deep_view(),
                pred == (|status: StatusModel| self@.marked.contains(status.project.name)),
                of == (|status: StatusModel| status.project),
                projects.deep_view() == views.take(i as int).filter(pred).map_values(of),
        {
            let ghost before = projects.deep_view();
            let status = &self.statuses[i];
            proof {
                assert(views[i as int] == status@);
                assert(views.take(i + 1) =~= views.take(i as int).push(status@));
                views.take(i as int).lemma_filter_push(status@, pred);
            }
            if self.marked.contains(&status.project.name) {
                projects.push(status.project.clone());
                assert(projects.deep_view() =~= before.push(status@.project));
                assert(projects.deep_view() =~= views.take(i + 1).filter(pred).map_values(of));
            }
        }
        assert(views.take(views.len() as int) =~= views);
        projects
    }

    /// Adds a line of output.
    pub fn push_output(&mut self, line: String, stderr: bool)
        ensures
            final(self)@ == old(self)@.with_output(line@, stderr),
    {
        let ghost before = self.output.deep_view();
        if self.output.len() == OUTPUT_LIMIT {
            self.output.pop_front();
            assert(self.output.deep_view() =~= before.drop_first());
        }
        let ghost kept = self.output.deep_view();
        self.output.push_back(OutputLine { text: line, stderr });
        assert(self.output.deep_view() =~= kept.push(LineModel { text: line@, stderr }));
        self.output_scroll = ((self.output.len() - 1) % 0x1_0000) as u16;
    }
}

/// The panel that gets the focus next.
pub open spec fn focus_after(current: Focus) -> Focus {
    match current {
        Focus::Projects => Focus::Details,
        Focus::Details => Focus::Output,
        Focus::Output => Focus::Projects,
    }
}

/// The panel that gets the focus next.
pub fn next_focus(current: Focus) -> (next: Focus)
    ensures
        next == focus_after(current),
{
    match current {
        Focus::Projects => Focus::Details,
        Focus::Details => Focus::Output,
        Focus::Output => Focus::Projects,
    }
}

/// The focus goes through all panels and comes back.
pub proof fn focus_comes_round(current: Focus)
    ensures
        focus_after(focus_after(focus_after(current))) == current,
        focus_after(current) != current,
        focus_after(focus_after(current)) != current,
{
}

/// A scroll position moved by `delta`, within what a position can be.
pub open spec fn scroll_moved(current: u16, delta: int) -> u16 {
    let moved = current + delta;
    if moved < 0 {
        0
    } else if moved > u16::MAX {
        u16::MAX
    } else {
        moved as u16
    }
}

/// Moves a scroll position.
pub fn adjust_scroll(current: u16, delta: i16) -> (scroll: u16)
    ensures
        scroll == scroll_moved(current, delta as int),
{
    if delta >= 0 {
        current.saturating_add(delta as u16)
    } else {
        let back: i32 = -(delta as i32);
        current.saturating_sub(back as u16)
    }
}

/// A set with a name put in, or taken out where it was in.
pub open spec fn toggled(names: Set<Seq<char>>, name: Seq<char>) -> Set<Seq<char>> {
    if names.contains(name) {
        names.remove(name)
    } else {
        names.insert(name)
    }
}

/// A set with each of several names toggled in turn.
pub open spec fn toggled_each(names: Set<Seq<char>>, each: Seq<Seq<char>>) -> Set<Seq<char>>
    decreases each.len(),
{
    if each.len() == 0 {
        names
    } else {
        toggled(toggled_each(names, each.drop_last()), each.last())
    }
}

/// A message with a number in it.
pub open spec fn count_text(before: Seq<char>, count: nat, after: Seq<char>) -> Seq<char> {
    before + text::decimal_text(count) + after
}

impl AppModel {
    /// The screen with the highlight inside the list.
    pub open spec fn clamped(self) -> AppModel {
        let len = self.visible().len();
        if len == 0 {
            AppModel { selected_index: 0, ..self }
        } else if self.selected_index >= len {
            AppModel { selected_index: (len - 1) as nat, ..self }
        } else {
            self
        }
    }

    /// The screen after a step down in the panel that has the focus.
    pub open spec fn moved_down(self) -> AppModel {
        match self.focus {
            Focus::Projects => {
                let len = self.visible().len();
                if len == 0 {
                    self
                } else if self.selected_index + 1 < len {
                    AppModel { selected_index: self.selected_index + 1, ..self }
                } else {
                    AppModel { selected_index: (len - 1) as nat, ..self }
                }
            },
            Focus::Details => AppModel {
                details_scroll: scroll_moved(self.details_scroll, 1),
                ..self
            },
            Focus::Output => AppModel {
                output_scroll: scroll_moved(self.output_scroll, 1),
                ..self
            },
        }
    }

    /// The screen after a step up in the panel that has the focus.
    pub open spec fn moved_up(self) -> AppModel {
        match self.focus {
            Focus::Projects => if self.selected_index > 0 {
                AppModel { selected_index: (self.selected_index - 1) as nat, ..self }
            } else {
                self
            },
            Focus::Details => AppModel {
                details_scroll: scroll_moved(self.details_scroll, -1),
                ..self
            },
            Focus::Output => AppModel {
                output_scroll: scroll_moved(self.output_scroll, -1),
                ..self
            },
        }
    }

    /// The screen after a page in the panel that has the focus. The list of projects has no pages.
    pub open spec fn scrolled(self, delta: int) -> AppModel {
        match self.focus {
            Focus::Projects => self,
            Focus::Details => AppModel {
                details_scroll: scroll_moved(self.details_scroll, delta),
                ..self
            },
            Focus::Output => AppModel {
                output_scroll: scroll_moved(self.output_scroll, delta),
                ..self
            },
        }
    }

    /// The screen with the mark of the highlighted project toggled.
    pub open spec fn mark_toggled(self) -> AppModel {
        if self.selected_index < self.visible().len() {
            AppModel {
                marked: toggled(self.marked, self.visible()[self.selected_index as int]),
                ..self
            }
        } else {
            self
        }
    }

    /// Whether all projects in the list are marked.
    pub open spec fn all_visible_marked(self) -> bool {
        forall|i: int|
            0 <= i < self.visible().len() ==> self.marked.contains(#[trigger] self.visible()[i])
    }

    /// The screen with all projects in the list marked, or with their marks taken off where all have
    /// one.
    pub open spec fn all_toggled(self) -> AppModel {
        let visible = self.visible();
        if visible.len() == 0 {
            self.with_message("No visible projects"@)
        } else if self.all_visible_marked() {
            (AppModel { marked: self.marked.difference(visible.to_set()), ..self }).with_message(
                count_text("Cleared "@, visible.len(), " visible project(s)"@),
            )
        } else {
            (AppModel { marked: self.marked.union(visible.to_set()), ..self }).with_message(
                count_text("Selected "@, visible.len(), " visible project(s)"@),
            )
        }
    }

    /// The screen with the mark of each project in the list toggled.
    pub open spec fn inverted(self) -> AppModel {
        let visible = self.visible();
        if visible.len() == 0 {
            self.with_message("No visible projects"@)
        } else {
            (AppModel { marked: toggled_each(self.marked, visible), ..self }).with_message(
                count_text("Inverted "@, visible.len(), " visible project(s)"@),
            )
        }
    }
}

fn toggle_name(names: &mut NameSet, name: &str)
    ensures
        final(names)@ == toggled(old(names)@, name@),
{
    if !names.insert(name.to_owned()) {
        names.remove(name);
        assert(names@ =~= old(names)@.remove(name@));
    }
}

/// Writes a message with a number in it.
pub fn write_count(before: &str, count: usize, after: &str) -> (text: String)
    ensures
        text@ == count_text(before@, count as nat, after@),
{
    before.to_owned().concat(&text::decimal(count as u64)).concat(after)
}

impl App {
    /// Brings the highlight back into the list.
    pub fn clamp_selection(&mut self)
        ensures
            final(self)@ == old(self)@.clamped(),
    {
        let len: usize = self.visible_project_names().len();
        assert(len == self@.visible().len());
        if len == 0 {
            self.selected_index = 0;
        } else if self.selected_index >= len {
            self.selected_index = len - 1;
        }
    }

    /// A step down in the panel that has the focus.
    pub fn move_down(&mut self)
        ensures
            final(self)@ == old(self)@.moved_down(),
    {
        match self.focus {
            Focus::Projects => {
                let len: usize = self.visible_project_names().len();
                assert(len == self@.visible().len());
                if len > 0 {
                    self.selected_index = if self.selected_index < len - 1 {
                        self.selected_index + 1
                    } else {
                        len - 1
                    };
                }
            },
            Focus::Details => {
                self.details_scroll = adjust_scroll(self.details_scroll, 1);
            },
            Focus::Output => {
                self.output_scroll = adjust_scroll(self.output_scroll, 1);
            },
        }
    }

    /// A step up in the panel that has the focus.
    pub fn move_up(&mut self)
        ensures
            final(self)@ == old(self)@.moved_up(),
    {
        match self.focus {
            Focus::Projects => {
                if self.selected_index > 0 {
                    self.selected_index = self.selected_index - 1;
                }
            },
            Focus::Details => {
                self.details_scroll = adjust_scroll(self.details_scroll, -1);
            },
            Focus::Output => {
                self.output_scroll = adjust_scroll(self.output_scroll, -1);
            },
        }
    }

    /// A page in the panel that has the focus.
    pub fn scroll_active(&mut self, delta: i16)
        ensures
            final(self)@ == old(self)@.scrolled(delta as int),
    {
        match self.focus {
            Focus::Projects => {},
            Focus::Details => {
                self.details_scroll = adjust_scroll(self.details_scroll, delta);
            },
            Focus::Output => {
                self.output_scroll = adjust_scroll(self.output_scroll, delta);
            },
        }
    }

    /// Marks the highlighted project, or takes its mark off.
    pub fn toggle_mark(&mut self)
        ensures
            final(self)@ == old(self)@.mark_toggled(),
    {
        let visible = self.visible_project_names();
        if self.selected_index < visible.len() {
            assert(self@.visible()[self.selected_index as int]
                == visible@[self.selected_index as int]@);
            toggle_name(&mut self.marked, &visible[self.selected_index]);
        }
    }

    /// Marks all projects in the list, or takes their marks off where all have one.
    pub fn toggle_select_all_visible(&mut self)
        ensures
            final(self)@ == old(self)@.all_toggled(),
    {
        let visible = self.visible_project_names();
        if visible.len() == 0 {
            self.status_message = "No visible projects".to_owned();
            return;
        }
        let ghost names = visible.deep_view();
        let ghost before = self.marked@;
        let mut all = true;
        for i in 0..visible.len()
            invariant
                names == visible.deep_view(),
                all == forall|j: int| 0 <= j < i ==> self.marked@.contains(#[trigger] names[j]),
        {
            assert(names[i as int] == visible@[i as int]@);
            if !self.marked.contains(&visible[i]) {
                all = false;
            }
        }
        if all {
            for i in 0..visible.len()
                invariant
                    names == visible.deep_view(),
                    self.marked@ == before.difference(names.take(i as int).to_set()),
                    *self == (App { marked: self.marked, ..*old(self) }),
            {
                self.marked.remove(&visible[i]);
                proof {
                    assert(names[i as int] == visible@[i as int]@);
                    assert(names.take(i + 1) =~= names.take(i as int).push(names[i as int]));
                    pushed_set(names.take(i as int), names[i as int]);
                    assert(self.marked@ =~= before.difference(names.take(i + 1).to_set()));
                }
            }
            self.status_message = write_count("Cleared ", visible.len(), " visible project(s)");
        } else {
            for i in 0..visible.len()
                invariant
                    names == visible.deep_view(),
                    self.marked@ == before.union(names.take(i as int).to_set()),
                    *self == (App { marked: self.marked, ..*old(self) }),
            {
                self.marked.insert(visible[i].clone());
                proof {
                    assert(names[i as int] == visible@[i as int]@);
                    assert(names.take(i + 1) =~= names.take(i as int).push(names[i as int]));
                    pushed_set(names.take(i as int), names[i as int]);
                    assert(self.marked@ =~= before.union(names.take(i + 1).to_set()));
                }
            }
            self.status_message = write_count("Selected ", visible.len(), " visible project(s)");
        }
        assert(names.take(names.len() as int) =~= names);
    }

    /// Toggles the mark of each project in the list.
    pub fn invert_visible_selection(&mut self)
        ensures
            final(self)@ == old(self)@.inverted(),
    {
        let visible = self.visible_project_names();
        if visible.len() == 0 {
            self.status_message = "No visible projects".to_owned();
            return;
        }
        let ghost names = visible.deep_view();
        let ghost before = self.marked@;
        for i in 0..visible.len()
            invariant
                names == visible.deep_view(),
                self.marked@ == toggled_each(before, names.take(i as int)),
                *self == (App { marked: self.marked, ..*old(self) }),
        {
            toggle_name(&mut self.marked, &visible[i]);
            assert(names[i as int] == visible@[i as int]@);
            assert(names.take(i + 1).drop_last() =~= names.take(i as int));
        }
        assert(names.take(names.len() as int) =~= names);
        self.status_message = write_count("Inverted ", visible.len(), " visible project(s)");
    }
}

proof fn pushed_set(names: Seq<Seq<char>>, name: Seq<char>)
    ensures
        names.push(name).to_set() == names.to_set().insert(name),
{
    let longer = names.push(name);
    assert forall|other: Seq<char>| #[trigger] longer.contains(other) == (names.contains(other)
        || other == name) by {
        if names.contains(other) {
            let i = choose|i: int| 0 <= i < names.len() && names[i] == other;
            assert(longer[i] == other);
        }
        if other == name {
            assert(longer[names.len() as int] == other);
        }
    }
    assert(longer.to_set() =~= names.to_set().insert(name));
}

impl KeyEvent {
    /// A key with the keys held down with it.
    pub fn new(code: KeyCode, modifiers: KeyModifiers) -> (key: KeyEvent)
        ensures
            key.code == code,
            key.modifiers == modifiers,
    {
        KeyEvent { code, modifiers }
    }
}

/// The running containers of a project.
pub fn running_containers(status: &ProjectStatus) -> (containers: Vec<&ContainerStatus>)
    ensures
        containers.deep_view() == running_among(status@.containers),
{
    let ghost views = status.containers.deep_view();
    let ghost pred = |container: ContainerModel| container.running();
    let mut containers: Vec<&ContainerStatus> = Vec::new();
    proof {
        reveal(Seq::filter);
        assert(containers.deep_view() =~= views.take(0).filter(pred));
    }
    for i in 0..status.containers.len()
        invariant
            views == status.containers.deep_view(),
            pred == (|container: ContainerModel| container.running()),
            containers.deep_view() == views.take(i as int).filter(pred),
    {
        let ghost before = containers.deep_view();
        let container = &status.containers[i];
        proof {
            assert(views[i as int] == container@);
            assert(views.take(i + 1) =~= views.take(i as int).push(container@));
            views.take(i as int).lemma_filter_push(container@, pred);
        }
        if container.is_running() {
            containers.push(container);
            assert(containers.deep_view() =~= before.push(container@));
        }
    }
    assert(views.take(views.len() as int) =~= views);
    containers
}

/// Failures in one line: `project: message`, with ` | ` between them.
pub open spec fn failures_text(failures: Seq<FailureModel>) -> Seq<char> {
    text::joined(
        failures.map_values(|failure: FailureModel| failure.project + ": "@ + failure.message),
        " | "@,
    )
}

/// Writes failures in one line.
pub fn format_failures(failures: &Vec<ProjectFailure>) -> (line: String)
    ensures
        line@ == failures_text(failures.deep_view()),
{
    let ghost wanted = failures.deep_view().map_values(
        |failure: FailureModel| failure.project + ": "@ + failure.message,
    );
    let mut parts: Vec<String> = Vec::new();
    for i in 0..failures.len()
        invariant
            wanted == failures.deep_view().map_values(
                |failure: FailureModel| failure.project + ": "@ + failure.message,
            ),
            parts.deep_view() == wanted.take(i as int),
    {
        let ghost before = parts.deep_view();
        let failure = &failures[i];
        assert(failures.deep_view()[i as int] == failure@);
        parts.push(failure.project.clone().concat(": ").concat(&failure.message));
        assert(parts.deep_view() =~= before.push(wanted[i as int]));
        assert(parts.deep_view() =~= wanted.take(i + 1));
    }
    assert(wanted.take(wanted.len() as int) =~= wanted);
    text::join_texts(&parts, " | ")
}

impl AppModel {
    /// The screen with the help open at its top.
    pub open spec fn help_opened(self) -> AppModel {
        AppModel { show_help: true, help_scroll: 0, ..self }
    }

    /// The screen without the help.
    pub open spec fn help_closed(self) -> AppModel {
        AppModel { show_help: false, help_scroll: 0, ..self }
    }

    /// The screen with the help scrolled, to its last line at most.
    pub open spec fn help_scrolled(self, delta: int) -> AppModel {
        let moved = scroll_moved(self.help_scroll, delta);
        let last = (HELP_LINE_COUNT - 1) as u16;
        AppModel {
            help_scroll: if moved < last {
                moved
            } else {
                last
            },
            ..self
        }
    }

    /// The screen that asks for an action to be confirmed, where there is anything to act on.
    pub open spec fn asking(self, label: Seq<char>, action: TuiAction) -> AppModel {
        let count = self.selected_projects().len();
        if count == 0 {
            self.with_message("No project selected"@)
        } else {
            (AppModel { pending_action: Some(PendingModel { label, action }), ..self }).with_message(
                count_text("Confirm "@ + label + " for "@, count, " project(s)"@),
            )
        }
    }

    /// The screen once an action has been started, and what is asked for.
    pub open spec fn started(self, action: TuiAction) -> (AppModel, KeyOutcomeModel) {
        let projects = self.selected_projects();
        if projects.len() == 0 {
            (self.with_message("No project selected"@), KeyOutcomeModel::Continue)
        } else {
            (
                AppModel { command_running: true, ..self },
                match action {
                    TuiAction::Compose(action) => KeyOutcomeModel::RunAction { projects, action },
                    TuiAction::DeleteProjectFiles => KeyOutcomeModel::DeleteProjects {
                        projects,
                        purge: false,
                    },
                    TuiAction::PurgeProject => KeyOutcomeModel::DeleteProjects {
                        projects,
                        purge: true,
                    },
                },
            )
        }
    }

    /// The screen once an editor has been asked for, and the editor.
    pub open spec fn editing(
        self,
        target_label: Seq<char>,
        path: Seq<u8>,
        create_missing: bool,
        editor: Option<Seq<char>>,
    ) -> (AppModel, Option<EditorModel>) {
        match editor {
            None => (self.with_message("set VISUAL or EDITOR to edit files"@), None),
            Some(editor) => (
                self.with_message("Opening editor for "@ + target_label),
                Some(
                    EditorModel {
                        editor,
                        target_label,
                        path,
                        create_missing,
                        created_project: None,
                    },
                ),
            ),
        }
    }

    /// The screen once the compose file of the highlighted project is to be edited.
    pub open spec fn editing_compose(self, editor: Option<Seq<char>>) -> (
        AppModel,
        Option<EditorModel>,
    ) {
        match self.selected() {
            None => (self.with_message("No project selected"@), None),
            Some(status) => self.editing(
                "compose for "@ + status.project.name,
                status.project.compose_file,
                false,
                editor,
            ),
        }
    }

    /// The screen once the env file of the highlighted project is to be edited.
    pub open spec fn editing_env(self, editor: Option<Seq<char>>) -> (
        AppModel,
        Option<EditorModel>,
    ) {
        match self.selected() {
            None => (self.with_message("No project selected"@), None),
            Some(status) => self.editing(
                ".env for "@ + status.project.name,
                native::path_below(status.project.dir, encode_utf8(".env"@)),
                true,
                editor,
            ),
        }
    }

    /// The screen once the global env file is to be edited.
    pub open spec fn editing_global_env(self, editor: Option<Seq<char>>) -> (
        AppModel,
        Option<EditorModel>,
    ) {
        self.editing(".env.global"@, config::global_env_file(self.config.compose_dir), true, editor)
    }

    /// The screen once a shell has been asked for: it offers the running containers of the
    /// highlighted project.
    pub open spec fn choosing_container(self) -> AppModel {
        match self.selected() {
            None => self.with_message("No project selected"@),
            Some(status) => if running_among(status.containers).len() == 0 {
                self.with_message("No running containers"@)
            } else {
                (AppModel {
                    input_mode: InputMode::ContainerShell,
                    shell_container_index: 0,
                    ..self
                }).with_message("Select container for "@ + status.project.name)
            },
        }
    }

    /// The screen with the choice of container moved, inside the list.
    pub open spec fn container_moved(self, delta: int) -> AppModel {
        let len = self.shell_containers().len();
        let moved = scroll_moved((self.shell_container_index % 0x1_0000) as u16, delta) as nat;
        AppModel {
            shell_container_index: if len == 0 {
                0
            } else if moved < len {
                moved
            } else {
                (len - 1) as nat
            },
            ..self
        }
    }

    /// The screen once the chosen container has been looked up, and the shell to open in it.
    pub open spec fn chosen_shell(self) -> (AppModel, Option<ShellModel>) {
        match self.selected() {
            None => (self.with_message("No project selected"@), None),
            Some(status) => {
                let containers = running_among(status.containers);
                if self.shell_container_index < containers.len() {
                    let container = containers[self.shell_container_index as int];
                    (
                        self,
                        Some(
                            ShellModel {
                                docker_bin: self.config.docker_bin,
                                project_name: status.project.name,
                                container_id: container.id,
                                container_name: container.name,
                            },
                        ),
                    )
                } else {
                    (self.with_message("No running containers"@), None)
                }
            },
        }
    }

    /// The screen without the choice of container.
    pub open spec fn choice_closed(self) -> AppModel {
        AppModel { input_mode: InputMode::Normal, shell_container_index: 0, ..self }
    }

    /// The screen without the name of a new project.
    pub open spec fn name_cleared(self, mode: InputMode) -> AppModel {
        AppModel { input_mode: mode, new_project_name: seq![], new_project_error: None, ..self }
    }

    /// The screen with something wrong with a new project.
    pub open spec fn name_refused(self, message: Seq<char>) -> AppModel {
        (AppModel { new_project_error: Some(message), ..self }).with_message(message)
    }

    /// The screen once the name of a new project has been entered, and the project to create.
    pub open spec fn name_entered(self, editor: Option<Seq<char>>) -> (
        AppModel,
        Option<NewProjectModel>,
    ) {
        let name = self.new_project_name;
        if !project::valid_project_name(name) {
            (self.name_refused(project::name_error(name).message_text()), None)
        } else {
            match editor {
                None => (
                    self.name_cleared(InputMode::Normal).with_message(
                        "set VISUAL or EDITOR to create projects"@,
                    ),
                    None,
                ),
                Some(editor) => (
                    self,
                    Some(
                        NewProjectModel {
                            compose_dir: self.config.compose_dir,
                            project: project::new_project(self.config.compose_dir, name),
                            contents: "services: {}\n"@,
                            editor,
                        },
                    ),
                ),
            }
        }
    }

    /// The screen once a new project has been created, or could not be, and the editor to open on it.
    pub open spec fn project_created(
        self,
        editor: Seq<char>,
        result: Result<ProjectModel, Seq<char>>,
    ) -> (AppModel, Option<EditorModel>) {
        match result {
            Err(message) => (self.name_refused(message), None),
            Ok(project) => (
                self.name_cleared(InputMode::Normal).with_message(
                    "Opening editor for "@ + project.name,
                ),
                Some(
                    EditorModel {
                        editor,
                        target_label: project.name,
                        path: project.compose_file,
                        create_missing: false,
                        created_project: Some(project.name),
                    },
                ),
            ),
        }
    }
}

impl App {
    /// Opens the help.
    pub fn open_help(&mut self)
        ensures
            final(self)@ == old(self)@.help_opened(),
    {
        self.show_help = true;
        self.help_scroll = 0;
    }

    /// Scrolls the help.
    pub fn scroll_help(&mut self, delta: i16)
        ensures
            final(self)@ == old(self)@.help_scrolled(delta as int),
    {
        let last: u16 = (HELP_LINE_COUNT - 1) as u16;
        let moved = adjust_scroll(self.help_scroll, delta);
        self.help_scroll = if moved < last {
            moved
        } else {
            last
        };
    }

    /// Asks for an action to be confirmed.
    pub fn confirm_action(&mut self, label: &'static str, action: TuiAction)
        ensures
            final(self)@ == old(self)@.asking(label@, action),
    {
        let count: usize = self.selected_projects().len();
        assert(count == self@.selected_projects().len());
        if count == 0 {
            self.status_message = "No project selected".to_owned();
            return;
        }
        self.pending_action = Some(PendingAction { label, action });
        self.status_message = write_count(
            &"Confirm ".to_owned().concat(label).concat(" for "),
            count,
            " project(s)",
        );
    }

    /// Starts an action on the selected projects.
    pub fn start_action(&mut self, action: TuiAction) -> (outcome: KeyOutcome)
        ensures
            (final(self)@, outcome@) == old(self)@.started(action),
    {
        let projects = self.selected_projects();
        assert(projects.deep_view().len() == projects@.len());
        if projects.len() == 0 {
            self.status_message = "No project selected".to_owned();
            return KeyOutcome::Continue;
        }
        self.command_running = true;
        match action {
            TuiAction::Compose(action) => KeyOutcome::RunAction { projects, action },
            TuiAction::DeleteProjectFiles => KeyOutcome::DeleteProjects { projects, purge: false },
            TuiAction::PurgeProject => KeyOutcome::DeleteProjects { projects, purge: true },
        }
    }

    /// Asks for an editor.
    pub fn build_editor_launch(
        &mut self,
        target_label: String,
        path: NativeString,
        create_missing: bool,
        editor: Option<String>,
    ) -> (launch: Option<EditorLaunch>)
        ensures
            (final(self)@, launch.deep_view()) == old(self)@.editing(
                target_label@,
                path@,
                create_missing,
                editor.deep_view(),
            ),
    {
        let Some(editor) = editor else {
            self.status_message = "set VISUAL or EDITOR to edit files".to_owned();
            return None;
        };
        self.status_message = "Opening editor for ".to_owned().concat(&target_label);
        Some(EditorLaunch { editor, target_label, path, create_missing, created_project: None })
    }

    /// Asks for an editor on the compose file of the highlighted project.
    pub fn edit_selected_compose(&mut self, editor: Option<String>) -> (launch: Option<EditorLaunch>)
        ensures
            (final(self)@, launch.deep_view()) == old(self)@.editing_compose(editor.deep_view()),
    {
        let (label, path) = match self.selected_status() {
            Some(status) => (
                "compose for ".to_owned().concat(&status.project.name),
                status.project.compose_file.clone(),
            ),
            None => {
                self.status_message = "No project selected".to_owned();
                return None;
            },
        };
        self.build_editor_launch(label, path, false, editor)
    }

    /// Asks for an editor on the env file of the highlighted project.
    pub fn edit_selected_env(&mut self, editor: Option<String>) -> (launch: Option<EditorLaunch>)
        ensures
            (final(self)@, launch.deep_view()) == old(self)@.editing_env(editor.deep_view()),
    {
        let (label, path) = match self.selected_status() {
            Some(status) => (
                ".env for ".to_owned().concat(&status.project.name),
                status.project.dir.join_text(".env"),
            ),
            None => {
                self.status_message = "No project selected".to_owned();
                return None;
            },
        };
        self.build_editor_launch(label, path, true, editor)
    }

    /// Asks for an editor on the global env file.
    pub fn edit_global_env(&mut self, editor: Option<String>) -> (launch: Option<EditorLaunch>)
        ensures
            (final(self)@, launch.deep_view()) == old(self)@.editing_global_env(editor.deep_view()),
    {
        let path = self.config.env_file();
        self.build_editor_launch(".env.global".to_owned(), path, true, editor)
    }

    /// Offers the running containers of the highlighted project.
    pub fn start_container_shell(&mut self)
        ensures
            final(self)@ == old(self)@.choosing_container(),
    {
        let name = match self.selected_status() {
            None => {
                self.status_message = "No project selected".to_owned();
                return;
            },
            Some(status) => {
                let containers = running_containers(status);
                assert(containers.deep_view().len() == containers@.len());
                if containers.len() == 0 {
                    self.status_message = "No running containers".to_owned();
                    return;
                }
                status.project.name.clone()
            },
        };
        self.input_mode = InputMode::ContainerShell;
        self.shell_container_index = 0;
        self.status_message = "Select container for ".to_owned().concat(&name);
    }

    /// Moves the choice of container.
    pub fn move_shell_container(&mut self, delta: i16)
        ensures
            final(self)@ == old(self)@.container_moved(delta as int),
    {
        let len: usize = match self.selected_status() {
            Some(status) => {
                let containers = running_containers(status);
                assert(containers.deep_view().len() == containers@.len());
                containers.len()
            },
            None => 0,
        };
        assert(len == self@.shell_containers().len());
        if len == 0 {
            self.shell_container_index = 0;
            return;
        }
        let at: u16 = (self.shell_container_index % 0x1_0000) as u16;
        let moved = adjust_scroll(at, delta) as usize;
        self.shell_container_index = if moved < len {
            moved
        } else {
            len - 1
        };
    }

    /// The shell to open in the chosen container.
    pub fn selected_shell_launch(&mut self) -> (launch: Option<ShellLaunch>)
        ensures
            (final(self)@, launch.deep_view()) == old(self)@.chosen_shell(),
    {
        let launch = match self.selected_status() {
            None => {
                self.status_message = "No project selected".to_owned();
                return None;
            },
            Some(status) => {
                let containers = running_containers(status);
                assert(containers.deep_view().len() == containers@.len());
                if self.shell_container_index < containers.len() {
                    let container = containers[self.shell_container_index];
                    assert(containers.deep_view()[self.shell_container_index as int]
                        == container@);
                    Some(
                        ShellLaunch {
                            docker_bin: self.config.docker_bin.clone(),
                            project_name: status.project.name.clone(),
                            container_id: container.id.clone(),
                            container_name: container.name.clone(),
                        },
                    )
                } else {
                    None
                }
            },
        };
        if launch.is_none() {
            self.status_message = "No running containers".to_owned();
        }
        launch
    }

    fn clear_new_project(&mut self, mode: InputMode)
        ensures
            final(self)@ == old(self)@.name_cleared(mode),
    {
        self.input_mode = mode;
        self.new_project_name = String::new();
        self.new_project_error = None;
        assert(self.new_project_name@ =~= seq![]);
    }

    /// Asks for the name of a new project.
    pub fn start_new_project(&mut self)
        ensures
            final(self)@ == old(self)@.name_cleared(InputMode::NewProject).with_message(
                "Enter new project name"@,
            ),
    {
        self.clear_new_project(InputMode::NewProject);
        self.status_message = "Enter new project name".to_owned();
    }

    fn refuse_new_project(&mut self, message: String)
        ensures
            final(self)@ == old(self)@.name_refused(message@),
    {
        self.new_project_error = Some(message.clone());
        self.status_message = message;
    }

    /// Takes the name of a new project as entered.
    pub fn submit_new_project_with_editor(&mut self, editor: Option<String>) -> (new: Option<
        NewProject,
    >)
        ensures
            (final(self)@, new.deep_view()) == old(self)@.name_entered(editor.deep_view()),
    {
        match project::create_project(&self.config.compose_dir, &self.new_project_name) {
            Err(error) => {
                self.refuse_new_project(error.message().to_owned());
                None
            },
            Ok(plan) => match editor {
                None => {
                    self.clear_new_project(InputMode::Normal);
                    self.status_message = "set VISUAL or EDITOR to create projects".to_owned();
                    None
                },
                Some(editor) => Some(NewProject { plan, editor }),
            },
        }
    }

    /// Takes what came of the creation of a project.
    pub fn finish_new_project(&mut self, editor: String, result: Result<Project, String>) -> (launch:
        Option<EditorLaunch>)
        ensures
            (final(self)@, launch.deep_view()) == old(self)@.project_created(
                editor@,
                text::outcome_view(result),
            ),
    {
        match result {
            Err(message) => {
                self.refuse_new_project(message);
                None
            },
            Ok(project) => {
                self.clear_new_project(InputMode::Normal);
                self.status_message = "Opening editor for ".to_owned().concat(&project.name);
                Some(
                    EditorLaunch {
                        editor,
                        target_label: project.name.clone(),
                        path: project.compose_file,
                        create_missing: false,
                        created_project: Some(project.name),
                    },
                )
            },
        }
    }
}

/// What opening an editor asks for, where one is to be opened.
pub open spec fn editor_outcome(step: (AppModel, Option<EditorModel>)) -> (
    AppModel,
    KeyOutcomeModel,
) {
    match step {
        (app, Some(launch)) => (app, KeyOutcomeModel::OpenEditor(launch)),
        (app, None) => (app, KeyOutcomeModel::Continue),
    }
}

fn outcome_of_editor(launch: Option<EditorLaunch>) -> (outcome: KeyOutcome)
    ensures
        outcome@ == (match launch {
            Some(launch) => KeyOutcomeModel::OpenEditor(launch@),
            None => KeyOutcomeModel::Continue,
        }),
{
    match launch {
        Some(launch) => KeyOutcome::OpenEditor(launch),
        None => KeyOutcome::Continue,
    }
}

impl AppModel {
    /// The screen after a key while the help is open.
    pub open spec fn on_help_key(self, code: KeyCode) -> AppModel {
        match code {
            KeyCode::Esc => self.help_closed(),
            KeyCode::Down => self.help_scrolled(1),
            KeyCode::Up => self.help_scrolled(-1),
            KeyCode::PageDown => self.help_scrolled(8),
            KeyCode::PageUp => self.help_scrolled(-8),
            KeyCode::Char(ch) => if ch == '?' || ch == 'q' {
                self.help_closed()
            } else if ch == 'j' {
                self.help_scrolled(1)
            } else if ch == 'k' {
                self.help_scrolled(-1)
            } else {
                self
            },
            _ => self,
        }
    }

    /// The screen after a key while an action waits to be confirmed.
    pub open spec fn on_pending_key(self, pending: PendingModel, code: KeyCode) -> (
        AppModel,
        KeyOutcomeModel,
    ) {
        let answered = AppModel { pending_action: None, ..self };
        if code == KeyCode::Enter || code == KeyCode::Char('y') {
            answered.started(pending.action)
        } else if code == KeyCode::Esc || code == KeyCode::Char('n') || code == KeyCode::Char('q') {
            (answered.with_message(pending.label + " cancelled"@), KeyOutcomeModel::Continue)
        } else {
            (self, KeyOutcomeModel::Continue)
        }
    }

    /// The screen after a key while the filter is edited.
    pub open spec fn on_filter_key(self, key: KeyEvent) -> AppModel {
        match key.code {
            KeyCode::Esc | KeyCode::Enter => AppModel { input_mode: InputMode::Normal, ..self },
            KeyCode::Backspace => (AppModel {
                filter: if self.filter.len() > 0 {
                    self.filter.drop_last()
                } else {
                    self.filter
                },
                ..self
            }).clamped(),
            KeyCode::Char(ch) => if key.modifiers.control {
                self
            } else {
                (AppModel { filter: self.filter.push(ch), ..self }).clamped()
            },
            _ => self,
        }
    }

    /// The screen after a key while the name of a new project is edited.
    pub open spec fn on_new_project_key(self, key: KeyEvent, editor: Option<Seq<char>>) -> (
        AppModel,
        KeyOutcomeModel,
    ) {
        match key.code {
            KeyCode::Esc => (
                self.name_cleared(InputMode::Normal).with_message("New project cancelled"@),
                KeyOutcomeModel::Continue,
            ),
            KeyCode::Enter => match self.name_entered(editor) {
                (app, Some(new)) => (app, KeyOutcomeModel::CreateProject(new)),
                (app, None) => (app, KeyOutcomeModel::Continue),
            },
            KeyCode::Backspace => (
                AppModel {
                    new_project_name: if self.new_project_name.len() > 0 {
                        self.new_project_name.drop_last()
                    } else {
                        self.new_project_name
                    },
                    new_project_error: None,
                    ..self
                },
                KeyOutcomeModel::Continue,
            ),
            KeyCode::Char(ch) => if key.modifiers.control {
                (self, KeyOutcomeModel::Continue)
            } else {
                (
                    AppModel {
                        new_project_name: self.new_project_name.push(ch),
                        new_project_error: None,
                        ..self
                    },
                    KeyOutcomeModel::Continue,
                )
            },
            _ => (self, KeyOutcomeModel::Continue),
        }
    }

    /// The screen after a key while a container is chosen.
    pub open spec fn on_shell_key(self, code: KeyCode) -> (AppModel, KeyOutcomeModel) {
        let same = KeyOutcomeModel::Continue;
        if code == KeyCode::Esc || code == KeyCode::Char('q') {
            (self.choice_closed().with_message("Container shell cancelled"@), same)
        } else if code == KeyCode::Down || code == KeyCode::Char('j') {
            (self.container_moved(1), same)
        } else if code == KeyCode::Up || code == KeyCode::Char('k') {
            (self.container_moved(-1), same)
        } else if code == KeyCode::Enter {
            match self.chosen_shell() {
                (app, Some(launch)) => (
                    app.choice_closed().with_message(
                        "Opening shell for "@ + launch.container_name,
                    ),
                    KeyOutcomeModel::OpenShell(launch),
                ),
                (app, None) => (app, same),
            }
        } else {
            (self, same)
        }
    }

    /// The screen after a key that only changes what is shown.
    pub open spec fn on_view_key(self, code: KeyCode) -> AppModel {
        match code {
            KeyCode::Tab => AppModel { focus: focus_after(self.focus), ..self },
            KeyCode::Enter => AppModel { focus: Focus::Details, ..self },
            KeyCode::Down => self.moved_down(),
            KeyCode::Up => self.moved_up(),
            KeyCode::PageDown => self.scrolled(5),
            KeyCode::PageUp => self.scrolled(-5),
            KeyCode::Char(ch) => if ch == '?' {
                self.help_opened()
            } else if ch == '/' {
                AppModel { input_mode: InputMode::Filter, ..self }
            } else if ch == 'j' {
                self.moved_down()
            } else if ch == 'k' {
                self.moved_up()
            } else if ch == 'a' {
                self.all_toggled()
            } else if ch == 'A' {
                self.inverted()
            } else if ch == ' ' && self.focus == Focus::Projects {
                self.mark_toggled()
            } else {
                self
            },
            _ => self,
        }
    }

    /// The screen after a letter that acts on projects. While commands run there is none.
    pub open spec fn on_action_letter(self, ch: char, alt: bool, editor: Option<Seq<char>>) -> (
        AppModel,
        KeyOutcomeModel,
    ) {
        let same = KeyOutcomeModel::Continue;
        if ch == 'n' {
            (
                self.name_cleared(InputMode::NewProject).with_message("Enter new project name"@),
                same,
            )
        } else if ch == 'e' && alt {
            editor_outcome(self.editing_global_env(editor))
        } else if ch == 'e' {
            editor_outcome(self.editing_compose(editor))
        } else if ch == 'E' {
            editor_outcome(self.editing_env(editor))
        } else if ch == 'c' {
            (self.choosing_container(), same)
        } else if ch == 'l' {
            self.started(
                TuiAction::Compose(
                    Action::Logs(
                        LogsOptions { follow: false, tail: self.config.default_log_lines },
                    ),
                ),
            )
        } else {
            match confirmed_action(ch) {
                Some((label, action)) => (self.asking(label, action), same),
                None => (self, same),
            }
        }
    }

    /// The screen after a key while nothing is asked and nothing is edited.
    pub open spec fn on_normal_key(self, key: KeyEvent, editor: Option<Seq<char>>) -> (
        AppModel,
        KeyOutcomeModel,
    ) {
        match key.code {
            KeyCode::Char(ch) => if ch == 'q' {
                (self, KeyOutcomeModel::Quit)
            } else if !is_action_letter(ch) {
                (self.on_view_key(key.code), KeyOutcomeModel::Continue)
            } else if self.command_running {
                (self, KeyOutcomeModel::Continue)
            } else {
                self.on_action_letter(ch, key.modifiers.alt, editor)
            },
            _ => (self.on_view_key(key.code), KeyOutcomeModel::Continue),
        }
    }

    /// The screen after a key, and what the key asks for. The help comes before a question, a
    /// question before whatever is being edited. `editor` is the editor of the user, if any.
    pub open spec fn on_key(self, key: KeyEvent, editor: Option<Seq<char>>) -> (
        AppModel,
        KeyOutcomeModel,
    ) {
        if self.show_help {
            (self.on_help_key(key.code), KeyOutcomeModel::Continue)
        } else if self.pending_action is Some {
            self.on_pending_key(self.pending_action->0, key.code)
        } else {
            match self.input_mode {
                InputMode::Filter => (self.on_filter_key(key), KeyOutcomeModel::Continue),
                InputMode::NewProject => self.on_new_project_key(key, editor),
                InputMode::ContainerShell => self.on_shell_key(key.code),
                InputMode::Normal => self.on_normal_key(key, editor),
            }
        }
    }
}

/// Whether a letter acts on projects, rather than on what is shown.
pub open spec fn is_action_letter(ch: char) -> bool {
    ch == 'n' || ch == 'e' || ch == 'E' || ch == 'c' || ch == 'l' || confirmed_action(ch) is Some
}

/// The action that a letter asks for once it is confirmed, and what it is called.
pub open spec fn confirmed_action(ch: char) -> Option<(Seq<char>, TuiAction)> {
    if ch == 'u' {
        Some(("deploy"@, TuiAction::Compose(Action::Deploy)))
    } else if ch == 'U' {
        Some(("update"@, TuiAction::Compose(Action::Update)))
    } else if ch == 's' {
        Some(("stop"@, TuiAction::Compose(Action::Stop)))
    } else if ch == 'r' {
        Some(("restart"@, TuiAction::Compose(Action::Restart)))
    } else if ch == 'd' {
        Some(
            (
                "remove"@,
                TuiAction::Compose(
                    Action::Remove(
                        RemoveOptions { volumes: false, remove_orphans: false, rmi: None },
                    ),
                ),
            ),
        )
    } else if ch == 'D' {
        Some(
            (
                "remove with volumes"@,
                TuiAction::Compose(
                    Action::Remove(
                        RemoveOptions { volumes: true, remove_orphans: false, rmi: None },
                    ),
                ),
            ),
        )
    } else if ch == 'x' {
        Some(("delete project files"@, TuiAction::DeleteProjectFiles))
    } else if ch == 'X' {
        Some(("purge project"@, TuiAction::PurgeProject))
    } else {
        None
    }
}

impl App {
    fn handle_help_key(&mut self, code: KeyCode)
        ensures
            final(self)@ == old(self)@.on_help_key(code),
    {
        match code {
            KeyCode::Char('?') | KeyCode::Char('q') | KeyCode::Esc => {
                self.show_help = false;
                self.help_scroll = 0;
            },
            KeyCode::Char('j') | KeyCode::Down => self.scroll_help(1),
            KeyCode::Char('k') | KeyCode::Up => self.scroll_help(-1),
            KeyCode::PageDown => self.scroll_help(8),
            KeyCode::PageUp => self.scroll_help(-8),
            _ => {},
        }
    }

    fn handle_pending_key(&mut self, pending: PendingAction, code: KeyCode) -> (outcome: KeyOutcome)
        ensures
            (final(self)@, outcome@) == old(self)@.on_pending_key(pending@, code),
    {
        match code {
            KeyCode::Enter | KeyCode::Char('y') => {
                self.pending_action = None;
                self.start_action(pending.action)
            },
            KeyCode::Esc | KeyCode::Char('n') | KeyCode::Char('q') => {
                self.pending_action = None;
                self.status_message = pending.label.to_owned().concat(" cancelled");
                KeyOutcome::Continue
            },
            _ => KeyOutcome::Continue,
        }
    }

    /// Takes a key while the filter is edited.
    pub fn handle_filter_key(&mut self, key: KeyEvent)
        ensures
            final(self)@ == old(self)@.on_filter_key(key),
    {
        match key.code {
            KeyCode::Esc | KeyCode::Enter => {
                self.input_mode = InputMode::Normal;
            },
            KeyCode::Backspace => {
                self.filter.pop();
                self.clamp_selection();
            },
            KeyCode::Char(ch) => {
                if !key.modifiers.control {
                    self.filter.push(ch);
                    self.clamp_selection();
                }
            },
            _ => {},
        }
    }

    /// Takes a key while the name of a new project is edited.
    pub fn handle_new_project_key(&mut self, key: KeyEvent, editor: Option<String>) -> (outcome:
        KeyOutcome)
        ensures
            (final(self)@, outcome@) == old(self)@.on_new_project_key(key, editor.deep_view()),
    {
        match key.code {
            KeyCode::Esc => {
                self.clear_new_project(InputMode::Normal);
                self.status_message = "New project cancelled".to_owned();
            },
            KeyCode::Enter => {
                if let Some(new) = self.submit_new_project_with_editor(editor) {
                    return KeyOutcome::CreateProject(new);
                }
            },
            KeyCode::Backspace => {
                self.new_project_name.pop();
                self.new_project_error = None;
            },
            KeyCode::Char(ch) => {
                if !key.modifiers.control {
                    self.new_project_name.push(ch);
                    self.new_project_error = None;
                }
            },
            _ => {},
        }
        KeyOutcome::Continue
    }

    /// Takes a key while a container is chosen.
    pub fn handle_container_shell_key(&mut self, key: KeyEvent) -> (outcome: KeyOutcome)
        ensures
            (final(self)@, outcome@) == old(self)@.on_shell_key(key.code),
    {
        match key.code {
            KeyCode::Esc | KeyCode::Char('q') => {
                self.input_mode = InputMode::Normal;
                self.shell_container_index = 0;
                self.status_message = "Container shell cancelled".to_owned();
            },
            KeyCode::Char('j') | KeyCode::Down => self.move_shell_container(1),
            KeyCode::Char('k') | KeyCode::Up => self.move_shell_container(-1),
            KeyCode::Enter => {
                if let Some(launch) = self.selected_shell_launch() {
                    self.input_mode = InputMode::Normal;
                    self.shell_container_index = 0;
                    self.status_message = "Opening shell for ".to_owned().concat(
                        &launch.container_name,
                    );
                    return KeyOutcome::OpenShell(launch);
                }
            },
            _ => {},
        }
        KeyOutcome::Continue
    }

    /// Takes a key. `editor` is the editor of the user, if any.
    pub fn handle_key(&mut self, key: KeyEvent, editor: Option<String>) -> (outcome: KeyOutcome)
        ensures
            (final(self)@, outcome@) == old(self)@.on_key(key, editor.deep_view()),
    {
        if self.show_help {
            self.handle_help_key(key.code);
            return KeyOutcome::Continue;
        }
        if let Some(pending) = self.pending_action {
            return self.handle_pending_key(pending, key.code);
        }
        match self.input_mode {
            InputMode::Filter => {
                self.handle_filter_key(key);
                KeyOutcome::Continue
            },
            InputMode::NewProject => self.handle_new_project_key(key, editor),
            InputMode::ContainerShell => self.handle_container_shell_key(key),
            InputMode::Normal => self.handle_normal_key(key, editor),
        }
    }

    fn handle_normal_key(&mut self, key: KeyEvent, editor: Option<String>) -> (outcome: KeyOutcome)
        ensures
            (final(self)@, outcome@) == old(self)@.on_normal_key(key, editor.deep_view()),
    {
        match key.code {
            KeyCode::Char('q') => return KeyOutcome::Quit,
            KeyCode::Char('?') => self.open_help(),
            KeyCode::Char('/') => {
                self.input_mode = InputMode::Filter;
            },
            KeyCode::Char('a') => self.toggle_select_all_visible(),
            KeyCode::Char('A') => self.invert_visible_selection(),
            KeyCode::Char(' ') => {
                if self.focus == Focus::Projects {
                    self.toggle_mark();
                }
            },
            KeyCode::Tab => {
                self.focus = next_focus(self.focus);
            },
            KeyCode::Enter => {
                self.focus = Focus::Details;
            },
            KeyCode::Char('j') | KeyCode::Down => self.move_down(),
            KeyCode::Char('k') | KeyCode::Up => self.move_up(),
            KeyCode::PageDown => self.scroll_active(5),
            KeyCode::PageUp => self.scroll_active(-5),
            KeyCode::Char(ch) => {
                if !self.command_running {
                    return self.handle_action_letter(ch, key.modifiers.alt, editor);
                }
            },
            _ => {},
        }
        KeyOutcome::Continue
    }

    fn handle_action_letter(&mut self, ch: char, alt: bool, editor: Option<String>) -> (outcome:
        KeyOutcome)
        ensures
            (final(self)@, outcome@) == old(self)@.on_action_letter(ch, alt, editor.deep_view()),
    {
        match ch {
            'n' => self.start_new_project(),
            'e' => {
                let launch = if alt {
                    self.edit_global_env(editor)
                } else {
                    self.edit_selected_compose(editor)
                };
                return outcome_of_editor(launch);
            },
            'E' => {
                return outcome_of_editor(self.edit_selected_env(editor));
            },
            'c' => self.start_container_shell(),
            'u' => self.confirm_action("deploy", TuiAction::Compose(Action::Deploy)),
            'U' => self.confirm_action("update", TuiAction::Compose(Action::Update)),
            's' => self.confirm_action("stop", TuiAction::Compose(Action::Stop)),
            'r' => self.confirm_action("restart", TuiAction::Compose(Action::Restart)),
            'd' => self.confirm_action(
                "remove",
                TuiAction::Compose(
                    Action::Remove(
                        RemoveOptions { volumes: false, remove_orphans: false, rmi: None },
                    ),
                ),
            ),
            'D' => self.confirm_action(
                "remove with volumes",
                TuiAction::Compose(
                    Action::Remove(
                        RemoveOptions { volumes: true, remove_orphans: false, rmi: None },
                    ),
                ),
            ),
            'x' => self.confirm_action("delete project files", TuiAction::DeleteProjectFiles),
            'X' => self.confirm_action("purge project", TuiAction::PurgeProject),
            'l' => {
                let tail = self.config.default_log_lines;
                return self.start_action(
                    TuiAction::Compose(Action::Logs(LogsOptions { follow: false, tail })),
                );
            },
            _ => {},
        }
        KeyOutcome::Continue
    }
}

impl AppModel {
    /// The screen after a report from the background.
    pub open spec fn on_event(self, event: EventModel) -> AppModel {
        match event {
            EventModel::StatusesLoaded(statuses) => (AppModel {
                statuses,
                refresh_inflight: false,
                ..self
            }).with_message("Ready"@).clamped(),
            EventModel::StatusRefreshFailed(message) => (AppModel {
                refresh_inflight: false,
                ..self
            }).with_message(message),
            EventModel::CommandStarted { project, command } => (AppModel {
                command_running: true,
                last_command: Some(command),
                ..self
            }).with_output(output::started_line(project, command), false),
            EventModel::CommandOutput { line, stderr } => self.with_output(line, stderr),
            EventModel::CommandFinished { project, success, exit_code } => self.with_output(
                output::finished_line(project, success, exit_code),
                !success,
            ),
            EventModel::BatchFinished(failures) => (AppModel {
                command_running: false,
                ..self
            }).with_message(
                if failures.len() == 0 {
                    "Command batch completed"@
                } else {
                    failures_text(failures)
                },
            ),
        }
    }

    /// The screen once a refresh has begun.
    pub open spec fn refreshing(self) -> AppModel {
        AppModel { refresh_inflight: true, ..self }
    }

    /// The screen once a file to edit could not be prepared.
    pub open spec fn edit_unprepared(self, target_label: Seq<char>, message: Seq<char>) -> AppModel {
        self.with_message(message).with_output(
            "Failed to prepare "@ + target_label + ": "@ + message,
            true,
        )
    }

    /// The screen once an editor has been closed, or could not be run.
    pub open spec fn edited(self, launch: EditorModel, result: Result<(), Seq<char>>) -> AppModel {
        let back = AppModel { refresh_inflight: false, ..self };
        match (result, launch.created_project) {
            (Ok(()), Some(name)) => back.with_message("Created project "@ + name).with_output(
                "Created project "@ + name + " at "@ + native::shown_text(launch.path),
                false,
            ),
            (Ok(()), None) => back.with_message("Edited "@ + launch.target_label).with_output(
                "Edited "@ + launch.target_label + " at "@ + native::shown_text(launch.path),
                false,
            ),
            (Err(message), created) => back.with_message(
                match created {
                    Some(name) => "Project "@ + name + " created, editor failed: "@ + message,
                    None => "Editor failed for "@ + launch.target_label + ": "@ + message,
                },
            ).with_output("Editor failed for "@ + launch.target_label + ": "@ + message, true),
        }
    }

    /// The screen once a shell has been left, or could not be run.
    pub open spec fn shell_left(self, launch: ShellModel, result: Result<(), Seq<char>>) -> AppModel {
        let back = AppModel { refresh_inflight: false, ..self };
        match result {
            Ok(()) => back.with_message("Shell exited for "@ + launch.container_name).with_output(
                "Shell exited for "@ + launch.container_name + " in "@ + launch.project_name,
                false,
            ),
            Err(message) => back.with_message(
                "Shell failed for "@ + launch.container_name + ": "@ + message,
            ).with_output(
                "Shell failed for "@ + launch.container_name + " in "@ + launch.project_name + ": "@
                    + message,
                true,
            ),
        }
    }
}

impl App {
    /// Takes a report from the background. Returns whether a refresh is due now: after a batch,
    /// unless one is under way.
    pub fn handle_event(&mut self, event: TuiEvent) -> (refresh: bool)
        ensures
            final(self)@ == old(self)@.on_event(event@),
            refresh == (event@ is BatchFinished && !old(self)@.refresh_inflight),
    {
        match event {
            TuiEvent::StatusesLoaded(statuses) => {
                self.statuses = statuses;
                self.refresh_inflight = false;
                self.status_message = "Ready".to_owned();
                self.clamp_selection();
                false
            },
            TuiEvent::StatusRefreshFailed(message) => {
                self.refresh_inflight = false;
                self.status_message = message;
                false
            },
            TuiEvent::CommandStarted { project, command } => {
                self.command_running = true;
                let line = output::command_started_text(&project, &command);
                self.last_command = Some(command);
                self.push_output(line, false);
                false
            },
            TuiEvent::CommandOutput { line, stderr } => {
                self.push_output(line, stderr);
                false
            },
            TuiEvent::CommandFinished { project, success, exit_code } => {
                self.push_output(output::command_finished_text(&project, success, exit_code), !success);
                false
            },
            TuiEvent::BatchFinished(result) => {
                self.command_running = false;
                assert(result@.len() == result.failed_projects@.len());
                if result.failed_projects.len() == 0 {
                    self.status_message = "Command batch completed".to_owned();
                } else {
                    self.status_message = format_failures(&result.failed_projects);
                }
                !self.refresh_inflight
            },
        }
    }

    /// Whether a refresh is due when its time has come: unless one is under way.
    pub fn refresh_due(&self) -> (due: bool)
        ensures
            due == !self@.refresh_inflight,
    {
        !self.refresh_inflight
    }

    /// Notes that a refresh has begun.
    pub fn begin_refresh(&mut self)
        ensures
            final(self)@ == old(self)@.refreshing(),
    {
        self.refresh_inflight = true;
    }

    /// Notes that a file to edit could not be prepared.
    pub fn editor_unprepared(&mut self, launch: &EditorLaunch, message: String)
        ensures
            final(self)@ == old(self)@.edit_unprepared(launch@.target_label, message@),
    {
        let line = "Failed to prepare ".to_owned().concat(&launch.target_label).concat(": ").concat(
            &message,
        );
        self.status_message = message;
        self.push_output(line, true);
    }

    /// Notes that an editor has been closed, or could not be run.
    pub fn editor_finished(&mut self, launch: &EditorLaunch, result: Result<(), String>)
        ensures
            final(self)@ == old(self)@.edited(launch@, text::outcome_view(result)),
    {
        self.refresh_inflight = false;
        match result {
            Ok(()) => {
                let message = match &launch.created_project {
                    Some(name) => "Created project ".to_owned().concat(name),
                    None => "Edited ".to_owned().concat(&launch.target_label),
                };
                let line = message.clone().concat(" at ").concat(&launch.path.display());
                self.status_message = message;
                self.push_output(line, false);
            },
            Err(message) => {
                let line = "Editor failed for ".to_owned().concat(&launch.target_label).concat(
                    ": ",
                ).concat(&message);
                self.status_message = match &launch.created_project {
                    Some(name) => "Project ".to_owned().concat(name).concat(
                        " created, editor failed: ",
                    ).concat(&message),
                    None => line.clone(),
                };
                self.push_output(line, true);
            },
        }
    }

    /// Notes that a shell has been left, or could not be run.
    pub fn shell_finished(&mut self, launch: &ShellLaunch, result: Result<(), String>)
        ensures
            final(self)@ == old(self)@.shell_left(launch@, text::outcome_view(result)),
    {
        self.refresh_inflight = false;
        match result {
            Ok(()) => {
                let message = "Shell exited for ".to_owned().concat(&launch.container_name);
                let line = message.clone().concat(" in ").concat(&launch.project_name);
                self.status_message = message;
                self.push_output(line, false);
            },
            Err(error) => {
                let message = "Shell failed for ".to_owned().concat(&launch.container_name);
                let line = message.clone().concat(" in ").concat(&launch.project_name).concat(
                    ": ",
                ).concat(&error);
                self.status_message = message.concat(": ").concat(&error);
                self.push_output(line, true);
            },
        }
    }
}

/// Turns reports of running commands into reports for the screen. They wait here until they are
/// taken.
#[derive(Debug)]
pub struct TuiSink {
    pub events: Vec<TuiEvent>,
}

impl View for TuiSink {
    type V = Seq<EventModel>;

    open spec fn view(&self) -> Seq<EventModel> {
        self.events@.map_values(|event: TuiEvent| event@)
    }
}

impl TuiSink {
    /// A sink that nothing has been reported to.
    pub fn new() -> (sink: TuiSink)
        ensures
            sink@ == Seq::<EventModel>::empty(),
    {
        let sink = TuiSink { events: Vec::new() };
        assert(sink@ =~= Seq::empty());
        sink
    }

    fn push(&mut self, event: TuiEvent)
        ensures
            final(self)@ == old(self)@.push(event@),
    {
        let ghost before = self@;
        self.events.push(event);
        assert(self@ =~= before.push(event@));
    }

    /// Hands out the reports that wait, oldest first.
    pub fn take_events(&mut self) -> (events: Vec<TuiEvent>)
        ensures
            events@.map_values(|event: TuiEvent| event@) == old(self)@,
            final(self)@ == Seq::<EventModel>::empty(),
    {
        let mut events: Vec<TuiEvent> = Vec::new();
        std::mem::swap(&mut events, &mut self.events);
        assert(self@ =~= Seq::empty());
        events
    }
}

impl OutputSink for TuiSink {
    fn command_started(&mut self, project: &Project, command: &str)
        ensures
            final(self)@ == old(self)@.push(
                EventModel::CommandStarted { project: project@.name, command: command@ },
            ),
    {
        self.push(
            TuiEvent::CommandStarted {
                project: project.name.clone(),
                command: command.to_owned(),
            },
        );
    }

    fn command_output(&mut self, line: &str, stderr: bool)
        ensures
            final(self)@ == old(self)@.push(EventModel::CommandOutput { line: line@, stderr }),
    {
        self.push(TuiEvent::CommandOutput { line: line.to_owned(), stderr });
    }

    fn command_finished(&mut self, project: &Project, success: bool, exit_code: Option<i32>)
        ensures
            final(self)@ == old(self)@.push(
                EventModel::CommandFinished { project: project@.name, success, exit_code },
            ),
    {
        self.push(
            TuiEvent::CommandFinished { project: project.name.clone(), success, exit_code },
        );
    }
}

} // verus!
