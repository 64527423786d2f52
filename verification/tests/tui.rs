//! What keys and reports do to the screen.

use lazydc::compose::{Action, ActionBatchResult, LogsOptions, ProjectFailure};
use lazydc::config::AppConfig;
use lazydc::docker_api::{
    ContainerStatus, HealthSummary, ProjectState, ProjectStatus, ProjectSummary,
};
use lazydc::help::{help_lines, HELP_LINE_COUNT};
use lazydc::launch::{
    after_suspension, choose_editor, edit_dir_failure, edit_file_failure, editor_command,
    editor_launch_failure, exit_result, is_blank_text, shell_command, shell_launch_failure,
    suspension_failure,
};
use lazydc::native::NativeString;
use lazydc::output::OutputSink;
use lazydc::project::{CreateOutcome, NameError, Project};
use lazydc::tui::{
    adjust_scroll, format_failures, next_focus, App, EditorLaunch, Focus, InputMode, KeyCode,
    KeyEvent, KeyModifiers, KeyOutcome, TuiAction, TuiEvent, TuiSink, OUTPUT_LIMIT,
};

const NONE: KeyModifiers = KeyModifiers { control: false, alt: false };
const ALT: KeyModifiers = KeyModifiers { control: false, alt: true };
const CONTROL: KeyModifiers = KeyModifiers { control: true, alt: false };

fn native(text: &str) -> NativeString {
    NativeString::from_text(text)
}

fn test_editor() -> Option<String> {
    Some("test-editor".to_string())
}

fn test_config() -> AppConfig {
    test_config_for(&native("/tmp/lazydc-test"))
}

fn test_config_for(compose_dir: &NativeString) -> AppConfig {
    AppConfig {
        compose_dir: compose_dir.clone(),
        docker_bin: native("docker"),
        refresh_interval_ms: 2_000,
        default_log_lines: 100,
    }
}

fn test_status() -> ProjectStatus {
    test_status_for(&native("/tmp/lazydc-test"), "app")
}

fn test_status_for(compose_dir: &NativeString, name: &str) -> ProjectStatus {
    let dir = compose_dir.join_text(name);
    ProjectStatus {
        project: Project {
            name: name.to_string(),
            dir: dir.clone(),
            compose_file: dir.join_text("docker-compose.yaml"),
            env_file: None,
        },
        summary: ProjectSummary {
            state: ProjectState::Stopped,
            health: HealthSummary::Unknown,
            running_containers: 0,
            total_containers: 0,
            metrics: None,
        },
        containers: Vec::new(),
        error: None,
    }
}

fn test_status_with_containers(
    compose_dir: &NativeString,
    name: &str,
    containers: Vec<ContainerStatus>,
) -> ProjectStatus {
    ProjectStatus { containers, ..test_status_for(compose_dir, name) }
}

fn test_container(id: &str, name: &str, service: &str, state: &str) -> ContainerStatus {
    ContainerStatus {
        id: id.to_string(),
        name: name.to_string(),
        service: Some(service.to_string()),
        image: Some("image:latest".to_string()),
        state: state.to_string(),
        health: None,
        status: Some(state.to_string()),
        started_at: None,
        ports: Vec::new(),
        metrics: None,
    }
}

fn press(app: &mut App, code: KeyCode) -> KeyOutcome {
    app.handle_key(KeyEvent::new(code, NONE), test_editor())
}

fn app_with(names: &[&str]) -> App {
    let mut app = App::new(test_config());
    app.statuses =
        names.iter().map(|name| test_status_for(&native("/tmp/lazydc-test"), name)).collect();
    app
}

#[test]
fn n_enters_new_project_input_mode() {
    let mut app = App::new(test_config());

    let outcome = app.handle_key(KeyEvent::new(KeyCode::Char('n'), NONE), None);

    assert!(matches!(outcome, KeyOutcome::Continue));
    assert_eq!(app.input_mode, InputMode::NewProject);
    assert_eq!(app.new_project_name, "");
}

#[test]
fn help_overlay_scrolls_and_resets_on_close() {
    let mut app = App::new(test_config());

    let outcome = app.handle_key(KeyEvent::new(KeyCode::Char('?'), NONE), None);
    assert!(matches!(outcome, KeyOutcome::Continue));
    assert!(app.show_help);
    assert_eq!(app.help_scroll, 0);

    app.handle_key(KeyEvent::new(KeyCode::Char('j'), NONE), None);
    assert_eq!(app.help_scroll, 1);

    app.handle_key(KeyEvent::new(KeyCode::PageDown, NONE), None);
    assert_eq!(app.help_scroll, 9);

    app.handle_key(KeyEvent::new(KeyCode::Char('k'), NONE), None);
    assert_eq!(app.help_scroll, 8);

    app.handle_key(KeyEvent::new(KeyCode::Esc, NONE), None);
    assert!(!app.show_help);
    assert_eq!(app.help_scroll, 0);
}

fn rendered_help() -> String {
    help_lines().into_iter().map(|line| line.to_string()).collect::<Vec<_>>().join("\n")
}

#[test]
fn help_text_lists_destructive_shortcuts() {
    let rendered = rendered_help();

    assert!(rendered.contains("D                    Remove and delete volumes"));
    assert!(rendered.contains("x                    Delete project files"));
    assert!(rendered.contains("X                    Purge project, volumes, and files"));
}

#[test]
fn help_text_lists_edit_shortcuts() {
    let rendered = rendered_help();

    assert!(rendered.contains("e                    Edit current project compose file"));
    assert!(rendered.contains("E                    Edit current project .env"));
    assert!(rendered.contains("Alt+e                Edit .env.global"));
}

#[test]
fn help_text_lists_container_shell_shortcut() {
    let rendered = rendered_help();

    assert!(rendered.contains("c                    Open shell in a project container"));
    assert!(rendered.contains("Container Shell"));
    assert!(rendered.contains("Enter                Open selected container shell"));
}

#[test]
fn help_begins_with_its_heading() {
    let lines = help_lines();
    assert_eq!(lines.len(), HELP_LINE_COUNT);
    assert_eq!(lines[0].to_string(), "TUI Help  j/k scroll  PgUp/PgDn page  ?/Esc/q close");
    assert_eq!(lines[1].to_string(), "");
    assert_eq!(lines[37].to_string(), "  ?                    Toggle this help");
}

#[test]
fn help_scrolls_no_further_than_its_end() {
    let mut app = App::new(test_config());
    press(&mut app, KeyCode::Char('?'));
    for _ in 0..20 {
        press(&mut app, KeyCode::PageDown);
    }
    assert_eq!(app.help_scroll as usize, HELP_LINE_COUNT - 1);
    for _ in 0..20 {
        press(&mut app, KeyCode::PageUp);
    }
    assert_eq!(app.help_scroll, 0);
    press(&mut app, KeyCode::Char('u'));
    assert!(app.show_help);
    assert!(app.pending_action.is_none());
}

#[test]
fn esc_cancels_new_project_input() {
    let mut app = App::new(test_config());
    app.start_new_project();
    app.new_project_name = "app".to_string();

    let outcome = app.handle_key(KeyEvent::new(KeyCode::Esc, NONE), None);

    assert!(matches!(outcome, KeyOutcome::Continue));
    assert_eq!(app.input_mode, InputMode::Normal);
    assert_eq!(app.new_project_name, "");
    assert!(app.new_project_error.is_none());
}

#[test]
fn enter_with_invalid_name_stays_in_new_project_input() {
    let mut app = App::new(test_config());
    app.start_new_project();
    app.new_project_name = "App".to_string();

    let outcome = app.handle_key(KeyEvent::new(KeyCode::Enter, NONE), None);

    assert!(matches!(outcome, KeyOutcome::Continue));
    assert_eq!(app.input_mode, InputMode::NewProject);
    assert!(app.new_project_error.is_some());
}

#[test]
fn enter_without_editor_exits_new_project_input() {
    let mut app = App::new(test_config());
    app.start_new_project();
    app.new_project_name = "app".to_string();
    let launch = app.submit_new_project_with_editor(None);

    assert!(launch.is_none());
    assert_eq!(app.input_mode, InputMode::Normal);
    assert_eq!(app.new_project_name, "");
    assert!(app.status_message.contains("VISUAL or EDITOR"));
}

#[test]
fn new_project_is_created_and_opened() {
    let mut app = App::new(test_config());
    press(&mut app, KeyCode::Char('n'));
    for ch in ['a', 'p', 'p', 'x'] {
        press(&mut app, KeyCode::Char(ch));
    }
    app.handle_key(KeyEvent::new(KeyCode::Char('c'), CONTROL), None);
    press(&mut app, KeyCode::Backspace);
    assert_eq!(app.new_project_name, "app");

    let (plan, editor) = match press(&mut app, KeyCode::Enter) {
        KeyOutcome::CreateProject(new) => (new.plan, new.editor),
        outcome => panic!("expected a new project, got {outcome:?}"),
    };
    assert_eq!(app.input_mode, InputMode::NewProject);
    assert_eq!(plan.project.dir, native("/tmp/lazydc-test/app"));

    let result = plan.finish(CreateOutcome::Created);
    let launch = app.finish_new_project(editor, result).unwrap();
    assert_eq!(launch.editor, "test-editor");
    assert_eq!(launch.target_label, "app");
    assert_eq!(launch.path, native("/tmp/lazydc-test/app/docker-compose.yaml"));
    assert_eq!(launch.created_project, Some("app".to_string()));
    assert_eq!(app.input_mode, InputMode::Normal);
    assert_eq!(app.status_message, "Opening editor for app");

    app.refresh_inflight = true;
    app.editor_finished(&launch, Ok(()));
    assert!(!app.refresh_inflight);
    assert_eq!(app.status_message, "Created project app");
    assert_eq!(
        app.output[0].text,
        "Created project app at /tmp/lazydc-test/app/docker-compose.yaml"
    );
    app.editor_finished(&launch, Err("editor exited with 1".to_string()));
    assert_eq!(app.status_message, "Project app created, editor failed: editor exited with 1");
    assert_eq!(app.output[1].text, "Editor failed for app: editor exited with 1");
    assert!(app.output[1].stderr);
}

#[test]
fn project_that_cannot_be_created_stays_in_input() {
    let mut app = App::new(test_config());
    app.start_new_project();
    app.new_project_name = "app".to_string();
    let new = app.submit_new_project_with_editor(test_editor()).unwrap();
    let result = new.plan.finish(CreateOutcome::AlreadyExists);
    assert!(app.finish_new_project(new.editor, result).is_none());
    assert_eq!(app.input_mode, InputMode::NewProject);
    assert_eq!(
        app.new_project_error,
        Some("project path already exists: /tmp/lazydc-test/app".to_string())
    );

    app.new_project_name = String::new();
    press(&mut app, KeyCode::Enter);
    assert_eq!(app.new_project_error, Some(NameError::Empty.message().to_string()));
    assert_eq!(app.status_message, "project name cannot be empty");
    press(&mut app, KeyCode::Char('a'));
    assert_eq!(app.new_project_error, None);
}

#[test]
fn e_opens_current_project_compose_file() {
    let compose_dir = native("/tmp/e-opens");
    let app_dir = compose_dir.join_text("app");
    let mut app = App::new(test_config_for(&compose_dir));
    app.statuses = vec![test_status_for(&compose_dir, "app")];

    let launch = app.edit_selected_compose(test_editor()).expect("compose should open");

    assert_eq!(launch.editor, "test-editor");
    assert_eq!(launch.target_label, "compose for app");
    assert_eq!(launch.path, app_dir.join_text("docker-compose.yaml"));
    assert_eq!(launch.created_project, None);
    assert!(app.status_message.contains("Opening editor"));
}

#[test]
fn uppercase_e_creates_and_opens_current_project_env() {
    let compose_dir = native("/tmp/uppercase-e");
    let app_dir = compose_dir.join_text("app");
    let mut app = App::new(test_config_for(&compose_dir));
    app.statuses = vec![test_status_for(&compose_dir, "app")];
    let env_file = app_dir.join_text(".env");

    let launch = app.edit_selected_env(test_editor()).expect("env should open");

    assert_eq!(launch.editor, "test-editor");
    assert_eq!(launch.target_label, ".env for app");
    assert_eq!(launch.path, env_file);
    assert!(launch.create_missing);
}

#[test]
fn alt_e_creates_and_opens_global_env_without_project() {
    let compose_dir = native("/tmp/alt-e").join_text("compose");
    let mut app = App::new(test_config_for(&compose_dir));

    let launch = app.edit_global_env(test_editor()).expect("global env should open");

    assert_eq!(launch.editor, "test-editor");
    assert_eq!(launch.target_label, ".env.global");
    assert_eq!(launch.path, compose_dir.join_text(".env.global"));
    assert!(launch.create_missing);
}

#[test]
fn edit_shortcuts_return_open_editor() {
    let compose_dir = native("/tmp/edit-shortcuts");
    let app_dir = compose_dir.join_text("app");
    let mut app = App::new(test_config_for(&compose_dir));
    app.statuses = vec![test_status_for(&compose_dir, "app")];

    let outcome = app.handle_key(KeyEvent::new(KeyCode::Char('e'), NONE), test_editor());

    match outcome {
        KeyOutcome::OpenEditor(launch) => {
            assert_eq!(launch.target_label, "compose for app");
            assert_eq!(launch.path, app_dir.join_text("docker-compose.yaml"));
            assert!(!launch.create_missing);
        }
        outcome => panic!("expected editor launch, got {outcome:?}"),
    }
}

#[test]
fn alt_e_shortcut_returns_global_env_editor() {
    let compose_dir = native("/tmp/alt-e-shortcut").join_text("compose");
    let mut app = App::new(test_config_for(&compose_dir));

    let outcome = app.handle_key(KeyEvent::new(KeyCode::Char('e'), ALT), test_editor());

    match outcome {
        KeyOutcome::OpenEditor(launch) => {
            assert_eq!(launch.target_label, ".env.global");
            assert_eq!(launch.path, compose_dir.join_text(".env.global"));
        }
        outcome => panic!("expected editor launch, got {outcome:?}"),
    }
}

#[test]
fn e_and_uppercase_e_ignore_marked_projects() {
    let compose_dir = native("/tmp/e-ignores");
    let app_dir = compose_dir.join_text("app");
    let mut app = App::new(test_config_for(&compose_dir));
    app.statuses =
        vec![test_status_for(&compose_dir, "app"), test_status_for(&compose_dir, "other")];
    app.selected_index = 0;
    app.marked.insert("other".to_string());

    let compose_launch = app.edit_selected_compose(test_editor()).expect("compose should open");
    let env_launch = app.edit_selected_env(test_editor()).expect("env should open");

    assert_eq!(compose_launch.path, app_dir.join_text("docker-compose.yaml"));
    assert_eq!(env_launch.path, app_dir.join_text(".env"));
}

#[test]
fn e_without_project_reports_no_selection() {
    let mut app = App::new(test_config());

    let launch = app.edit_selected_compose(test_editor());

    assert!(launch.is_none());
    assert_eq!(app.status_message, "No project selected");
}

#[test]
fn edit_without_editor_reports_configuration_error() {
    let mut app = App::new(test_config());

    let launch = app.build_editor_launch("target".to_string(), native("/tmp/target"), false, None);

    assert!(launch.is_none());
    assert!(app.status_message.contains("VISUAL or EDITOR"));
}

#[test]
fn c_opens_container_shell_selector_for_running_containers() {
    let mut app = App::new(test_config());
    app.statuses = vec![test_status_with_containers(
        &native("/tmp/lazydc-test"),
        "app",
        vec![
            test_container("running-id", "app-web-1", "web", "running"),
            test_container("exited-id", "app-job-1", "job", "exited"),
        ],
    )];

    let outcome = app.handle_key(KeyEvent::new(KeyCode::Char('c'), NONE), None);

    assert!(matches!(outcome, KeyOutcome::Continue));
    assert_eq!(app.input_mode, InputMode::ContainerShell);
    assert_eq!(app.shell_container_index, 0);
    assert!(app.status_message.contains("Select container"));
}

#[test]
fn c_without_project_reports_no_selection() {
    let mut app = App::new(test_config());

    let outcome = app.handle_key(KeyEvent::new(KeyCode::Char('c'), NONE), None);

    assert!(matches!(outcome, KeyOutcome::Continue));
    assert_eq!(app.input_mode, InputMode::Normal);
    assert_eq!(app.status_message, "No project selected");
}

#[test]
fn c_without_running_containers_reports_status() {
    let mut app = App::new(test_config());
    app.statuses = vec![test_status_with_containers(
        &native("/tmp/lazydc-test"),
        "app",
        vec![test_container("exited-id", "app-job-1", "job", "exited")],
    )];

    let outcome = app.handle_key(KeyEvent::new(KeyCode::Char('c'), NONE), None);

    assert!(matches!(outcome, KeyOutcome::Continue));
    assert_eq!(app.input_mode, InputMode::Normal);
    assert_eq!(app.status_message, "No running containers");
}

#[test]
fn container_shell_selector_moves_and_clamps() {
    let mut app = App::new(test_config());
    app.statuses = vec![test_status_with_containers(
        &native("/tmp/lazydc-test"),
        "app",
        vec![
            test_container("web-id", "app-web-1", "web", "running"),
            test_container("db-id", "app-db-1", "db", "running"),
        ],
    )];
    app.start_container_shell();

    app.handle_container_shell_key(KeyEvent::new(KeyCode::Char('j'), NONE));
    assert_eq!(app.shell_container_index, 1);

    app.handle_container_shell_key(KeyEvent::new(KeyCode::Down, NONE));
    assert_eq!(app.shell_container_index, 1);

    app.handle_container_shell_key(KeyEvent::new(KeyCode::Char('k'), NONE));
    assert_eq!(app.shell_container_index, 0);
}

#[test]
fn container_shell_selector_cancel_resets_mode() {
    let mut app = App::new(test_config());
    app.statuses = vec![test_status_with_containers(
        &native("/tmp/lazydc-test"),
        "app",
        vec![test_container("web-id", "app-web-1", "web", "running")],
    )];
    app.start_container_shell();

    let outcome = app.handle_container_shell_key(KeyEvent::new(KeyCode::Esc, NONE));

    assert!(matches!(outcome, KeyOutcome::Continue));
    assert_eq!(app.input_mode, InputMode::Normal);
    assert_eq!(app.shell_container_index, 0);
    assert_eq!(app.status_message, "Container shell cancelled");
}

#[test]
fn container_shell_selector_enter_returns_shell_launch() {
    let mut app = App::new(test_config());
    app.statuses = vec![test_status_with_containers(
        &native("/tmp/lazydc-test"),
        "app",
        vec![
            test_container("web-id", "app-web-1", "web", "running"),
            test_container("db-id", "app-db-1", "db", "running"),
        ],
    )];
    app.start_container_shell();
    app.shell_container_index = 1;

    let outcome = app.handle_container_shell_key(KeyEvent::new(KeyCode::Enter, NONE));

    match outcome {
        KeyOutcome::OpenShell(launch) => {
            assert_eq!(launch.docker_bin, native("docker"));
            assert_eq!(launch.project_name, "app");
            assert_eq!(launch.container_id, "db-id");
            assert_eq!(launch.container_name, "app-db-1");
        }
        outcome => panic!("expected shell launch, got {outcome:?}"),
    }
    assert_eq!(app.input_mode, InputMode::Normal);
    assert_eq!(app.shell_container_index, 0);
}

#[test]
fn c_ignores_marked_projects() {
    let mut app = App::new(test_config());
    app.statuses = vec![
        test_status_with_containers(
            &native("/tmp/lazydc-test"),
            "app",
            vec![test_container("app-id", "app-web-1", "web", "running")],
        ),
        test_status_with_containers(
            &native("/tmp/lazydc-test"),
            "other",
            vec![test_container("other-id", "other-web-1", "web", "running")],
        ),
    ];
    app.selected_index = 0;
    app.marked.insert("other".to_string());

    app.handle_key(KeyEvent::new(KeyCode::Char('c'), NONE), None);
    let launch = app.selected_shell_launch().expect("shell should launch");

    assert_eq!(launch.container_id, "app-id");
}

#[test]
fn shell_choice_survives_containers_that_go_away() {
    let mut app = App::new(test_config());
    app.statuses = vec![test_status_with_containers(
        &native("/tmp/lazydc-test"),
        "app",
        vec![test_container("web-id", "app-web-1", "web", "running")],
    )];
    press(&mut app, KeyCode::Char('c'));
    app.handle_event(TuiEvent::StatusesLoaded(vec![test_status()]));
    assert!(matches!(press(&mut app, KeyCode::Enter), KeyOutcome::Continue));
    assert_eq!(app.status_message, "No running containers");
    assert_eq!(app.input_mode, InputMode::ContainerShell);
    press(&mut app, KeyCode::Down);
    assert_eq!(app.shell_container_index, 0);
}

#[test]
fn shell_command_uses_docker_exec_with_bash_fallback() {
    let command = shell_command(&native("/usr/bin/docker"), "container-id");

    assert_eq!(command.program, native("/usr/bin/docker"));
    assert_eq!(
        command.args,
        vec![
            "exec",
            "-it",
            "container-id",
            "sh",
            "-lc",
            "command -v bash >/dev/null 2>&1 && exec bash || exec sh"
        ]
    );
    assert!(command.display.contains("/usr/bin/docker exec -it container-id"));
}

#[test]
fn shell_command_display_is_exact() {
    let command = shell_command(&native("docker"), "id");
    assert_eq!(
        command.display,
        "docker exec -it id sh -lc 'command -v bash >/dev/null 2>&1 && exec bash || exec sh'"
    );
    assert_eq!(shell_launch_failure(&command), format!("failed to launch {}", command.display));
}

#[test]
fn d_confirms_remove_without_volumes() {
    let mut app = App::new(test_config());
    app.statuses = vec![test_status()];

    let outcome = app.handle_key(KeyEvent::new(KeyCode::Char('d'), NONE), None);

    assert!(matches!(outcome, KeyOutcome::Continue));
    let pending = app.pending_action.expect("remove should require confirmation");
    assert_eq!(pending.label, "remove");
    match pending.action {
        TuiAction::Compose(Action::Remove(options)) => assert!(!options.volumes),
        action => panic!("expected remove action, got {action:?}"),
    }
}

#[test]
fn uppercase_d_confirms_remove_with_volumes() {
    let mut app = App::new(test_config());
    app.statuses = vec![test_status()];

    let outcome = app.handle_key(KeyEvent::new(KeyCode::Char('D'), NONE), None);

    assert!(matches!(outcome, KeyOutcome::Continue));
    let pending = app.pending_action.expect("remove should require confirmation");
    assert_eq!(pending.label, "remove with volumes");
    match pending.action {
        TuiAction::Compose(Action::Remove(options)) => assert!(options.volumes),
        action => panic!("expected remove action, got {action:?}"),
    }
}

#[test]
fn x_confirms_delete_project_files() {
    let mut app = App::new(test_config());
    app.statuses = vec![test_status()];

    let outcome = app.handle_key(KeyEvent::new(KeyCode::Char('x'), NONE), None);

    assert!(matches!(outcome, KeyOutcome::Continue));
    let pending = app.pending_action.expect("delete should require confirmation");
    assert_eq!(pending.label, "delete project files");
    assert!(matches!(pending.action, TuiAction::DeleteProjectFiles));
}

#[test]
fn uppercase_x_confirms_purge_project() {
    let mut app = App::new(test_config());
    app.statuses = vec![test_status()];

    let outcome = app.handle_key(KeyEvent::new(KeyCode::Char('X'), NONE), None);

    assert!(matches!(outcome, KeyOutcome::Continue));
    let pending = app.pending_action.expect("purge should require confirmation");
    assert_eq!(pending.label, "purge project");
    assert!(matches!(pending.action, TuiAction::PurgeProject));
}

#[test]
fn actions_run_once_they_are_confirmed() {
    for (key, action) in
        [('u', Action::Deploy), ('U', Action::Update), ('s', Action::Stop), ('r', Action::Restart)]
    {
        let mut app = app_with(&["app", "other"]);
        assert!(matches!(press(&mut app, KeyCode::Char(key)), KeyOutcome::Continue));
        assert!(!app.command_running);
        match press(&mut app, KeyCode::Char('y')) {
            KeyOutcome::RunAction { projects, action: asked } => {
                assert_eq!(asked, action);
                assert_eq!(projects.len(), 1);
                assert_eq!(projects[0].name, "app");
            }
            outcome => panic!("expected an action, got {outcome:?}"),
        }
        assert!(app.command_running);
        assert!(app.pending_action.is_none());
    }
}

#[test]
fn declined_actions_do_not_run() {
    for key in [KeyCode::Esc, KeyCode::Char('n'), KeyCode::Char('q')] {
        let mut app = app_with(&["app"]);
        press(&mut app, KeyCode::Char('U'));
        assert_eq!(app.status_message, "Confirm update for 1 project(s)");
        assert!(matches!(press(&mut app, KeyCode::Char('z')), KeyOutcome::Continue));
        assert!(app.pending_action.is_some());
        assert!(matches!(press(&mut app, key), KeyOutcome::Continue));
        assert!(app.pending_action.is_none());
        assert_eq!(app.status_message, "update cancelled");
        assert!(!app.command_running);
    }
}

#[test]
fn deletion_and_purge_are_asked_for() {
    for (key, wanted) in [('x', false), ('X', true)] {
        let mut app = app_with(&["app"]);
        press(&mut app, KeyCode::Char(key));
        match press(&mut app, KeyCode::Enter) {
            KeyOutcome::DeleteProjects { projects, purge } => {
                assert_eq!(purge, wanted);
                assert_eq!(projects[0].name, "app");
            }
            outcome => panic!("expected a deletion, got {outcome:?}"),
        }
    }
}

#[test]
fn logs_need_no_confirmation() {
    let mut app = app_with(&["app"]);
    match press(&mut app, KeyCode::Char('l')) {
        KeyOutcome::RunAction { action, .. } => {
            assert_eq!(action, Action::Logs(LogsOptions { follow: false, tail: 100 }));
        }
        outcome => panic!("expected logs, got {outcome:?}"),
    }
    let mut empty = app_with(&[]);
    assert!(matches!(press(&mut empty, KeyCode::Char('l')), KeyOutcome::Continue));
    assert_eq!(empty.status_message, "No project selected");
}

#[test]
fn action_keys_are_idle_while_commands_run() {
    for key in ['n', 'e', 'E', 'c', 'u', 'U', 's', 'r', 'd', 'D', 'x', 'X', 'l'] {
        let mut app = app_with(&["app"]);
        app.command_running = true;
        let message = app.status_message.clone();
        assert!(matches!(press(&mut app, KeyCode::Char(key)), KeyOutcome::Continue));
        assert!(app.pending_action.is_none());
        assert_eq!(app.input_mode, InputMode::Normal);
        assert_eq!(app.status_message, message);
    }
    let mut app = app_with(&["app"]);
    app.command_running = true;
    assert!(matches!(press(&mut app, KeyCode::Char('q')), KeyOutcome::Quit));
}

#[test]
fn marked_projects_are_acted_on_in_list_order() {
    let mut app = app_with(&["a", "b", "c"]);
    press(&mut app, KeyCode::Down);
    press(&mut app, KeyCode::Down);
    press(&mut app, KeyCode::Char(' '));
    press(&mut app, KeyCode::Up);
    press(&mut app, KeyCode::Up);
    press(&mut app, KeyCode::Char(' '));
    press(&mut app, KeyCode::Down);
    let names: Vec<String> =
        app.selected_projects().into_iter().map(|project| project.name).collect();
    assert_eq!(names, vec!["a", "c"]);
    press(&mut app, KeyCode::Char('u'));
    assert_eq!(app.status_message, "Confirm deploy for 2 project(s)");
}

#[test]
fn single_mark_leaves_actions_on_the_highlighted_project() {
    let mut app = app_with(&["a", "b"]);
    let names = |app: &App| -> Vec<String> {
        app.selected_projects().into_iter().map(|project| project.name).collect()
    };
    assert_eq!(names(&app), vec!["a"]);
    app.marked.insert("b".to_string());
    assert_eq!(names(&app), vec!["a"]);
    press(&mut app, KeyCode::Char('X'));
    assert_eq!(app.status_message, "Confirm purge project for 1 project(s)");
    press(&mut app, KeyCode::Char('n'));
    app.marked.insert("a".to_string());
    assert_eq!(names(&app), vec!["a", "b"]);
    assert!(names(&app_with(&[])).is_empty());
}

#[test]
fn marking_and_inverting_twice_restore() {
    let mut app = app_with(&["a", "b", "c"]);
    press(&mut app, KeyCode::Char(' '));
    assert!(app.marked.contains("a"));
    press(&mut app, KeyCode::Char(' '));
    assert!(app.marked.is_empty());

    press(&mut app, KeyCode::Char(' '));
    press(&mut app, KeyCode::Char('A'));
    assert!(!app.marked.contains("a"));
    assert!(app.marked.contains("b") && app.marked.contains("c"));
    assert_eq!(app.status_message, "Inverted 3 visible project(s)");
    press(&mut app, KeyCode::Char('A'));
    assert!(app.marked.contains("a"));
    assert!(!app.marked.contains("b") && !app.marked.contains("c"));
}

#[test]
fn selecting_all_marks_or_clears_what_is_visible() {
    let mut app = app_with(&["ab", "b", "c"]);
    app.marked.insert("c".to_string());
    press(&mut app, KeyCode::Char('/'));
    press(&mut app, KeyCode::Char('b'));
    press(&mut app, KeyCode::Enter);
    assert_eq!(app.visible_project_names(), vec!["ab", "b"]);
    press(&mut app, KeyCode::Char('a'));
    assert_eq!(app.status_message, "Selected 2 visible project(s)");
    assert!(app.marked.contains("ab") && app.marked.contains("b") && app.marked.contains("c"));
    press(&mut app, KeyCode::Char('a'));
    assert_eq!(app.status_message, "Cleared 2 visible project(s)");
    assert!(!app.marked.contains("ab") && !app.marked.contains("b") && app.marked.contains("c"));

    let mut empty = app_with(&[]);
    press(&mut empty, KeyCode::Char('a'));
    assert_eq!(empty.status_message, "No visible projects");
    press(&mut empty, KeyCode::Char('A'));
    assert_eq!(empty.status_message, "No visible projects");
}

#[test]
fn filter_narrows_the_list_and_keeps_the_highlight_in_it() {
    let mut app = app_with(&["alpha", "beta", "gamma"]);
    press(&mut app, KeyCode::Down);
    press(&mut app, KeyCode::Down);
    assert_eq!(app.selected_index, 2);
    press(&mut app, KeyCode::Char('/'));
    assert_eq!(app.input_mode, InputMode::Filter);
    press(&mut app, KeyCode::Char('t'));
    assert_eq!(app.filter, "t");
    assert_eq!(app.selected_index, 0);
    assert_eq!(app.selected_status().unwrap().project.name, "beta");
    app.handle_key(KeyEvent::new(KeyCode::Char('z'), CONTROL), None);
    assert_eq!(app.filter, "t");
    press(&mut app, KeyCode::Backspace);
    press(&mut app, KeyCode::Backspace);
    assert_eq!(app.filter, "");
    assert_eq!(app.visible_project_names(), vec!["alpha", "beta", "gamma"]);
    press(&mut app, KeyCode::Esc);
    assert_eq!(app.input_mode, InputMode::Normal);
}

#[test]
fn focus_decides_what_moves() {
    let mut app = app_with(&["a", "b"]);
    press(&mut app, KeyCode::Up);
    assert_eq!(app.selected_index, 0);
    press(&mut app, KeyCode::Char('j'));
    press(&mut app, KeyCode::Char('j'));
    assert_eq!(app.selected_index, 1);
    press(&mut app, KeyCode::PageDown);
    assert_eq!(app.selected_index, 1);

    press(&mut app, KeyCode::Enter);
    assert_eq!(app.focus, Focus::Details);
    press(&mut app, KeyCode::Char(' '));
    assert!(app.marked.is_empty());
    press(&mut app, KeyCode::PageDown);
    press(&mut app, KeyCode::Char('j'));
    assert_eq!(app.details_scroll, 6);
    press(&mut app, KeyCode::PageUp);
    press(&mut app, KeyCode::PageUp);
    assert_eq!(app.details_scroll, 0);

    press(&mut app, KeyCode::Tab);
    assert_eq!(app.focus, Focus::Output);
    press(&mut app, KeyCode::Down);
    assert_eq!(app.output_scroll, 1);
    press(&mut app, KeyCode::Tab);
    assert_eq!(app.focus, Focus::Projects);
    assert_eq!(next_focus(next_focus(next_focus(Focus::Output))), Focus::Output);
}

#[test]
fn scrolling_stops_at_both_ends() {
    assert_eq!(adjust_scroll(0, -1), 0);
    assert_eq!(adjust_scroll(10, -3), 7);
    assert_eq!(adjust_scroll(u16::MAX, 1), u16::MAX);
    assert_eq!(adjust_scroll(5, i16::MIN), 0);
    assert_eq!(adjust_scroll(40_000, i16::MIN), 40_000 - 32_768);
}

#[test]
fn output_keeps_the_newest_lines() {
    let mut app = App::new(test_config());
    for n in 0..OUTPUT_LIMIT + 5 {
        app.push_output(format!("line {n}"), n % 2 == 0);
    }
    assert_eq!(app.output.len(), OUTPUT_LIMIT);
    assert_eq!(app.output[0].text, "line 5");
    assert_eq!(app.output[OUTPUT_LIMIT - 1].text, format!("line {}", OUTPUT_LIMIT + 4));
    assert_eq!(app.output_scroll as usize, OUTPUT_LIMIT - 1);
}

#[test]
fn reports_of_commands_reach_the_output() {
    let mut app = app_with(&["app"]);
    let project = app.statuses[0].project.clone();
    let mut sink = TuiSink::new();
    sink.command_started(&project, "docker compose stop");
    sink.command_output("stopping", true);
    sink.command_finished(&project, false, Some(2));
    for event in sink.take_events() {
        assert!(!app.handle_event(event));
    }
    assert!(sink.take_events().is_empty());
    assert!(app.command_running);
    assert_eq!(app.last_command, Some("docker compose stop".to_string()));
    let lines: Vec<(&str, bool)> =
        app.output.iter().map(|line| (line.text.as_str(), line.stderr)).collect();
    assert_eq!(
        lines,
        vec![
            ("==> [app] docker compose stop", false),
            ("stopping", true),
            ("-- [app] failed (exit 2)", true),
        ]
    );

    assert!(app.handle_event(TuiEvent::BatchFinished(ActionBatchResult::default())));
    assert!(!app.command_running);
    assert_eq!(app.status_message, "Command batch completed");

    app.begin_refresh();
    let failures = vec![
        ProjectFailure { project: "a".to_string(), message: "x".to_string() },
        ProjectFailure { project: "b".to_string(), message: "y".to_string() },
    ];
    assert_eq!(format_failures(&failures), "a: x | b: y");
    let result = ActionBatchResult { failed_projects: failures };
    assert!(!app.handle_event(TuiEvent::BatchFinished(result)));
    assert_eq!(app.status_message, "a: x | b: y");
}

#[test]
fn loaded_statuses_replace_the_list() {
    let mut app = app_with(&["a", "b", "c"]);
    app.selected_index = 2;
    assert!(app.refresh_due());
    app.begin_refresh();
    assert!(app.refresh_inflight);
    assert!(!app.refresh_due());
    app.handle_event(TuiEvent::StatusesLoaded(vec![test_status()]));
    assert!(!app.refresh_inflight);
    assert_eq!(app.selected_index, 0);
    assert_eq!(app.status_message, "Ready");

    app.begin_refresh();
    app.handle_event(TuiEvent::StatusRefreshFailed("failed to read compose dir /srv".to_string()));
    assert!(!app.refresh_inflight);
    assert_eq!(app.status_message, "failed to read compose dir /srv");
    assert_eq!(app.statuses.len(), 1);
}

#[test]
fn editors_and_shells_are_reported() {
    let mut app = app_with(&["app"]);
    let launch: EditorLaunch = app.edit_selected_env(test_editor()).unwrap();
    app.editor_unprepared(&launch, "failed to create dir /x".to_string());
    assert_eq!(app.status_message, "failed to create dir /x");
    assert_eq!(app.output[0].text, "Failed to prepare .env for app: failed to create dir /x");
    app.editor_finished(&launch, Ok(()));
    assert_eq!(app.status_message, "Edited .env for app");
    assert_eq!(app.output[1].text, "Edited .env for app at /tmp/lazydc-test/app/.env");
    app.editor_finished(&launch, Err("editor exited with 1".to_string()));
    assert_eq!(app.status_message, "Editor failed for .env for app: editor exited with 1");

    app.statuses = vec![test_status_with_containers(
        &native("/tmp/lazydc-test"),
        "app",
        vec![test_container("web-id", "app-web-1", "web", "running")],
    )];
    let shell = app.selected_shell_launch().unwrap();
    app.shell_finished(&shell, Ok(()));
    assert_eq!(app.status_message, "Shell exited for app-web-1");
    assert_eq!(app.output[3].text, "Shell exited for app-web-1 in app");
    app.shell_finished(&shell, Err("shell exited with 1".to_string()));
    assert_eq!(app.status_message, "Shell failed for app-web-1: shell exited with 1");
    assert_eq!(app.output[4].text, "Shell failed for app-web-1 in app: shell exited with 1");
}

#[test]
fn editor_is_visual_then_editor() {
    let text = |value: &str| Some(value.to_string());
    assert_eq!(choose_editor(text("vim"), text("nano")), text("vim"));
    assert_eq!(choose_editor(text(" \t\u{3000}"), text("nano -w")), text("nano -w"));
    assert_eq!(choose_editor(None, text("")), None);
    assert_eq!(choose_editor(None, None), None);
}

#[test]
fn blanks_are_those_of_unicode() {
    for code in 0..=0x10_ffff_u32 {
        if let Some(ch) = char::from_u32(code) {
            assert_eq!(is_blank_text(&ch.to_string()), ch.is_whitespace(), "{code:x}");
        }
    }
}

#[test]
fn editor_is_run_by_a_shell() {
    let command = editor_command("code --wait", &native("/srv/a b"));
    assert_eq!(command.program, "/bin/sh");
    let args: Vec<String> = command.args.iter().map(|arg| arg.display()).collect();
    assert_eq!(args, vec!["-c", "exec code --wait \"$1\"", "lazydc-editor", "/srv/a b"]);
    assert_eq!(editor_launch_failure("vim"), "failed to launch editor vim");
}

#[test]
fn visits_and_their_return_are_told_apart() {
    assert_eq!(exit_result("editor", true, Some(0)), Ok(()));
    assert_eq!(exit_result("editor", false, Some(2)), Err("editor exited with 2".to_string()));
    assert_eq!(exit_result("shell", false, None), Err("shell exited with signal".to_string()));

    let failed = || Err("shell exited with 1".to_string());
    assert_eq!(after_suspension("shell", Ok(()), true), Ok(()));
    assert_eq!(after_suspension("shell", failed(), true), failed());
    assert_eq!(
        after_suspension("shell", Ok(()), false),
        Err("failed to restore TUI after shell".to_string())
    );
    assert_eq!(
        after_suspension("shell", failed(), false),
        Err("shell exited with 1; additionally failed to restore TUI after shell: \
             failed to restore TUI after shell"
            .to_string())
    );
    assert_eq!(suspension_failure("editor"), "failed to suspend TUI for editor");
    assert_eq!(edit_dir_failure(&native("/x")), "failed to create dir /x");
    assert_eq!(edit_file_failure(&native("/x/y")), "failed to create file /x/y");
}
