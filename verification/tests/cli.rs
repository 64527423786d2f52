//! Which projects a command means, what it asks for, and how it reports.

use lazydc::cli::{
    resolve_projects, select_projects, selection_items, Commands, LogsArgs, RemoveArgs, RmiMode,
    TargetArgs, TargetError,
};
use lazydc::compose::{Action, ActionBatchResult, LogsOptions, ProjectFailure, RemoveOptions};
use lazydc::config::AppConfig;
use lazydc::docker_api::{HealthSummary, ProjectState, ProjectStatus, ProjectSummary};
use lazydc::metrics::{CpuShare, MemoryShare, ProjectMetrics};
use lazydc::native::NativeString;
use lazydc::project::Project;
use lazydc::report::{
    action_targets, handle_batch_result, list_project, list_status, plan_task, Task,
};
use lazydc::views::ShareTexts;

fn native(text: &str) -> NativeString {
    NativeString::from_text(text)
}

fn project(name: &str) -> Project {
    let dir = native("/srv").join_text(name);
    Project {
        name: name.to_string(),
        dir: dir.clone(),
        compose_file: dir.join_text("compose.yaml"),
        env_file: None,
    }
}

fn targets(projects: &[&str], all: bool, select: bool) -> TargetArgs {
    TargetArgs {
        projects: projects.iter().map(|name| name.to_string()).collect(),
        all,
        select,
    }
}

fn names(projects: &[Project]) -> Vec<&str> {
    projects.iter().map(|project| project.name.as_str()).collect()
}

#[test]
fn without_a_choice_all_projects_are_meant() {
    let discovered = vec![project("a"), project("b")];
    let chosen = resolve_projects(&discovered, &targets(&[], false, false), &vec![]).unwrap();
    assert_eq!(names(&chosen), vec!["a", "b"]);
    let all = resolve_projects(&discovered, &targets(&[], true, false), &vec![]).unwrap();
    assert_eq!(names(&all), vec!["a", "b"]);
}

#[test]
fn named_projects_keep_the_order_of_discovery() {
    let discovered = vec![project("a"), project("b"), project("c")];
    let args = targets(&["c", "a", "c"], false, false);
    let chosen = resolve_projects(&discovered, &args, &vec![]).unwrap();
    assert_eq!(names(&chosen), vec!["a", "c"]);
}

#[test]
fn unknown_names_are_refused() {
    let discovered = vec![project("a")];
    let args = targets(&["a", "nope", "neither"], false, false);
    let error = resolve_projects(&discovered, &args, &vec![]).unwrap_err();
    assert_eq!(error.message(), "unknown project: nope");
}

#[test]
fn names_exclude_all_and_select() {
    for args in [targets(&["a"], true, false), targets(&["a"], false, true)] {
        let error = args.validate().unwrap_err();
        assert_eq!(error.message(), "cannot combine explicit projects with --all or --select");
        assert!(resolve_projects(&vec![project("a")], &args, &vec![]).is_err());
    }
    assert!(targets(&[], true, true).validate().is_ok());
}

#[test]
fn picked_projects_are_meant() {
    let discovered = vec![project("a"), project("b"), project("c")];
    assert_eq!(
        selection_items(&discovered),
        vec!["a  /srv/a/compose.yaml", "b  /srv/b/compose.yaml", "c  /srv/c/compose.yaml"]
    );
    let args = targets(&[], false, true);
    assert!(args.needs_selection());
    assert!(!targets(&["a"], false, false).needs_selection());
    let picked = select_projects(&discovered, &vec![2, 0]);
    assert_eq!(picked, vec!["c", "a"]);
    let chosen = resolve_projects(&discovered, &args, &picked).unwrap();
    assert_eq!(names(&chosen), vec!["a", "c"]);
    let none = resolve_projects(&discovered, &args, &vec![]).unwrap();
    assert!(none.is_empty());
}

#[test]
fn actions_need_projects() {
    let error = action_targets(vec![]).unwrap_err();
    assert!(matches!(error, TargetError::NoProjects));
    assert_eq!(error.message(), "no projects selected");
    assert_eq!(names(&action_targets(vec![project("a")]).unwrap()), vec!["a"]);
}

fn config() -> AppConfig {
    AppConfig {
        compose_dir: native("/srv"),
        docker_bin: native("docker"),
        refresh_interval_ms: 2_000,
        default_log_lines: 100,
    }
}

fn action_of(command: Commands) -> Action {
    match plan_task(Some(command), &config()) {
        Task::Run { action, .. } => action,
        task => panic!("expected an action, got {task:?}"),
    }
}

#[test]
fn commands_become_tasks() {
    assert!(matches!(plan_task(None, &config()), Task::Tui));
    assert!(matches!(plan_task(Some(Commands::Tui), &config()), Task::Tui));
    assert!(matches!(plan_task(Some(Commands::ExampleConfig), &config()), Task::ExampleConfig));
    assert!(matches!(
        plan_task(Some(Commands::List { json: true }), &config()),
        Task::List { json: true }
    ));
    let none = || targets(&[], false, false);
    let status = Commands::Status { targets: targets(&["a"], false, false), json: false };
    match plan_task(Some(status), &config()) {
        Task::Status { targets, json } => {
            assert_eq!(targets.projects, vec!["a"]);
            assert!(!json);
        }
        task => panic!("expected a status, got {task:?}"),
    }
    assert_eq!(action_of(Commands::Deploy(none())), Action::Deploy);
    assert_eq!(action_of(Commands::Update(none())), Action::Update);
    assert_eq!(action_of(Commands::Stop(none())), Action::Stop);
    assert_eq!(action_of(Commands::Restart(none())), Action::Restart);
    let remove = RemoveArgs {
        targets: none(),
        volumes: true,
        remove_orphans: false,
        rmi: Some(RmiMode::Local),
    };
    assert_eq!(
        action_of(Commands::Remove(remove)),
        Action::Remove(RemoveOptions {
            volumes: true,
            remove_orphans: false,
            rmi: Some(RmiMode::Local),
        })
    );
    let logs = LogsArgs { targets: none(), follow: true, tail: None };
    assert_eq!(
        action_of(Commands::Logs(logs.clone())),
        Action::Logs(LogsOptions { follow: true, tail: 100 })
    );
    assert_eq!(
        action_of(Commands::Logs(LogsArgs { tail: Some(5), ..logs })),
        Action::Logs(LogsOptions { follow: true, tail: 5 })
    );
    assert_eq!(RmiMode::Local.to_string(), "local");
    assert_eq!(RmiMode::All.to_string(), "all");
}

#[test]
fn projects_are_listed_in_columns() {
    assert_eq!(list_project(&project("app")), "app                  /srv/app/compose.yaml");
    let long = project("a-name-of-more-than-twenty-letters");
    assert_eq!(
        list_project(&long),
        format!("{:<20} {}", long.name, long.compose_file.display())
    );
}

#[test]
fn statuses_are_listed_in_columns() {
    let mut status = ProjectStatus {
        project: project("app"),
        summary: ProjectSummary {
            state: ProjectState::Partial,
            health: HealthSummary::Healthy,
            running_containers: 1,
            total_containers: 2,
            metrics: None,
        },
        containers: vec![],
        error: None,
    };
    let texts = ShareTexts { cpu: Some("12.3".to_string()), memory: Some("50.0".to_string()) };
    assert_eq!(
        list_status(&status, &texts),
        format!(
            "{:<20} {:<8} {:<16} {:<13} cpu {:<7} mem {:<24} net {:<17} block {:<17} pids {}",
            "app", "partial", "healthy", "1/2 running", "-", "-", "-", "-", "-"
        )
    );
    status.summary.metrics = Some(ProjectMetrics {
        cpu_percent: Some(vec![CpuShare { cpu_delta: 1, system_delta: 2, online_cpus: 3 }]),
        memory_usage_bytes: Some(1_024),
        memory_limit_bytes: Some(2_048),
        memory_percent: Some(MemoryShare { usage: 1_024, limit: 2_048 }),
        network_rx_bytes: 1,
        network_tx_bytes: 2,
        block_read_bytes: 3,
        block_write_bytes: 4,
        pids: Some(5),
    });
    assert_eq!(
        list_status(&status, &texts),
        format!(
            "{:<20} {:<8} {:<16} {:<13} cpu {:<7} mem {:<24} net {:<17} block {:<17} pids {}",
            "app",
            "partial",
            "healthy",
            "1/2 running",
            "12.3%",
            "1.0KiB/2.0KiB (50.0%)",
            "1B/2B",
            "3B/4B",
            "5"
        )
    );
}

#[test]
fn failed_projects_are_named() {
    let failure = |project: &str, message: &str| ProjectFailure {
        project: project.to_string(),
        message: message.to_string(),
    };
    assert_eq!(handle_batch_result(&ActionBatchResult::default()), Ok(()));
    let result = ActionBatchResult {
        failed_projects: vec![failure("a", "command exited with 1"), failure("b", "broken")],
    };
    assert_eq!(
        handle_batch_result(&result),
        Err("one or more projects failed: a (command exited with 1), b (broken)".to_string())
    );
}
