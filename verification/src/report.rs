//! What the command line does with what it is asked for, and how it reports.

use vstd::prelude::*;

use crate::cli::{Commands, TargetArgs, TargetError};
use crate::compose::{Action, ActionBatchResult, FailureModel, LogsOptions, RemoveOptions};
use crate::config::AppConfig;
use crate::docker_api::{ProjectStatus, StatusModel};
use crate::metrics::{self, MetricsModel, ProjectMetrics};
use crate::native;
use crate::project::{Project, ProjectModel};
use crate::text;
use crate::views::{self, ShareModel, ShareTexts};

verus! {

/// Something for the program to do.
#[derive(Debug)]
pub enum Task {
    Tui,
    ExampleConfig,
    List { json: bool },
    Status { targets: TargetArgs, json: bool },
    Run { targets: TargetArgs, action: Action },
}

/// What a subcommand asks for. Without one, the screen is opened; `log_lines` are shown of the logs
/// where the command does not say how many.
pub open spec fn task_of(command: Option<Commands>, log_lines: usize) -> Task {
    match command {
        None => Task::Tui,
        Some(Commands::Tui) => Task::Tui,
        Some(Commands::ExampleConfig) => Task::ExampleConfig,
        Some(Commands::List { json }) => Task::List { json },
        Some(Commands::Status { targets, json }) => Task::Status { targets, json },
        Some(Commands::Deploy(targets)) => Task::Run { targets, action: Action::Deploy },
        Some(Commands::Update(targets)) => Task::Run { targets, action: Action::Update },
        Some(Commands::Stop(targets)) => Task::Run { targets, action: Action::Stop },
        Some(Commands::Restart(targets)) => Task::Run { targets, action: Action::Restart },
        Some(Commands::Remove(args)) => Task::Run {
            targets: args.targets,
            action: Action::Remove(
                RemoveOptions {
                    volumes: args.volumes,
                    remove_orphans: args.remove_orphans,
                    rmi: args.rmi,
                },
            ),
        },
        Some(Commands::Logs(args)) => Task::Run {
            targets: args.targets,
            action: Action::Logs(
                LogsOptions {
                    follow: args.follow,
                    tail: match args.tail {
                        Some(tail) => tail,
                        None => log_lines,
                    },
                },
            ),
        },
    }
}

/// Decides what a subcommand asks for.
pub fn plan_task(command: Option<Commands>, config: &AppConfig) -> (task: Task)
    ensures
        task == task_of(command, config.default_log_lines),
{
    match command {
        None => Task::Tui,
        Some(Commands::Tui) => Task::Tui,
        Some(Commands::ExampleConfig) => Task::ExampleConfig,
        Some(Commands::List { json }) => Task::List { json },
        Some(Commands::Status { targets, json }) => Task::Status { targets, json },
        Some(Commands::Deploy(targets)) => Task::Run { targets, action: Action::Deploy },
        Some(Commands::Update(targets)) => Task::Run { targets, action: Action::Update },
        Some(Commands::Stop(targets)) => Task::Run { targets, action: Action::Stop },
        Some(Commands::Restart(targets)) => Task::Run { targets, action: Action::Restart },
        Some(Commands::Remove(args)) => Task::Run {
            targets: args.targets,
            action: Action::Remove(
                RemoveOptions {
                    volumes: args.volumes,
                    remove_orphans: args.remove_orphans,
                    rmi: args.rmi,
                },
            ),
        },
        Some(Commands::Logs(args)) => {
            let tail: usize = match args.tail {
                Some(tail) => tail,
                None => config.default_log_lines,
            };
            Task::Run {
                targets: args.targets,
                action: Action::Logs(LogsOptions { follow: args.follow, tail }),
            }
        },
    }
}

/// An action needs projects to act on.
pub fn action_targets(projects: Vec<Project>) -> (targets: Result<Vec<Project>, TargetError>)
    ensures
        targets == (if projects@.len() == 0 {
            Err::<Vec<Project>, TargetError>(TargetError::NoProjects)
        } else {
            Ok(projects)
        }),
{
    if projects.len() == 0 {
        Err(TargetError::NoProjects)
    } else {
        Ok(projects)
    }
}

/// A project in the list: its name in a column, and its compose file.
pub open spec fn project_line(project: ProjectModel) -> Seq<char> {
    text::padded(project.name, 20) + " "@ + native::shown_text(project.compose_file)
}

/// Writes a project for the list.
pub fn list_project(project: &Project) -> (line: String)
    ensures
        line@ == project_line(project@),
{
    text::pad_right(&project.name, 20).concat(" ").concat(&project.compose_file.display())
}

/// The CPU share of a project.
pub open spec fn cpu_column(metrics: Option<MetricsModel>, texts: ShareModel) -> Seq<char> {
    match metrics {
        Some(metrics) => metrics::percent_text(views::text_if(metrics.cpu_percent is Some, texts.cpu)),
        None => "-"@,
    }
}

/// The memory usage of a project.
pub open spec fn memory_column(metrics: Option<MetricsModel>, texts: ShareModel) -> Seq<char> {
    match metrics {
        Some(metrics) => metrics::memory_text(
            metrics.memory_usage_bytes,
            metrics.memory_limit_bytes,
            views::text_if(metrics.memory_percent is Some, texts.memory),
        ),
        None => "-"@,
    }
}

/// The network traffic of a project.
pub open spec fn network_column(metrics: Option<MetricsModel>) -> Seq<char> {
    match metrics {
        Some(metrics) => metrics::io_text(metrics.network_rx_bytes, metrics.network_tx_bytes),
        None => "-"@,
    }
}

/// The block traffic of a project.
pub open spec fn block_column(metrics: Option<MetricsModel>) -> Seq<char> {
    match metrics {
        Some(metrics) => metrics::io_text(metrics.block_read_bytes, metrics.block_write_bytes),
        None => "-"@,
    }
}

/// The processes of a project.
pub open spec fn pids_column(metrics: Option<MetricsModel>) -> Seq<char> {
    match metrics {
        Some(metrics) => metrics::pids_text(metrics.pids),
        None => "-"@,
    }
}

/// The state of a project in columns. `texts` are its percentages.
pub open spec fn status_line(status: StatusModel, texts: ShareModel) -> Seq<char> {
    let metrics = status.summary.metrics;
    text::padded(status.project.name, 20) + " "@
        + text::padded(status.summary.state_text(), 8) + " "@
        + text::padded(status.summary.health_text(), 16) + " "@
        + text::padded(status.summary.ratio_text() + " running"@, 13) + " cpu "@
        + text::padded(cpu_column(metrics, texts), 7) + " mem "@
        + text::padded(memory_column(metrics, texts), 24) + " net "@
        + text::padded(network_column(metrics), 17) + " block "@
        + text::padded(block_column(metrics), 17) + " pids "@
        + pids_column(metrics)
}

fn format_metric_cpu(metrics: &Option<ProjectMetrics>, texts: &ShareTexts) -> (text: String)
    ensures
        text@ == cpu_column(metrics.deep_view(), texts@),
{
    match metrics {
        Some(metrics) => metrics::format_cpu(views::str_if(metrics.cpu_percent.is_some(), &texts.cpu)),
        None => "-".to_owned(),
    }
}

fn format_metric_memory(metrics: &Option<ProjectMetrics>, texts: &ShareTexts) -> (text: String)
    ensures
        text@ == memory_column(metrics.deep_view(), texts@),
{
    match metrics {
        Some(metrics) => metrics::format_memory(
            metrics.memory_usage_bytes,
            metrics.memory_limit_bytes,
            views::str_if(metrics.memory_percent.is_some(), &texts.memory),
        ),
        None => "-".to_owned(),
    }
}

fn format_metric_net(metrics: &Option<ProjectMetrics>) -> (text: String)
    ensures
        text@ == network_column(metrics.deep_view()),
{
    match metrics {
        Some(metrics) => metrics::format_io(metrics.network_rx_bytes, metrics.network_tx_bytes),
        None => "-".to_owned(),
    }
}

fn format_metric_block(metrics: &Option<ProjectMetrics>) -> (text: String)
    ensures
        text@ == block_column(metrics.deep_view()),
{
    match metrics {
        Some(metrics) => metrics::format_io(metrics.block_read_bytes, metrics.block_write_bytes),
        None => "-".to_owned(),
    }
}

fn format_metric_pids(metrics: &Option<ProjectMetrics>) -> (text: String)
    ensures
        text@ == pids_column(metrics.deep_view()),
{
    match metrics {
        Some(metrics) => metrics::format_pids(metrics.pids),
        None => "-".to_owned(),
    }
}

/// Writes the state of a project in columns. `texts` are its percentages with one decimal.
pub fn list_status(status: &ProjectStatus, texts: &ShareTexts) -> (line: String)
    ensures
        line@ == status_line(status@, texts@),
{
    let metrics = &status.summary.metrics;
    text::pad_right(&status.project.name, 20).concat(" ").concat(
        &text::pad_right(status.summary.state_label(), 8),
    ).concat(" ").concat(&text::pad_right(status.summary.health_label(), 16)).concat(" ").concat(
        &text::pad_right(&status.summary.running_summary(), 13),
    ).concat(" cpu ").concat(&text::pad_right(&format_metric_cpu(metrics, texts), 7)).concat(
        " mem ",
    ).concat(&text::pad_right(&format_metric_memory(metrics, texts), 24)).concat(" net ").concat(
        &text::pad_right(&format_metric_net(metrics), 17),
    ).concat(" block ").concat(&text::pad_right(&format_metric_block(metrics), 17)).concat(
        " pids ",
    ).concat(&format_metric_pids(metrics))
}

/// The failures of a batch in one line: `project (message)`, with commas between them.
pub open spec fn batch_failures_text(failures: Seq<FailureModel>) -> Seq<char> {
    text::joined(
        failures.map_values(
            |failure: FailureModel| failure.project + " ("@ + failure.message + ")"@,
        ),
        ", "@,
    )
}

/// Whether a batch succeeded; if it did not, for which projects it failed.
pub open spec fn batch_verdict(failures: Seq<FailureModel>) -> Result<(), Seq<char>> {
    if failures.len() == 0 {
        Ok(())
    } else {
        Err("one or more projects failed: "@ + batch_failures_text(failures))
    }
}

/// Tells whether a batch succeeded.
pub fn handle_batch_result(result: &ActionBatchResult) -> (verdict: Result<(), String>)
    ensures
        text::outcome_view(verdict) == batch_verdict(result@),
{
    let failures = &result.failed_projects;
    assert(result@.len() == failures@.len());
    if failures.len() == 0 {
        return Ok(());
    }
    let ghost wanted = result@.map_values(
        |failure: FailureModel| failure.project + " ("@ + failure.message + ")"@,
    );
    let mut parts: Vec<String> = Vec::new();
    for i in 0..failures.len()
        invariant
            wanted == failures.deep_view().map_values(
                |failure: FailureModel| failure.project + " ("@ + failure.message + ")"@,
            ),
            parts.deep_view() == wanted.take(i as int),
    {
        let ghost before = parts.deep_view();
        let failure = &failures[i];
        assert(failures.deep_view()[i as int] == failure@);
        parts.push(failure.project.clone().concat(" (").concat(&failure.message).concat(")"));
        assert(parts.deep_view() =~= before.push(wanted[i as int]));
        assert(parts.deep_view() =~= wanted.take(i + 1));
    }
    assert(wanted.take(wanted.len() as int) =~= wanted);
    Err("one or more projects failed: ".to_owned().concat(&text::join_texts(&parts, ", ")))
}

} // verus!
