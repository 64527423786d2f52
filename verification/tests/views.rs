//! How the screen is drawn.

use lazydc::compose::Action;
use lazydc::config::AppConfig;
use lazydc::docker_api::{
    ContainerStatus, HealthSummary, ProjectState, ProjectStatus, ProjectSummary,
};
use lazydc::layout::{
    centered_percentages, centered_rect, column_percentages, place_panels, row_percentages, Area,
};
use lazydc::metrics::{ContainerMetrics, CpuShare, MemoryShare, ProjectMetrics};
use lazydc::native::NativeString;
use lazydc::project::Project;
use lazydc::screen::{TextLine, Tone};
use lazydc::tui::{App, Focus, InputMode, PendingAction, TuiAction};
use lazydc::views::{
    draw_details, draw_output, draw_projects, draw_windows, focus_label, health_code,
    project_list_line, project_list_summary, project_state_code, status_style, truncate_to_width, Hue,
    ShareTexts,
};

fn native(text: &str) -> NativeString {
    NativeString::from_text(text)
}

fn unknown() -> ShareTexts {
    ShareTexts { cpu: None, memory: None }
}

fn shares(cpu: &str, memory: &str) -> ShareTexts {
    ShareTexts { cpu: Some(cpu.to_string()), memory: Some(memory.to_string()) }
}

fn metrics() -> ProjectMetrics {
    ProjectMetrics {
        cpu_percent: Some(vec![CpuShare { cpu_delta: 1, system_delta: 2, online_cpus: 3 }]),
        memory_usage_bytes: Some(1_024),
        memory_limit_bytes: Some(2_048),
        memory_percent: Some(MemoryShare { usage: 1_024, limit: 2_048 }),
        network_rx_bytes: 1,
        network_tx_bytes: 2,
        block_read_bytes: 3,
        block_write_bytes: 4,
        pids: Some(5),
    }
}

fn status(name: &str) -> ProjectStatus {
    let dir = native("/srv").join_text(name);
    ProjectStatus {
        project: Project {
            name: name.to_string(),
            dir: dir.clone(),
            compose_file: dir.join_text("compose.yaml"),
            env_file: None,
        },
        summary: ProjectSummary {
            state: ProjectState::Running,
            health: HealthSummary::Healthy,
            running_containers: 3,
            total_containers: 4,
            metrics: Some(metrics()),
        },
        containers: vec![],
        error: None,
    }
}

fn container(name: &str, service: Option<&str>) -> ContainerStatus {
    ContainerStatus {
        id: format!("{name}-id"),
        name: name.to_string(),
        service: service.map(|service| service.to_string()),
        image: Some("nginx:1".to_string()),
        state: "running".to_string(),
        health: None,
        status: Some("Up".to_string()),
        started_at: Some("2024-01-01".to_string()),
        ports: vec!["80/tcp".to_string(), "81/tcp".to_string()],
        metrics: None,
    }
}

fn app(statuses: Vec<ProjectStatus>) -> App {
    let mut app = App::new(AppConfig {
        compose_dir: native("/srv"),
        docker_bin: native("docker"),
        refresh_interval_ms: 2_000,
        default_log_lines: 100,
    });
    app.statuses = statuses;
    app
}

fn texts_of(lines: &[TextLine]) -> Vec<String> {
    lines.iter().map(|line| line.to_string()).collect()
}

#[test]
fn names_are_cut_with_a_tilde() {
    assert_eq!(truncate_to_width("project", 7), "project");
    assert_eq!(truncate_to_width("project", 6), "proje~");
    assert_eq!(truncate_to_width("project", 1), "~");
    assert_eq!(truncate_to_width("project", 0), "");
    assert_eq!(truncate_to_width("\u{e9}\u{e9}\u{e9}", 2), "\u{e9}~");
}

#[test]
fn list_lines_say_as_much_as_fits() {
    let status = status("app");
    let texts = shares("12", "5.0");
    let line = |width: usize| project_list_line(&status, false, &texts, width);
    assert_eq!(line(80), "[ ] app running healthy 3/4 running cpu 12% mem 5.0%");
    assert_eq!(line(53), "[ ] app running healthy 3/4 running cpu 12% mem 5.0%");
    assert_eq!(line(52), "[ ] app RH 3/4 12% 5.0%");
    assert_eq!(line(24), "[ ] app RH 3/4 12% 5.0%");
    assert_eq!(line(23), "[ ] app 3/4 12% 5.0%");
    assert_eq!(line(20), "[ ] app 3/4 12%");
    assert_eq!(line(15), "[ ] app 3/4");
    assert_eq!(line(12), "[ ] app 3/4");
    assert_eq!(line(11), "[ ] app");
    assert_eq!(line(6), "[ ] a~");
    assert_eq!(line(3), "[ ~");
    assert_eq!(line(0), "");
    for width in 0..100 {
        assert!(line(width).chars().count() <= width);
    }
    assert_eq!(project_list_line(&status, true, &texts, 11), "[*] app");
}

#[test]
fn shares_that_are_not_known_are_dashes() {
    let mut status = status("app");
    status.summary.metrics = None;
    let line = project_list_line(&status, false, &shares("12", "5.0"), 80);
    assert_eq!(line, "[ ] app running healthy 3/4 running cpu - mem -");
    status.summary.state = ProjectState::Partial;
    assert_eq!(
        project_list_summary(&status, &shares("12", "5.0"), 80),
        "partial healthy 3/4 running cpu - mem -"
    );
}

#[test]
fn states_and_healths_have_letters() {
    let states = [
        (ProjectState::Running, "R"),
        (ProjectState::Partial, "P"),
        (ProjectState::Stopped, "S"),
        (ProjectState::Missing, "M"),
        (ProjectState::Error, "E"),
        (ProjectState::Unknown, "?"),
    ];
    for (state, code) in states {
        assert_eq!(project_state_code(state), code);
    }
    let healths = [
        (HealthSummary::Healthy, "H"),
        (HealthSummary::Unhealthy, "U"),
        (HealthSummary::Starting, "S"),
        (HealthSummary::NoHealthcheck, "-"),
        (HealthSummary::Unknown, "?"),
    ];
    for (health, code) in healths {
        assert_eq!(health_code(health), code);
    }
    assert_eq!(status_style(ProjectState::Error), Hue::Red);
    assert_eq!(focus_label(Focus::Output, Focus::Output), "[active]");
    assert_eq!(focus_label(Focus::Output, Focus::Details), "");
}

#[test]
fn projects_stand_in_the_list() {
    let mut app = app(vec![status("alpha"), status("beta")]);
    app.marked.insert("beta".to_string());
    app.selected_index = 1;
    let panel = draw_projects(&app, &vec![shares("1.0", "2.0"), shares("30", "40")], 60);
    assert_eq!(panel.title, "Projects [2]  [active]");
    assert_eq!(panel.border, Hue::Cyan);
    assert_eq!(panel.selected, Some(1));
    assert_eq!(panel.rows.len(), 2);
    assert_eq!(panel.rows[0].line, "[ ] alpha running healthy 3/4 running cpu 1.0% mem 2.0%");
    assert_eq!(panel.rows[1].line, "[*] beta running healthy 3/4 running cpu 30% mem 40%");
    assert_eq!(panel.rows[1].hue, Hue::Green);

    app.filter = "zzz".to_string();
    app.focus = Focus::Details;
    let empty = draw_projects(&app, &vec![], 1);
    assert_eq!(empty.title, "Projects [2]  ");
    assert_eq!(empty.border, Hue::Default);
    assert_eq!(empty.selected, None);
    assert!(empty.rows.is_empty());
}

#[test]
fn details_show_project_and_containers() {
    let mut shown = status("app");
    shown.error = Some("slow".to_string());
    let mut web = container("web-1", Some("web"));
    web.metrics = Some(ContainerMetrics {
        cpu_percent: None,
        memory_usage_bytes: Some(10),
        memory_limit_bytes: None,
        memory_percent: None,
        network_rx_bytes: 1,
        network_tx_bytes: 2,
        block_read_bytes: 3,
        block_write_bytes: 4,
        pids: None,
    });
    let mut bare = container("job-1", None);
    bare.image = None;
    bare.health = Some("healthy".to_string());
    bare.status = None;
    bare.started_at = None;
    bare.ports = vec![];
    shown.containers = vec![web, bare];
    let mut app = app(vec![shown]);
    app.status_message = "Ready".to_string();
    app.filter = "a".to_string();
    app.input_mode = InputMode::Filter;
    app.details_scroll = 3;

    let panel = draw_details(&app, &shares("50.0", "25.0"), &vec![shares("9.9", "8.8")]);
    assert_eq!(panel.title, "Details ");
    assert_eq!(panel.scroll, 3);
    assert_eq!(
        texts_of(&panel.lines),
        vec![
            "Status: Ready",
            "Filter: a (editing)",
            "",
            "Project: app",
            "Path: /srv/app",
            "Compose: /srv/app/compose.yaml",
            "Summary: running / healthy / 3/4 running",
            "Metrics: cpu 50.0%  mem 1.0KiB/2.0KiB (25.0%)  net rx/tx 1B/2B  block r/w 3B/4B  pids 5",
            "API: slow",
            "",
            "Containers:",
            "- web-1 [running] no-healthcheck Up",
            "  image: nginx:1",
            "  ports: 80/tcp, 81/tcp",
            "  started: 2024-01-01",
            "  metrics: cpu -  mem 10B  net rx/tx 1B/2B  block r/w 3B/4B  pids -",
            "- job-1 [running] healthy ",
            "  metrics: -",
        ]
    );
    assert_eq!(panel.lines[3].spans[0].tone, Tone::Bold);
    assert_eq!(panel.lines[3].spans[1].text, "app");
}

#[test]
fn details_without_a_project_say_so() {
    let panel = draw_details(&app(vec![]), &unknown(), &vec![]);
    assert_eq!(
        texts_of(&panel.lines),
        vec!["Status: Loading project status...", "Filter: ", "", "No project selected"]
    );
}

#[test]
fn output_is_shown_below_the_last_command() {
    let mut app = app(vec![]);
    app.push_output("fine".to_string(), false);
    app.push_output("bad".to_string(), true);
    let panel = draw_output(&app);
    assert_eq!(panel.title, "Output ");
    assert_eq!(texts_of(&panel.lines), vec!["fine", "bad"]);
    assert_eq!(panel.scroll, 1);
    assert_eq!(panel.lines[0].spans[0].tone, Tone::Plain);
    assert_eq!(panel.lines[1].spans[0].tone, Tone::Error);

    app.last_command = Some("docker compose stop".to_string());
    let panel = draw_output(&app);
    assert_eq!(
        texts_of(&panel.lines),
        vec!["Last command: docker compose stop", "", "fine", "bad"]
    );
}

#[test]
fn windows_open_over_the_panels() {
    let mut app = app(vec![status("app")]);
    assert!(draw_windows(&app).is_empty());

    app.show_help = true;
    app.help_scroll = 99;
    app.pending_action =
        Some(PendingAction { label: "stop", action: TuiAction::Compose(Action::Stop) });
    let windows = draw_windows(&app);
    assert_eq!(windows.len(), 2);
    assert_eq!(windows[0].panel.title, "Help 37/37");
    assert_eq!(windows[0].panel.scroll, 37);
    assert_eq!(windows[0].panel.lines.len(), 38);
    assert_eq!((windows[0].width_percent, windows[0].height_percent), (72, 70));
    assert_eq!(windows[1].panel.title, "Confirmation");
    assert_eq!(windows[1].panel.border, Hue::Yellow);
    assert_eq!(
        texts_of(&windows[1].panel.lines),
        vec![
            "Confirm Action",
            "",
            "Run stop for 1 project(s)?",
            "",
            "Enter / y   confirm",
            "Esc / n / q cancel",
        ]
    );
}

#[test]
fn new_project_window_shows_what_is_wrong() {
    let mut app = app(vec![]);
    app.input_mode = InputMode::NewProject;
    app.new_project_name = "App".to_string();
    let windows = draw_windows(&app);
    assert_eq!(
        texts_of(&windows[0].panel.lines),
        vec![
            "New Project",
            "",
            "Name: App",
            "",
            "Allowed: lowercase letters, digits, - and _",
            "",
            "Enter create and edit",
            "Esc cancel",
        ]
    );
    app.new_project_error = Some("no".to_string());
    let windows = draw_windows(&app);
    assert_eq!(windows[0].panel.lines[4].to_string(), "Error: no");
    assert_eq!(windows[0].panel.lines[4].spans[0].tone, Tone::Error);
    assert_eq!((windows[0].width_percent, windows[0].height_percent), (60, 28));
}

#[test]
fn shell_window_lists_running_containers() {
    let mut shown = status("app");
    let mut stopped = container("job-1", Some("job"));
    stopped.state = "exited".to_string();
    let mut plain = container("db-1", None);
    plain.status = None;
    shown.containers = vec![container("web-1", Some("web")), stopped, plain];
    let mut app = app(vec![shown]);
    app.input_mode = InputMode::ContainerShell;
    app.shell_container_index = 1;
    let windows = draw_windows(&app);
    assert_eq!(
        texts_of(&windows[0].panel.lines),
        vec![
            "Container Shell: app".to_string(),
            "".to_string(),
            format!("  {:<16} web-1  Up", "web"),
            format!("> {:<16} db-1  ", "-"),
            "".to_string(),
            "Enter open shell".to_string(),
            "j/k or Up/Down move".to_string(),
            "Esc/q cancel".to_string(),
        ]
    );

    app.statuses = vec![];
    assert!(draw_windows(&app).is_empty());
}

#[test]
fn panels_share_the_screen() {
    let screen = Area { x: 0, y: 0, width: 100, height: 50 };
    assert_eq!(column_percentages(), vec![32, 68]);
    assert_eq!(row_percentages(), vec![48, 52]);
    let areas = place_panels(screen);
    assert_eq!(areas.projects, Area { x: 0, y: 0, width: 32, height: 50 });
    assert_eq!(areas.details, Area { x: 32, y: 0, width: 68, height: 24 });
    assert_eq!(areas.output, Area { x: 32, y: 24, width: 68, height: 26 });
}

#[test]
fn windows_stand_in_the_middle() {
    let screen = Area { x: 0, y: 0, width: 100, height: 100 };
    assert_eq!(centered_percentages(72), vec![14, 72, 14]);
    assert_eq!(centered_percentages(75), vec![12, 75, 12]);
    assert_eq!(centered_rect(screen, 72, 70), Area { x: 14, y: 15, width: 72, height: 70 });
    assert_eq!(centered_rect(screen, 56, 24), Area { x: 22, y: 38, width: 56, height: 24 });
}

#[test]
fn areas_stay_on_the_screen() {
    for width in 0..60u16 {
        for height in 0..40u16 {
            let screen = Area { x: 0, y: 0, width, height };
            let areas = place_panels(screen);
            let window = centered_rect(screen, 68, 48);
            for area in [areas.projects, areas.details, areas.output, window] {
                assert!(area.x + area.width <= width, "{area:?} in {screen:?}");
                assert!(area.y + area.height <= height, "{area:?} in {screen:?}");
            }
        }
    }
}

/// A percentage of a length, rounded to whole cells.
fn cells(length: u16, percent: u16) -> u16 {
    ((length as u32 * percent as u32 + 50) / 100) as u16
}

fn check_window(screen: Area, width_percent: u16, height_percent: u16) {
    let left = (100 - width_percent) / 2;
    let above = (100 - height_percent) / 2;
    let window = centered_rect(screen, width_percent, height_percent);
    assert_eq!(window.x, screen.x + cells(screen.width, left));
    assert_eq!(window.x + window.width, screen.x + cells(screen.width, left + width_percent));
    assert_eq!(window.y, screen.y + cells(screen.height, above));
    assert_eq!(window.y + window.height, screen.y + cells(screen.height, above + height_percent));
}

#[test]
fn windows_begin_and_end_at_rounded_cells() {
    for size in (0..=260).chain([999, 1_000, 4_321, 32_767, 32_768, 65_534, 65_535]) {
        let screen = Area { x: 0, y: 0, width: size, height: size };
        for (width_percent, height_percent) in [(72, 70), (56, 24), (60, 28), (68, 48)] {
            check_window(screen, width_percent, height_percent);
        }
    }
    for percent in 0..=100 {
        for size in [1, 2, 3, 7, 25, 50, 80, 99, 133] {
            check_window(Area { x: 0, y: 0, width: size, height: size }, percent, 100 - percent);
            check_window(Area { x: 11, y: 5, width: size, height: size }, 100 - percent, percent);
        }
    }
}

#[test]
fn panels_begin_and_end_at_rounded_cells() {
    for size in (0..=260).chain([999, 1_000, 4_321, 32_767, 32_768, 65_534, 65_535]) {
        let screen = Area { x: 0, y: 0, width: size, height: size };
        let areas = place_panels(screen);
        let column = cells(size, 32);
        let row = cells(size, 48);
        assert_eq!(areas.projects, Area { x: 0, y: 0, width: column, height: size });
        assert_eq!(areas.details, Area { x: column, y: 0, width: size - column, height: row });
        assert_eq!(
            areas.output,
            Area { x: column, y: row, width: size - column, height: size - row }
        );
    }
}
