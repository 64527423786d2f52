//! What holds of what is shown, whatever there is to show.

use vstd::prelude::*;

use crate::docker_api::{ContainerModel, HealthSummary, ProjectState, StatusModel, SummaryModel};
use crate::help;
use crate::key_laws;
use crate::metrics::{self, ContainerMetrics, MetricsModel};
use crate::native;
use crate::output::LineModel;
use crate::report;
use crate::screen::{self, SpanModel, Tone};
use crate::text;
use crate::tui::{self, AppModel, Focus, InputMode, PendingModel};
use crate::views::{self, Hue, RowModel, ShareModel, WindowModel};

verus! {

/// A line in one tone.
pub open spec fn one_span(text: Seq<char>, tone: Tone) -> Seq<SpanModel> {
    seq![SpanModel { text, tone }]
}

/// A line is made of its pieces: a plain one of one plain piece, a toned one of one piece in that
/// tone, a headed one of a bold piece and a plain one behind it. Its characters are those of its
/// pieces, in their order.
pub proof fn lines_are_made_of_their_pieces(
    text: Seq<char>,
    head: Seq<char>,
    tone: Tone,
    line: Seq<SpanModel>,
    piece: SpanModel,
)
    ensures
        screen::plain_text(text) == one_span(text, Tone::Plain),
        screen::toned_text(text, tone) == one_span(text, tone),
        screen::headed_text(head, text) == seq![
            SpanModel { text: head, tone: Tone::Bold },
            SpanModel { text, tone: Tone::Plain },
        ],
        screen::line_chars(seq![]) == Seq::<char>::empty(),
        screen::line_chars(line.push(piece)) == screen::line_chars(line) + piece.text,
{
    assert(line.push(piece).drop_last() =~= line);
}

/// The resource usage of a project or a container in one line: the CPU share, the memory, what was
/// received and then what was sent, what was read and then what was written, and the processes. A
/// percentage is shown only where the share itself is known. Without metrics there is a dash.
pub open spec fn usage_line(
    cpu: Seq<char>,
    memory: Seq<char>,
    rx: u64,
    tx: u64,
    read: u64,
    write: u64,
    pids: Seq<char>,
) -> Seq<char> {
    "cpu "@ + cpu + "  mem "@ + memory + "  net rx/tx "@ + (metrics::bytes_text(rx as nat) + "/"@
        + metrics::bytes_text(tx as nat)) + "  block r/w "@ + (metrics::bytes_text(read as nat)
        + "/"@ + metrics::bytes_text(write as nat)) + "  pids "@ + pids
}

/// A percentage, where the share is known and written; else a dash.
pub open spec fn share_or_dash(known: bool, percent: Option<Seq<char>>) -> Seq<char> {
    match percent {
        Some(percent) => if known {
            percent + "%"@
        } else {
            "-"@
        },
        None => "-"@,
    }
}

/// A memory usage, its limit where that is known, and its percentage where that is known and written.
pub open spec fn memory_or_dash(
    usage: Option<u64>,
    limit: Option<u64>,
    known: bool,
    percent: Option<Seq<char>>,
) -> Seq<char> {
    match (usage, limit) {
        (None, _) => "-"@,
        (Some(usage), None) => metrics::bytes_text(usage as nat),
        (Some(usage), Some(limit)) => {
            let both = metrics::bytes_text(usage as nat) + "/"@ + metrics::bytes_text(limit as nat);
            match percent {
                Some(percent) => if known {
                    both + " ("@ + percent + "%)"@
                } else {
                    both
                },
                None => both,
            }
        },
    }
}

/// A number of processes, where it is known; else a dash.
pub open spec fn pids_or_dash(pids: Option<u64>) -> Seq<char> {
    match pids {
        Some(pids) => text::decimal_text(pids as nat),
        None => "-"@,
    }
}

/// What projects and containers use is shown from their own metrics, each number in its place.
pub proof fn usage_is_shown_in_its_place(
    project: MetricsModel,
    container: ContainerMetrics,
    texts: ShareModel,
)
    ensures
        views::project_usage(None, texts) == "-"@,
        views::container_usage(None, texts) == "-"@,
        views::project_usage(Some(project), texts) == usage_line(
            share_or_dash(project.cpu_percent is Some, texts.cpu),
            memory_or_dash(
                project.memory_usage_bytes,
                project.memory_limit_bytes,
                project.memory_percent is Some,
                texts.memory,
            ),
            project.network_rx_bytes,
            project.network_tx_bytes,
            project.block_read_bytes,
            project.block_write_bytes,
            pids_or_dash(project.pids),
        ),
        views::container_usage(Some(container), texts) == usage_line(
            share_or_dash(container.cpu_percent is Some, texts.cpu),
            memory_or_dash(
                container.memory_usage_bytes,
                container.memory_limit_bytes,
                container.memory_percent is Some,
                texts.memory,
            ),
            container.network_rx_bytes,
            container.network_tx_bytes,
            container.block_read_bytes,
            container.block_write_bytes,
            pids_or_dash(container.pids),
        ),
{
}

/// The state of a project on the command line: its name, state, health and running containers, then
/// what it uses, each in its column and from its own place.
pub proof fn status_columns_stand_in_order(status: StatusModel, texts: ShareModel)
    ensures
        ({
            let summary = status.summary;
            let start = text::padded(status.project.name, 20) + " "@ + text::padded(
                summary.state_text(),
                8,
            ) + " "@ + text::padded(summary.health_text(), 16) + " "@ + text::padded(
                text::decimal_text(summary.running_containers) + "/"@ + text::decimal_text(
                    summary.total_containers,
                ) + " running"@,
                13,
            );
            &&& summary.metrics is None ==> report::status_line(status, texts) == start + " cpu "@
                + text::padded("-"@, 7) + " mem "@ + text::padded("-"@, 24) + " net "@
                + text::padded("-"@, 17) + " block "@ + text::padded("-"@, 17) + " pids "@ + "-"@
            &&& summary.metrics matches Some(metrics) ==> report::status_line(status, texts) == start
                + " cpu "@ + text::padded(
                share_or_dash(metrics.cpu_percent is Some, texts.cpu),
                7,
            ) + " mem "@ + text::padded(
                memory_or_dash(
                    metrics.memory_usage_bytes,
                    metrics.memory_limit_bytes,
                    metrics.memory_percent is Some,
                    texts.memory,
                ),
                24,
            ) + " net "@ + text::padded(
                metrics::bytes_text(metrics.network_rx_bytes as nat) + "/"@ + metrics::bytes_text(
                    metrics.network_tx_bytes as nat,
                ),
                17,
            ) + " block "@ + text::padded(
                metrics::bytes_text(metrics.block_read_bytes as nat) + "/"@ + metrics::bytes_text(
                    metrics.block_write_bytes as nat,
                ),
                17,
            ) + " pids "@ + pids_or_dash(metrics.pids)
        }),
{
}

/// A text that is cut keeps its beginning, one character less than fits, and ends in a tilde.
pub proof fn cut_texts_keep_their_beginning(value: Seq<char>, width: nat)
    ensures
        value.len() <= width ==> views::cut(value, width) == value,
        value.len() > width > 0 ==> views::cut(value, width) == value.take(width - 1) + seq!['~'],
        value.len() > width && width == 0 ==> views::cut(value, width).len() == 0,
{
    if value.len() > width && width > 0 {
        assert(views::cut(value, width) =~= value.take(width - 1) + seq!['~']);
    }
}

/// Each state has a letter and a colour of its own, and each health a letter.
pub proof fn states_have_letters_and_colours()
    ensures
        views::state_letter(ProjectState::Running) == "R"@,
        views::state_letter(ProjectState::Partial) == "P"@,
        views::state_letter(ProjectState::Stopped) == "S"@,
        views::state_letter(ProjectState::Missing) == "M"@,
        views::state_letter(ProjectState::Error) == "E"@,
        views::state_letter(ProjectState::Unknown) == "?"@,
        views::health_letter(HealthSummary::Healthy) == "H"@,
        views::health_letter(HealthSummary::Unhealthy) == "U"@,
        views::health_letter(HealthSummary::Starting) == "S"@,
        views::health_letter(HealthSummary::NoHealthcheck) == "-"@,
        views::health_letter(HealthSummary::Unknown) == "?"@,
        views::state_hue(ProjectState::Running) == Hue::Green,
        views::state_hue(ProjectState::Partial) == Hue::Yellow,
        views::state_hue(ProjectState::Stopped) == Hue::Gray,
        views::state_hue(ProjectState::Missing) == Hue::DarkGray,
        views::state_hue(ProjectState::Error) == Hue::Red,
        views::state_hue(ProjectState::Unknown) == Hue::Blue,
{
}

/// The panel that has the focus, and no other, says so in its title and by its border.
pub proof fn focus_is_shown_on_its_panel(panel: Focus, current: Focus)
    ensures
        panel == current ==> views::border_hue(panel, current) == Hue::Cyan && views::active_text(
            panel,
            current,
        ) == "[active]"@,
        panel != current ==> views::border_hue(panel, current) == Hue::Default && views::active_text(
            panel,
            current,
        ) == ""@,
{
}

/// The summary of a project in the list is the longest of these forms that leaves room for the mark,
/// a blank and four characters of the name: state, health, running containers, CPU and memory in
/// words; the same in letters; the running containers with CPU and memory; with CPU; alone; nothing.
pub proof fn list_summary_is_the_longest_that_fits(
    summary: SummaryModel,
    texts: ShareModel,
    width: nat,
)
    ensures
        ({
            let cpu = share_or_dash(
                summary.metrics is Some && summary.metrics->0.cpu_percent is Some,
                texts.cpu,
            );
            let memory = share_or_dash(
                summary.metrics is Some && summary.metrics->0.memory_percent is Some,
                texts.memory,
            );
            let running = text::decimal_text(summary.running_containers) + "/"@
                + text::decimal_text(summary.total_containers);
            let words = summary.state_text() + " "@ + summary.health_text() + " "@ + (running
                + " running"@) + " cpu "@ + cpu + " mem "@ + memory;
            let letters = views::state_letter(summary.state) + views::health_letter(summary.health)
                + " "@ + running + " "@ + cpu + " "@ + memory;
            let numbers = running + " "@ + cpu + " "@ + memory;
            let few = running + " "@ + cpu;
            let shown = views::list_summary(summary, texts, width);
            if words.len() + 9 <= width {
                shown == words
            } else if letters.len() + 9 <= width {
                shown == letters
            } else if numbers.len() + 9 <= width {
                shown == numbers
            } else if few.len() + 9 <= width {
                shown == few
            } else if running.len() + 9 <= width {
                shown == running
            } else {
                shown.len() == 0
            }
        }),
{
    reveal_with_fuel(views::fitting_summary, 6);
}

/// A project in the list begins with its mark, goes on with its name, and ends with its summary where
/// there is room for one. A name that is too long is cut, so that the summary stays. Where there is
/// not even room for the mark, that is cut.
pub proof fn list_lines_show_mark_name_and_summary(
    status: StatusModel,
    marked: bool,
    texts: ShareModel,
    width: nat,
)
    ensures
        ({
            let line = views::list_line(status, marked, texts, width);
            let summary = views::list_summary(status.summary, texts, width);
            let mark = if marked {
                "[*] "@
            } else {
                "[ ] "@
            };
            &&& width == 0 ==> line.len() == 0
            &&& 0 < width < 4 ==> line == mark.take(width - 1) + seq!['~']
            &&& width >= 4 && summary.len() == 0 ==> line == mark + views::cut(
                status.project.name,
                (width - 4) as nat,
            )
            &&& summary.len() > 0 ==> summary.len() + 9 <= width && line == mark + views::cut(
                status.project.name,
                (width - 5 - summary.len()) as nat,
            ) + " "@ + summary
        }),
{
    reveal_strlit("[*] ");
    reveal_strlit("[ ] ");
    reveal_strlit(" ");
    list_summary_is_the_longest_that_fits(status.summary, texts, width);
    if width >= 4 {
        views::cut_fits(status.project.name, (width - 4) as nat);
    } else {
        let mark = views::mark_text(marked);
        views::cut_fits(status.project.name, 0);
        assert(views::cut(status.project.name, 0) =~= seq![]);
        assert(mark + views::cut(status.project.name, 0) =~= mark);
        if width > 0 {
            assert(views::cut(mark, width) =~= mark.take(width - 1) + seq!['~']);
        }
    }
    let summary = views::list_summary(status.summary, texts, width);
    if summary.len() > 0 {
        views::cut_fits(status.project.name, (width - 5 - summary.len()) as nat);
    }
}

/// The list has one row for each name that it shows, in their order: the line of the first project of
/// that name, with its mark and its percentages, in the colour of its state.
pub proof fn rows_show_the_projects_of_the_list(
    app: AppModel,
    texts: Seq<ShareModel>,
    width: nat,
    row: int,
    index: int,
)
    requires
        0 <= row < app.visible().len(),
        key_laws::first_of_name(app.statuses, index),
        app.statuses[index].project.name == app.visible()[row],
    ensures
        app.rows(texts, width).len() == app.visible().len(),
        app.rows(texts, width)[row] == (RowModel {
            line: views::list_line(
                app.statuses[index],
                app.marked.contains(app.visible()[row]),
                if index < texts.len() {
                    texts[index]
                } else {
                    ShareModel { cpu: None, memory: None }
                },
                width,
            ),
            hue: views::state_hue(app.statuses[index].summary.state),
        }),
        app.list_title() == "Projects ["@ + text::decimal_text(app.statuses.len()) + "]  "@ + (
        if app.focus == Focus::Projects {
            "[active]"@
        } else {
            ""@
        }),
{
    index_is_first(app.statuses, index);
}

proof fn index_is_first(statuses: Seq<StatusModel>, index: int)
    requires
        key_laws::first_of_name(statuses, index),
    ensures
        views::index_named(statuses, statuses[index].project.name) == index,
    decreases statuses.len(),
{
    if index > 0 {
        assert(statuses[0].project.name != statuses[index].project.name);
        let rest = statuses.drop_first();
        assert(rest[index - 1] == statuses[index]);
        assert forall|j: int| 0 <= j < index - 1 implies (#[trigger] rest[j]).project.name
            != rest[index - 1].project.name by {
            assert(rest[j] == statuses[j + 1]);
        }
        index_is_first(rest, index - 1);
    }
}

/// The details begin with the message and the filter, and say whether that is being edited. They then
/// show the highlighted project: its name, its directory, its compose file, its state, health and
/// running containers, and what it uses; below these what is wrong with it, where anything is, and its
/// containers.
pub proof fn details_show_the_highlighted_project(
    app: AppModel,
    texts: ShareModel,
    container_texts: Seq<ShareModel>,
)
    ensures
        ({
            let panel = app.details_panel(texts, container_texts);
            let lines = panel.lines;
            &&& panel.scroll == app.details_scroll
            &&& panel.border == (if app.focus == Focus::Details {
                Hue::Cyan
            } else {
                Hue::Default
            })
            &&& panel.title == "Details "@ + (if app.focus == Focus::Details {
                "[active]"@
            } else {
                ""@
            })
            &&& lines[0] == one_span("Status: "@ + app.status_message, Tone::Plain)
            &&& app.input_mode == InputMode::Filter ==> lines[1] == one_span(
                "Filter: "@ + app.filter + " (editing)"@,
                Tone::Plain,
            )
            &&& app.input_mode != InputMode::Filter ==> lines[1] == one_span(
                "Filter: "@ + app.filter + ""@,
                Tone::Plain,
            )
            &&& lines[2] == one_span(""@, Tone::Plain)
            &&& app.selected() is None ==> lines.len() == 4 && lines[3] == one_span(
                "No project selected"@,
                Tone::Plain,
            )
            &&& app.selected() matches Some(status) ==> {
                let at: int = if status.error is Some {
                    9
                } else {
                    8
                };
                &&& lines[3] == seq![
                    SpanModel { text: "Project: "@, tone: Tone::Bold },
                    SpanModel { text: status.project.name, tone: Tone::Plain },
                ]
                &&& lines[4] == one_span(
                    "Path: "@ + native::shown_text(status.project.dir),
                    Tone::Plain,
                )
                &&& lines[5] == one_span(
                    "Compose: "@ + native::shown_text(status.project.compose_file),
                    Tone::Plain,
                )
                &&& lines[6] == one_span(
                    "Summary: "@ + status.summary.state_text() + " / "@
                        + status.summary.health_text() + " / "@ + (text::decimal_text(
                        status.summary.running_containers,
                    ) + "/"@ + text::decimal_text(status.summary.total_containers) + " running"@),
                    Tone::Plain,
                )
                &&& lines[7] == one_span(
                    "Metrics: "@ + views::project_usage(status.summary.metrics, texts),
                    Tone::Plain,
                )
                &&& status.error matches Some(error) ==> lines[8] == one_span(
                    "API: "@ + error,
                    Tone::Plain,
                )
                &&& lines[at] == one_span(""@, Tone::Plain)
                &&& lines[at + 1] == one_span("Containers:"@, Tone::Plain)
                &&& lines.skip(at + 2) == views::containers_lines(
                    status.containers,
                    container_texts,
                    status.containers.len(),
                )
            }
        }),
{
    if let Some(status) = app.selected() {
        let at: int = if status.error is Some {
            9
        } else {
            8
        };
        let lines = app.details_panel(texts, container_texts).lines;
        assert(lines.skip(at + 2) =~= views::containers_lines(
            status.containers,
            container_texts,
            status.containers.len(),
        ));
    }
}

/// The containers of a project are shown one below the other, in their order: each with its name,
/// state, health and status, then its image, its ports and its start, each where it is known, and then
/// what it uses.
pub proof fn containers_are_shown_in_order(
    containers: Seq<ContainerModel>,
    texts: Seq<ShareModel>,
    count: nat,
)
    requires
        count < containers.len(),
    ensures
        ({
            let container = containers[count as int];
            let own = if count < texts.len() {
                texts[count as int]
            } else {
                ShareModel { cpu: None, memory: None }
            };
            let none: Seq<Seq<SpanModel>> = seq![];
            let before = views::containers_lines(containers, texts, count);
            let head = "- "@ + container.name + " ["@ + container.state + "] "@ + (
            match container.health {
                Some(health) => health,
                None => "no-healthcheck"@,
            }) + " "@ + (match container.status {
                Some(status) => status,
                None => ""@,
            });
            let image = match container.image {
                Some(image) => seq![one_span("  image: "@ + image, Tone::Plain)],
                None => none,
            };
            let ports = if container.ports.len() > 0 {
                seq![
                    one_span("  ports: "@ + text::joined(container.ports, ", "@), Tone::Plain),
                ]
            } else {
                none
            };
            let started = match container.started_at {
                Some(at) => seq![one_span("  started: "@ + at, Tone::Plain)],
                None => none,
            };
            &&& views::containers_lines(containers, texts, 0) == none
            &&& views::containers_lines(containers, texts, count + 1) == before + (seq![
                one_span(head, Tone::Plain),
            ] + image + ports + started + seq![
                one_span(
                    "  metrics: "@ + views::container_usage(container.metrics, own),
                    Tone::Plain,
                ),
            ])
        }),
{
}

/// The output shows the last command, where there is one, and then every line that is kept, in order;
/// lines of errors are set off, and no others.
pub proof fn output_shows_every_line(app: AppModel)
    ensures
        ({
            let panel = app.output_panel();
            let at: int = if app.last_command is Some {
                2
            } else {
                0
            };
            &&& panel.scroll == app.output_scroll
            &&& panel.border == (if app.focus == Focus::Output {
                Hue::Cyan
            } else {
                Hue::Default
            })
            &&& panel.title == "Output "@ + (if app.focus == Focus::Output {
                "[active]"@
            } else {
                ""@
            })
            &&& app.last_command matches Some(command) ==> panel.lines[0] == seq![
                SpanModel { text: "Last command: "@, tone: Tone::Bold },
                SpanModel { text: command, tone: Tone::Plain },
            ] && panel.lines[1] == one_span(""@, Tone::Plain)
            &&& panel.lines.len() == app.output.len() + at
            &&& forall|i: int|
                0 <= i < app.output.len() ==> #[trigger] panel.lines[i + at] == one_span(
                    app.output[i].text,
                    if app.output[i].stderr {
                        Tone::Error
                    } else {
                        Tone::Plain
                    },
                )
        }),
{
}

/// Each window is open if and only if there is reason for it: the help where it is asked for, the
/// question where an action waits, the name of a new project where one is being named, the choice of
/// container where one is being chosen for a highlighted project.
pub proof fn windows_are_open_for_a_reason(app: AppModel, window: WindowModel)
    ensures
        app.windows().contains(window) <==> {
            ||| app.show_help && window == app.help_window()
            ||| app.pending_action is Some && window == app.confirmation_window(
                app.pending_action->0,
            )
            ||| app.input_mode == InputMode::NewProject && window == app.new_project_window()
            ||| app.input_mode == InputMode::ContainerShell && app.selected() is Some && window
                == app.shell_window(app.selected()->0)
        },
{
    let windows = app.windows();
    let helps: int = if app.show_help {
        1
    } else {
        0
    };
    let asked: int = if app.pending_action is Some {
        1
    } else {
        0
    };
    if app.show_help {
        assert(windows[0] == app.help_window());
    }
    if app.pending_action is Some {
        assert(windows[helps] == app.confirmation_window(app.pending_action->0));
    }
    if app.input_mode == InputMode::NewProject {
        assert(windows[helps + asked] == app.new_project_window());
    }
    if app.input_mode == InputMode::ContainerShell && app.selected() is Some {
        assert(windows[helps + asked] == app.shell_window(app.selected()->0));
    }
}

/// The question names the action and says how many projects it is for, and how it can be answered.
pub proof fn questions_name_the_action(app: AppModel, pending: PendingModel)
    ensures
        ({
            let window = app.confirmation_window(pending);
            &&& window.panel.title == "Confirmation"@
            &&& window.panel.border == Hue::Yellow
            &&& window.panel.scroll == 0
            &&& window.width_percent == 56
            &&& window.height_percent == 24
            &&& window.panel.lines == seq![
                one_span("Confirm Action"@, Tone::Bold),
                one_span(""@, Tone::Plain),
                one_span(
                    "Run "@ + pending.label + " for "@ + text::decimal_text(
                        app.selected_projects().len(),
                    ) + " project(s)?"@,
                    Tone::Plain,
                ),
                one_span(""@, Tone::Plain),
                one_span("Enter / y   confirm"@, Tone::Plain),
                one_span("Esc / n / q cancel"@, Tone::Plain),
            ]
        }),
{
}

/// While a project is named, the name is shown as far as it is entered, with what is wrong with it, or
/// else what it may hold.
pub proof fn names_are_shown_while_entered(app: AppModel)
    ensures
        ({
            let window = app.new_project_window();
            &&& window.panel.title == "New Project"@
            &&& window.panel.border == Hue::Cyan
            &&& window.panel.scroll == 0
            &&& window.width_percent == 60
            &&& window.height_percent == 28
            &&& window.panel.lines == seq![
                one_span("New Project"@, Tone::Bold),
                one_span(""@, Tone::Plain),
                one_span("Name: "@ + app.new_project_name, Tone::Plain),
                one_span(""@, Tone::Plain),
                match app.new_project_error {
                    Some(error) => one_span("Error: "@ + error, Tone::Error),
                    None => one_span("Allowed: lowercase letters, digits, - and _"@, Tone::Plain),
                },
                one_span(""@, Tone::Plain),
                one_span("Enter create and edit"@, Tone::Plain),
                one_span("Esc cancel"@, Tone::Plain),
            ]
        }),
{
}

/// The choice of container shows the running containers of the project, in their order, each with its
/// service, name and status; the chosen one, and no other, has an arrow.
pub proof fn choices_show_running_containers(app: AppModel, status: StatusModel)
    ensures
        ({
            let window = app.shell_window(status);
            let lines = window.panel.lines;
            let running = status.containers.filter(
                |container: ContainerModel| container.state == "running"@,
            );
            let end: int = running.len() + 2int;
            &&& window.panel.title == "Container Shell"@
            &&& window.panel.border == Hue::Cyan
            &&& window.panel.scroll == 0
            &&& window.width_percent == 68
            &&& window.height_percent == 48
            &&& lines.len() == running.len() + 6
            &&& lines[0] == one_span("Container Shell: "@ + status.project.name, Tone::Bold)
            &&& lines[1] == one_span(""@, Tone::Plain)
            &&& forall|i: int|
                0 <= i < running.len() ==> #[trigger] lines[i + 2] == one_span(
                    (if i == app.shell_container_index {
                        ">"@
                    } else {
                        " "@
                    }) + " "@ + text::padded(
                        match running[i].service {
                            Some(service) => service,
                            None => "-"@,
                        },
                        16,
                    ) + " "@ + running[i].name + "  "@ + (match running[i].status {
                        Some(status) => status,
                        None => ""@,
                    }),
                    Tone::Plain,
                )
            &&& lines[end] == one_span(""@, Tone::Plain)
            &&& lines[end + 1] == one_span("Enter open shell"@, Tone::Plain)
            &&& lines[end + 2] == one_span("j/k or Up/Down move"@, Tone::Plain)
            &&& lines[end + 3] == one_span("Esc/q cancel"@, Tone::Plain)
        }),
{
    let running = |container: ContainerModel| container.running();
    let state = |container: ContainerModel| container.state == "running"@;
    assert(running =~= state);
}

/// The help is shown from the line that it is scrolled to, no further than its last one, and says how
/// far that is.
pub proof fn help_is_shown_from_its_position(app: AppModel)
    ensures
        ({
            let window = app.help_window();
            let at = key_laws::between(0, app.help_scroll as int, 37);
            &&& window.panel.scroll == at
            &&& window.panel.title == "Help "@ + text::decimal_text(at as nat) + "/"@
                + text::decimal_text(37)
            &&& window.panel.border == Hue::Cyan
            &&& window.panel.lines == help::help_text()
            &&& window.width_percent == 72
            &&& window.height_percent == 70
        }),
{
}

/// The help names every key with what it does.
pub proof fn help_names_every_key()
    ensures
        ({
            let lines = help::help_text();
            let says = |index: int, line: Seq<char>| lines[index] == one_span(line, Tone::Plain);
            &&& lines.len() == 38
            &&& lines[0] == seq![
                SpanModel { text: "TUI Help"@, tone: Tone::Bold },
                SpanModel {
                    text: "  j/k scroll  PgUp/PgDn page  ?/Esc/q close"@,
                    tone: Tone::Plain,
                },
            ]
            &&& says(2, "Navigation"@)
            &&& says(3, "  j / k or Up / Down   Move selection"@)
            &&& says(4, "  Tab                  Switch focus"@)
            &&& says(5, "  Enter                Focus details"@)
            &&& says(6, "  PageUp / PageDown    Scroll details or output"@)
            &&& says(8, "Selection"@)
            &&& says(9, "  Space                Mark or unmark project"@)
            &&& says(
                10,
                "  a                    Select all visible projects, or clear if all visible are selected"@,
            )
            &&& says(11, "  A                    Invert visible project selection"@)
            &&& says(12, "  /                    Filter projects"@)
            &&& says(14, "Actions"@)
            &&& says(15, "  u                    Deploy, with confirmation"@)
            &&& says(16, "  U                    Update, with confirmation"@)
            &&& says(17, "  s                    Stop, with confirmation"@)
            &&& says(18, "  r                    Restart, with confirmation"@)
            &&& says(19, "  d                    Remove, with confirmation"@)
            &&& says(20, "  D                    Remove and delete volumes, with confirmation"@)
            &&& says(21, "  x                    Delete project files, with confirmation"@)
            &&& says(22, "  X                    Purge project, volumes, and files, with confirmation"@)
            &&& says(23, "  l                    Show logs"@)
            &&& says(24, "  e                    Edit current project compose file"@)
            &&& says(25, "  E                    Edit current project .env"@)
            &&& says(26, "  Alt+e                Edit .env.global"@)
            &&& says(27, "  c                    Open shell in a project container"@)
            &&& says(29, "Container Shell"@)
            &&& says(30, "  Enter                Open selected container shell"@)
            &&& says(31, "  j / k or Up / Down   Move container selection"@)
            &&& says(32, "  Esc / q              Cancel"@)
            &&& says(34, "General"@)
            &&& says(35, "  n                    Create a new project"@)
            &&& says(36, "  q                    Quit"@)
            &&& says(37, "  ?                    Toggle this help"@)
        }),
{
}

} // verus!
