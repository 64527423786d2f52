//! How the state of the screen is shown: the panels, and the windows over them.

use vstd::prelude::*;

use crate::docker_api::{
    ContainerModel, ContainerStatus, HealthSummary, ProjectState, ProjectStatus, StatusModel,
    SummaryModel,
};
use crate::help::{self, HELP_LINE_COUNT};
use crate::metrics::{self, ContainerMetrics, MetricsModel, ProjectMetrics};
use crate::native;
use crate::output::{LineModel, OutputLine};
use crate::screen::{self, SpanModel, TextLine, Tone};
use crate::text;
use crate::tui::{self, App, AppModel, Focus, InputMode, PendingModel};

verus! {

/// The percentages of CPU and memory in writing, without the sign. Each counts only where the share
/// itself is known.
#[derive(Debug)]
pub struct ShareTexts {
    pub cpu: Option<String>,
    pub memory: Option<String>,
}

/// [`ShareTexts`] as plain values.
#[verifier::ext_equal]
pub struct ShareModel {
    pub cpu: Option<Seq<char>>,
    pub memory: Option<Seq<char>>,
}

impl View for ShareTexts {
    type V = ShareModel;

    open spec fn view(&self) -> ShareModel {
        ShareModel { cpu: self.cpu.deep_view(), memory: self.memory.deep_view() }
    }
}

impl DeepView for ShareTexts {
    type V = ShareModel;

    open spec fn deep_view(&self) -> ShareModel {
        self@
    }
}

/// A text, where it counts.
pub open spec fn text_if(known: bool, text: Option<Seq<char>>) -> Option<Seq<char>> {
    if known {
        text
    } else {
        None
    }
}

/// A text, where it counts.
pub fn str_if(known: bool, text: &Option<String>) -> (counted: Option<&str>)
    ensures
        counted.deep_view() == text_if(known, text.deep_view()),
{
    match text {
        Some(text) => if known {
            Some(text.as_str())
        } else {
            None
        },
        None => None,
    }
}

/// All that is known of resource usage, in one line.
pub open spec fn usage_text(
    cpu: Option<Seq<char>>,
    memory: Seq<char>,
    network: Seq<char>,
    block: Seq<char>,
    pids: Option<u64>,
) -> Seq<char> {
    "cpu "@ + metrics::percent_text(cpu) + "  mem "@ + memory + "  net rx/tx "@ + network + "  block r/w "@
        + block + "  pids "@ + metrics::pids_text(pids)
}

/// The resource usage of a project in one line.
pub open spec fn project_usage(metrics: Option<MetricsModel>, texts: ShareModel) -> Seq<char> {
    match metrics {
        None => "-"@,
        Some(metrics) => usage_text(
            text_if(metrics.cpu_percent is Some, texts.cpu),
            metrics::memory_text(
                metrics.memory_usage_bytes,
                metrics.memory_limit_bytes,
                text_if(metrics.memory_percent is Some, texts.memory),
            ),
            metrics::io_text(metrics.network_rx_bytes, metrics.network_tx_bytes),
            metrics::io_text(metrics.block_read_bytes, metrics.block_write_bytes),
            metrics.pids,
        ),
    }
}

/// The resource usage of a container in one line.
pub open spec fn container_usage(metrics: Option<ContainerMetrics>, texts: ShareModel) -> Seq<char> {
    match metrics {
        None => "-"@,
        Some(metrics) => usage_text(
            text_if(metrics.cpu_percent is Some, texts.cpu),
            metrics::memory_text(
                metrics.memory_usage_bytes,
                metrics.memory_limit_bytes,
                text_if(metrics.memory_percent is Some, texts.memory),
            ),
            metrics::io_text(metrics.network_rx_bytes, metrics.network_tx_bytes),
            metrics::io_text(metrics.block_read_bytes, metrics.block_write_bytes),
            metrics.pids,
        ),
    }
}

fn metrics_line(
    cpu_percent: Option<&str>,
    memory: &str,
    network: &str,
    block: &str,
    pids: Option<u64>,
) -> (line: String)
    ensures
        line@ == usage_text(cpu_percent.deep_view(), memory@, network@, block@, pids),
{
    "cpu ".to_owned().concat(&metrics::format_cpu(cpu_percent)).concat("  mem ").concat(memory).concat(
        "  net rx/tx ",
    ).concat(network).concat("  block r/w ").concat(block).concat("  pids ").concat(
        &metrics::format_pids(pids),
    )
}

/// Writes the resource usage of a project in one line.
pub fn project_metrics_line(metrics: &Option<ProjectMetrics>, texts: &ShareTexts) -> (line: String)
    ensures
        line@ == project_usage(metrics.deep_view(), texts@),
{
    match metrics {
        None => "-".to_owned(),
        Some(metrics) => metrics_line(
            str_if(metrics.cpu_percent.is_some(), &texts.cpu),
            &metrics::format_memory(
                metrics.memory_usage_bytes,
                metrics.memory_limit_bytes,
                str_if(metrics.memory_percent.is_some(), &texts.memory),
            ),
            &metrics::format_io(metrics.network_rx_bytes, metrics.network_tx_bytes),
            &metrics::format_io(metrics.block_read_bytes, metrics.block_write_bytes),
            metrics.pids,
        ),
    }
}

/// Writes the resource usage of a container in one line.
pub fn container_metrics_line(metrics: &Option<ContainerMetrics>, texts: &ShareTexts) -> (line:
    String)
    ensures
        line@ == container_usage(*metrics, texts@),
{
    match metrics {
        None => "-".to_owned(),
        Some(metrics) => metrics_line(
            str_if(metrics.cpu_percent.is_some(), &texts.cpu),
            &metrics::format_memory(
                metrics.memory_usage_bytes,
                metrics.memory_limit_bytes,
                str_if(metrics.memory_percent.is_some(), &texts.memory),
            ),
            &metrics::format_io(metrics.network_rx_bytes, metrics.network_tx_bytes),
            &metrics::format_io(metrics.block_read_bytes, metrics.block_write_bytes),
            metrics.pids,
        ),
    }
}

/// A text cut to a width in characters; what is cut shows as a tilde.
pub open spec fn cut(value: Seq<char>, width: nat) -> Seq<char> {
    if value.len() <= width {
        value
    } else if width == 0 {
        seq![]
    } else {
        value.take(width - 1).push('~')
    }
}

/// Cuts a text to a width in characters.
pub fn truncate_to_width(value: &str, width: usize) -> (text: String)
    ensures
        text@ == cut(value@, width as nat),
{
    let chars = text::chars_of(value);
    if chars.len() <= width {
        return value.to_owned();
    }
    let mut text = String::new();
    if width == 0 {
        assert(text@ =~= seq![]);
        return text;
    }
    assert(text@ =~= value@.take(0));
    for i in 0..width - 1
        invariant
            chars@ == value@,
            0 < width < chars@.len(),
            text@ == value@.take(i as int),
    {
        text.push(chars[i]);
        assert(text@ =~= value@.take(i + 1));
    }
    text.push('~');
    text
}

/// A text cut to a width is no wider than that, and is the text itself where it fits.
pub proof fn cut_fits(value: Seq<char>, width: nat)
    ensures
        cut(value, width).len() <= width,
        value.len() <= width ==> cut(value, width) == value,
        value.len() > width > 0 ==> cut(value, width).last() == '~' && cut(
            value,
            width,
        ).drop_last().is_prefix_of(value),
{
    if value.len() > width && width > 0 {
        assert(cut(value, width).drop_last() =~= value.take(width - 1));
    }
}

/// The letter that stands for a state.
pub open spec fn state_letter(state: ProjectState) -> Seq<char> {
    match state {
        ProjectState::Running => "R"@,
        ProjectState::Partial => "P"@,
        ProjectState::Stopped => "S"@,
        ProjectState::Missing => "M"@,
        ProjectState::Error => "E"@,
        ProjectState::Unknown => "?"@,
    }
}

/// The letter that stands for a health.
pub open spec fn health_letter(health: HealthSummary) -> Seq<char> {
    match health {
        HealthSummary::Healthy => "H"@,
        HealthSummary::Unhealthy => "U"@,
        HealthSummary::Starting => "S"@,
        HealthSummary::NoHealthcheck => "-"@,
        HealthSummary::Unknown => "?"@,
    }
}

/// The letter that stands for a state.
pub fn project_state_code(state: ProjectState) -> (code: &'static str)
    ensures
        code@ == state_letter(state),
{
    match state {
        ProjectState::Running => "R",
        ProjectState::Partial => "P",
        ProjectState::Stopped => "S",
        ProjectState::Missing => "M",
        ProjectState::Error => "E",
        ProjectState::Unknown => "?",
    }
}

/// The letter that stands for a health.
pub fn health_code(health: HealthSummary) -> (code: &'static str)
    ensures
        code@ == health_letter(health),
{
    match health {
        HealthSummary::Healthy => "H",
        HealthSummary::Unhealthy => "U",
        HealthSummary::Starting => "S",
        HealthSummary::NoHealthcheck => "-",
        HealthSummary::Unknown => "?",
    }
}

/// What stands before the name of a project in the list: whether it is marked.
pub open spec fn mark_text(marked: bool) -> Seq<char> {
    if marked {
        "[*] "@
    } else {
        "[ ] "@
    }
}

/// The forms of a summary in the list, the longest first.
pub open spec fn summary_form(
    summary: SummaryModel,
    cpu: Seq<char>,
    memory: Seq<char>,
    form: int,
) -> Seq<char> {
    let running = summary.ratio_text();
    if form == 0 {
        summary.state_text() + " "@ + summary.health_text() + " "@ + (running + " running"@)
            + " cpu "@ + cpu + " mem "@ + memory
    } else if form == 1 {
        state_letter(summary.state) + health_letter(summary.health) + " "@ + running + " "@ + cpu
            + " "@ + memory
    } else if form == 2 {
        running + " "@ + cpu + " "@ + memory
    } else if form == 3 {
        running + " "@ + cpu
    } else if form == 4 {
        running
    } else {
        seq![]
    }
}

/// Whether a summary leaves room for the mark, a blank and some of the name.
pub open spec fn summary_fits(summary: Seq<char>, width: nat) -> bool {
    4 + summary.len() + 1 + 4 <= width
}

/// The longest form of a summary, from `form` on, that leaves room for the name.
pub open spec fn fitting_summary(
    summary: SummaryModel,
    cpu: Seq<char>,
    memory: Seq<char>,
    width: nat,
    form: int,
) -> Seq<char>
    decreases 5 - form,
{
    let text = summary_form(summary, cpu, memory, form);
    if form >= 5 || summary_fits(text, width) {
        text
    } else {
        fitting_summary(summary, cpu, memory, width, form + 1)
    }
}

/// The summary of a project in the list.
pub open spec fn list_summary(summary: SummaryModel, texts: ShareModel, width: nat) -> Seq<char> {
    let cpu = metrics::percent_text(text_if(summary.metrics is Some && summary.metrics->0.cpu_percent is Some,
        texts.cpu,
    ));
    let memory = metrics::percent_text(
        text_if(
            summary.metrics is Some && summary.metrics->0.memory_percent is Some,
            texts.memory,
        ),
    );
    fitting_summary(summary, cpu, memory, width, 0)
}

/// A project in the list.
pub open spec fn list_line(
    status: StatusModel,
    marked: bool,
    texts: ShareModel,
    width: nat,
) -> Seq<char> {
    let summary = list_summary(status.summary, texts, width);
    let prefix = mark_text(marked);
    if summary.len() == 0 {
        let room = if width > 4 {
            (width - 4) as nat
        } else {
            0
        };
        cut(prefix + cut(status.project.name, room), width)
    } else {
        let room = if width > 4 + summary.len() + 1 {
            (width - 4 - summary.len() - 1) as nat
        } else {
            0
        };
        cut(prefix + cut(status.project.name, room) + " "@ + summary, width)
    }
}

/// A project takes no more room in the list than there is.
pub proof fn list_line_fits(status: StatusModel, marked: bool, texts: ShareModel, width: nat)
    ensures
        list_line(status, marked, texts, width).len() <= width,
{
}

fn write_summary_form(status: &ProjectStatus, cpu: &str, memory: &str, form: usize) -> (text: String)
    requires
        form < 5,
    ensures
        text@ == summary_form(status@.summary, cpu@, memory@, form as int),
{
    let summary = &status.summary;
    let running = summary.ratio();
    match form {
        0 => summary.state_label().to_owned().concat(" ").concat(summary.health_label()).concat(
            " ",
        ).concat(&summary.running_summary()).concat(" cpu ").concat(cpu).concat(" mem ").concat(memory),
        1 => project_state_code(summary.state).to_owned().concat(
            health_code(summary.health),
        ).concat(" ").concat(&running).concat(" ").concat(cpu).concat(" ").concat(memory),
        2 => running.concat(" ").concat(cpu).concat(" ").concat(memory),
        3 => running.concat(" ").concat(cpu),
        _ => running,
    }
}

/// Writes the summary of a project in the list.
pub fn project_list_summary(status: &ProjectStatus, texts: &ShareTexts, width: usize) -> (text:
    String)
    ensures
        text@ == list_summary(status@.summary, texts@, width as nat),
{
    let (cpu_known, memory_known) = match &status.summary.metrics {
        Some(metrics) => (metrics.cpu_percent.is_some(), metrics.memory_percent.is_some()),
        None => (false, false),
    };
    let cpu = metrics::format_cpu(str_if(cpu_known, &texts.cpu));
    let memory = metrics::format_cpu(str_if(memory_known, &texts.memory));
    for form in 0..5
        invariant
            list_summary(status@.summary, texts@, width as nat) == fitting_summary(
                status@.summary,
                cpu@,
                memory@,
                width as nat,
                form as int,
            ),
    {
        let text = write_summary_form(status, &cpu, &memory, form);
        if width >= 9 && text.unicode_len() <= width - 9 {
            return text;
        }
    }
    let none = String::new();
    assert(none@ =~= seq![]);
    none
}

/// Writes a project in the list.
pub fn project_list_line(status: &ProjectStatus, marked: bool, texts: &ShareTexts, width: usize) -> (
    line: String)
    ensures
        line@ == list_line(status@, marked, texts@, width as nat),
{
    let prefix = if marked {
        "[*] "
    } else {
        "[ ] "
    };
    let summary = project_list_summary(status, texts, width);
    let room: usize = if width > 4 {
        width - 4
    } else {
        0
    };
    if summary.as_str().is_empty() {
        let name = truncate_to_width(&status.project.name, room);
        return truncate_to_width(&prefix.to_owned().concat(&name), width);
    }
    let summary_len: usize = summary.unicode_len();
    let room: usize = if room > summary_len && room - summary_len > 1 {
        room - summary_len - 1
    } else {
        0
    };
    let name = truncate_to_width(&status.project.name, room);
    truncate_to_width(&prefix.to_owned().concat(&name).concat(" ").concat(&summary), width)
}

/// A colour.
#[derive(Debug, Clone, Copy, PartialEq, Eq, Structural)]
pub enum Hue {
    Default,
    Green,
    Yellow,
    Gray,
    DarkGray,
    Red,
    Blue,
    Cyan,
}

/// The colour of a project in the list.
pub open spec fn state_hue(state: ProjectState) -> Hue {
    match state {
        ProjectState::Running => Hue::Green,
        ProjectState::Partial => Hue::Yellow,
        ProjectState::Stopped => Hue::Gray,
        ProjectState::Missing => Hue::DarkGray,
        ProjectState::Error => Hue::Red,
        ProjectState::Unknown => Hue::Blue,
    }
}

/// The colour of a project in the list.
pub fn status_style(state: ProjectState) -> (hue: Hue)
    ensures
        hue == state_hue(state),
{
    match state {
        ProjectState::Running => Hue::Green,
        ProjectState::Partial => Hue::Yellow,
        ProjectState::Stopped => Hue::Gray,
        ProjectState::Missing => Hue::DarkGray,
        ProjectState::Error => Hue::Red,
        ProjectState::Unknown => Hue::Blue,
    }
}

/// The colour of the border of a panel: it shows where the focus is.
pub open spec fn border_hue(panel: Focus, current: Focus) -> Hue {
    if panel == current {
        Hue::Cyan
    } else {
        Hue::Default
    }
}

/// The colour of the border of a panel.
pub fn focus_style(panel: Focus, current: Focus) -> (hue: Hue)
    ensures
        hue == border_hue(panel, current),
{
    if panel == current {
        Hue::Cyan
    } else {
        Hue::Default
    }
}

/// What the title of a panel says of the focus.
pub open spec fn active_text(panel: Focus, current: Focus) -> Seq<char> {
    if panel == current {
        "[active]"@
    } else {
        ""@
    }
}

/// What the title of a panel says of the focus.
pub fn focus_label(panel: Focus, current: Focus) -> (label: &'static str)
    ensures
        label@ == active_text(panel, current),
{
    if panel == current {
        "[active]"
    } else {
        ""
    }
}

/// A project in the list.
#[derive(Debug)]
pub struct ListRow {
    pub line: String,
    pub hue: Hue,
}

/// A [`ListRow`] as plain values.
#[verifier::ext_equal]
pub struct RowModel {
    pub line: Seq<char>,
    pub hue: Hue,
}

impl View for ListRow {
    type V = RowModel;

    open spec fn view(&self) -> RowModel {
        RowModel { line: self.line@, hue: self.hue }
    }
}

impl DeepView for ListRow {
    type V = RowModel;

    open spec fn deep_view(&self) -> RowModel {
        self@
    }
}

/// The list of projects.
#[derive(Debug)]
pub struct ListPanel {
    pub title: String,
    pub border: Hue,
    pub rows: Vec<ListRow>,
    pub selected: Option<usize>,
}

/// A panel of text.
#[derive(Debug)]
pub struct TextPanel {
    pub title: String,
    pub border: Hue,
    pub lines: Vec<TextLine>,
    pub scroll: u16,
}

/// A [`TextPanel`] as plain values.
#[verifier::ext_equal]
pub struct PanelModel {
    pub title: Seq<char>,
    pub border: Hue,
    pub lines: Seq<Seq<SpanModel>>,
    pub scroll: u16,
}

impl View for TextPanel {
    type V = PanelModel;

    open spec fn view(&self) -> PanelModel {
        PanelModel {
            title: self.title@,
            border: self.border,
            lines: self.lines.deep_view(),
            scroll: self.scroll,
        }
    }
}

impl DeepView for TextPanel {
    type V = PanelModel;

    open spec fn deep_view(&self) -> PanelModel {
        self@
    }
}

/// A window in the middle of the screen, with its size in percent of the screen.
#[derive(Debug)]
pub struct Window {
    pub panel: TextPanel,
    pub width_percent: u16,
    pub height_percent: u16,
}

/// A [`Window`] as plain values.
#[verifier::ext_equal]
pub struct WindowModel {
    pub panel: PanelModel,
    pub width_percent: u16,
    pub height_percent: u16,
}

impl View for Window {
    type V = WindowModel;

    open spec fn view(&self) -> WindowModel {
        WindowModel {
            panel: self.panel@,
            width_percent: self.width_percent,
            height_percent: self.height_percent,
        }
    }
}

impl DeepView for Window {
    type V = WindowModel;

    open spec fn deep_view(&self) -> WindowModel {
        self@
    }
}

/// Where the first project of a name stands.
pub open spec fn index_named(statuses: Seq<StatusModel>, name: Seq<char>) -> nat
    decreases statuses.len(),
{
    if statuses.len() == 0 || statuses[0].project.name == name {
        0
    } else {
        1 + index_named(statuses.drop_first(), name)
    }
}

/// The texts at an index, where there are any.
pub open spec fn texts_at(texts: Seq<ShareModel>, index: nat) -> ShareModel {
    if index < texts.len() {
        texts[index as int]
    } else {
        ShareModel { cpu: None, memory: None }
    }
}

impl AppModel {
    /// The row of a project in the list. `texts` are the percentages of each project.
    pub open spec fn row(self, texts: Seq<ShareModel>, name: Seq<char>, width: nat) -> RowModel {
        let index = index_named(self.statuses, name);
        let status = self.statuses[index as int];
        RowModel {
            line: list_line(
                status,
                self.marked.contains(name),
                texts_at(texts, index),
                width,
            ),
            hue: state_hue(status.summary.state),
        }
    }

    /// The rows of the list.
    pub open spec fn rows(self, texts: Seq<ShareModel>, width: nat) -> Seq<RowModel> {
        self.visible().map_values(|name: Seq<char>| self.row(texts, name, width))
    }

    /// The title of the list.
    pub open spec fn list_title(self) -> Seq<char> {
        "Projects ["@ + text::decimal_text(self.statuses.len()) + "]  "@ + active_text(
            Focus::Projects,
            self.focus,
        )
    }
}

fn find_status(statuses: &Vec<ProjectStatus>, name: &str) -> (index: usize)
    ensures
        index == index_named(statuses.deep_view(), name@),
        index <= statuses@.len(),
        index < statuses@.len() ==> statuses@[index as int]@.project.name == name@,
        index == statuses@.len() ==> forall|i: int|
            0 <= i < statuses@.len() ==> (#[trigger] statuses@[i])@.project.name != name@,
{
    let ghost views = statuses.deep_view();
    assert(views.skip(0) =~= views);
    for i in 0..statuses.len()
        invariant
            views == statuses.deep_view(),
            index_named(views, name@) == i + index_named(views.skip(i as int), name@),
            forall|j: int| 0 <= j < i ==> (#[trigger] statuses@[j])@.project.name != name@,
    {
        assert(views.skip(i as int)[0] == statuses@[i as int]@);
        assert(views.skip(i as int).drop_first() =~= views.skip(i + 1));
        if text::same_text(&statuses[i].project.name, name) {
            return i;
        }
    }
    statuses.len()
}

proof fn visible_is_present(app: AppModel, i: int)
    requires
        0 <= i < app.visible().len(),
    ensures
        exists|j: int|
            0 <= j < app.statuses.len() && (#[trigger] app.statuses[j]).project.name
                == app.visible()[i],
{
    let names = app.statuses.map_values(|status: StatusModel| status.project.name);
    let pred = |name: Seq<char>| app.lets_through(name);
    let kept = names.filter(pred);
    assert(kept.contains(kept[i]));
    names.lemma_filter_contains_rev(pred, kept[i]);
    let j = choose|j: int| 0 <= j < names.len() && names[j] == kept[i];
    assert(app.statuses[j].project.name == kept[i]);
}

/// The list of projects. `texts` are the percentages of each project, `width` is the width of the
/// panel with its border.
pub fn draw_projects(app: &App, texts: &Vec<ShareTexts>, width: u16) -> (panel: ListPanel)
    ensures
        panel.title@ == app@.list_title(),
        panel.border == border_hue(Focus::Projects, app@.focus),
        panel.rows.deep_view() == app@.rows(
            texts.deep_view(),
            if width > 2 {
                (width - 2) as nat
            } else {
                0
            },
        ),
        panel.selected == (if app@.visible().len() > 0 {
            Some(app.selected_index)
        } else {
            None
        }),
{
    let inner_width: usize = width.saturating_sub(2) as usize;
    let visible = app.visible_project_names();
    let unknown = ShareTexts { cpu: None, memory: None };
    let ghost wanted = app@.rows(texts.deep_view(), inner_width as nat);
    let mut rows: Vec<ListRow> = Vec::new();
    for i in 0..visible.len()
        invariant
            visible.deep_view() == app@.visible(),
            unknown@ == (ShareModel { cpu: None, memory: None }),
            wanted == app@.rows(texts.deep_view(), inner_width as nat),
            rows.deep_view() == wanted.take(i as int),
    {
        let name = &visible[i];
        assert(app@.visible()[i as int] == name@);
        let index = find_status(&app.statuses, name);
        proof {
            visible_is_present(app@, i as int);
            let j = choose|j: int|
                0 <= j < app@.statuses.len() && (#[trigger] app@.statuses[j]).project.name == name@;
            assert(app@.statuses[j] == app.statuses@[j]@);
        }
        let status = &app.statuses[index];
        assert(app@.statuses[index as int] == status@);
        let shares = if index < texts.len() {
            assert(texts.deep_view()[index as int] == texts@[index as int]@);
            &texts[index]
        } else {
            &unknown
        };
        let row = ListRow {
            line: project_list_line(status, app.marked.contains(name), shares, inner_width),
            hue: status_style(status.summary.state),
        };
        let ghost before = rows.deep_view();
        assert(row@ == wanted[i as int]);
        rows.push(row);
        assert(rows.deep_view() =~= before.push(wanted[i as int]));
        assert(rows.deep_view() =~= wanted.take(i + 1));
    }
    assert(wanted.take(wanted.len() as int) =~= wanted);
    assert(app@.visible().len() == visible@.len());
    let selected = if visible.len() > 0 {
        Some(app.selected_index)
    } else {
        None
    };
    let title = "Projects [".to_owned().concat(&text::decimal(app.statuses.len() as u64)).concat(
        "]  ",
    ).concat(focus_label(Focus::Projects, app.focus));
    ListPanel { title, border: focus_style(Focus::Projects, app.focus), rows, selected }
}

fn push_line(lines: &mut Vec<TextLine>, line: TextLine)
    ensures
        final(lines).deep_view() == old(lines).deep_view().push(line@),
{
    let ghost before = lines.deep_view();
    lines.push(line);
    assert(lines.deep_view() =~= before.push(line@));
}

/// A line for something that is known.
pub open spec fn line_if(before: Seq<char>, text: Option<Seq<char>>) -> Seq<Seq<SpanModel>> {
    match text {
        Some(text) => seq![screen::plain_text(before + text)],
        None => seq![],
    }
}

fn push_known(lines: &mut Vec<TextLine>, before: &str, text: &Option<String>)
    ensures
        final(lines).deep_view() == old(lines).deep_view() + line_if(before@, text.deep_view()),
{
    if let Some(text) = text {
        push_line(lines, TextLine::plain(&before.to_owned().concat(text)));
    }
    assert(lines.deep_view() =~= old(lines).deep_view() + line_if(before@, text.deep_view()));
}

/// A text, or another where there is none.
pub open spec fn text_or(text: Option<Seq<char>>, other: Seq<char>) -> Seq<char> {
    match text {
        Some(text) => text,
        None => other,
    }
}

fn str_or<'a>(text: &'a Option<String>, other: &'a str) -> (chosen: &'a str)
    ensures
        chosen@ == text_or(text.deep_view(), other@),
{
    match text {
        Some(text) => text.as_str(),
        None => other,
    }
}

/// The lines of a container in the details.
pub open spec fn container_lines(container: ContainerModel, texts: ShareModel) -> Seq<
    Seq<SpanModel>,
> {
    seq![
        screen::plain_text(
            "- "@ + container.name + " ["@ + container.state + "] "@ + text_or(
                container.health,
                "no-healthcheck"@,
            ) + " "@ + text_or(container.status, ""@),
        ),
    ] + line_if("  image: "@, container.image) + line_if(
        "  ports: "@,
        if container.ports.len() > 0 {
            Some(text::joined(container.ports, ", "@))
        } else {
            None
        },
    ) + line_if("  started: "@, container.started_at) + seq![
        screen::plain_text("  metrics: "@ + container_usage(container.metrics, texts)),
    ]
}

/// The lines of the first `count` containers in the details.
pub open spec fn containers_lines(
    containers: Seq<ContainerModel>,
    texts: Seq<ShareModel>,
    count: nat,
) -> Seq<Seq<SpanModel>>
    decreases count,
{
    if count == 0 {
        seq![]
    } else {
        let last = (count - 1) as nat;
        containers_lines(containers, texts, last) + container_lines(
            containers[last as int],
            texts_at(texts, last),
        )
    }
}

/// The lines of a project in the details, above its containers.
pub open spec fn project_head(status: StatusModel, texts: ShareModel) -> Seq<Seq<SpanModel>> {
    seq![
        screen::plain_text(""@),
        screen::headed_text("Project: "@, status.project.name),
        screen::plain_text("Path: "@ + native::shown_text(status.project.dir)),
        screen::plain_text("Compose: "@ + native::shown_text(status.project.compose_file)),
        screen::plain_text(
            "Summary: "@ + status.summary.state_text() + " / "@ + status.summary.health_text()
                + " / "@ + (status.summary.ratio_text() + " running"@),
        ),
        screen::plain_text("Metrics: "@ + project_usage(status.summary.metrics, texts)),
    ]
}

/// The lines of a project in the details.
pub open spec fn project_lines(
    status: StatusModel,
    texts: ShareModel,
    container_texts: Seq<ShareModel>,
) -> Seq<Seq<SpanModel>> {
    project_head(status, texts) + line_if("API: "@, status.error) + seq![
        screen::plain_text(""@),
        screen::plain_text("Containers:"@),
    ] + containers_lines(status.containers, container_texts, status.containers.len())
}

impl AppModel {
    /// The details. `texts` are the percentages of the highlighted project, `container_texts` those
    /// of its containers.
    pub open spec fn details_panel(
        self,
        texts: ShareModel,
        container_texts: Seq<ShareModel>,
    ) -> PanelModel {
        PanelModel {
            title: "Details "@ + active_text(Focus::Details, self.focus),
            border: border_hue(Focus::Details, self.focus),
            lines: seq![
                screen::plain_text("Status: "@ + self.status_message),
                screen::plain_text(
                    "Filter: "@ + self.filter + (if self.input_mode == InputMode::Filter {
                        " (editing)"@
                    } else {
                        ""@
                    }),
                ),
            ] + (match self.selected() {
                Some(status) => project_lines(status, texts, container_texts),
                None => seq![screen::plain_text(""@), screen::plain_text("No project selected"@)],
            }),
            scroll: self.details_scroll,
        }
    }
}

fn push_container(lines: &mut Vec<TextLine>, container: &ContainerStatus, texts: &ShareTexts)
    ensures
        final(lines).deep_view() == old(lines).deep_view() + container_lines(container@, texts@),
{
    let ghost before = lines.deep_view();
    let head = "- ".to_owned().concat(&container.name).concat(" [").concat(&container.state).concat(
        "] ",
    ).concat(str_or(&container.health, "no-healthcheck")).concat(" ").concat(
        str_or(&container.status, ""),
    );
    push_line(lines, TextLine::plain(&head));
    push_known(lines, "  image: ", &container.image);
    assert(container.ports.deep_view().len() == container.ports@.len());
    let ports = if container.ports.len() > 0 {
        Some(text::join_texts(&container.ports, ", "))
    } else {
        None
    };
    push_known(lines, "  ports: ", &ports);
    push_known(lines, "  started: ", &container.started_at);
    let usage = container_metrics_line(&container.metrics, texts);
    push_line(lines, TextLine::plain(&"  metrics: ".to_owned().concat(&usage)));
    assert(lines.deep_view() =~= before + container_lines(container@, texts@));
}

fn push_containers(
    lines: &mut Vec<TextLine>,
    containers: &Vec<ContainerStatus>,
    texts: &Vec<ShareTexts>,
)
    ensures
        final(lines).deep_view() == old(lines).deep_view() + containers_lines(
            containers.deep_view(),
            texts.deep_view(),
            containers@.len(),
        ),
{
    let unknown = ShareTexts { cpu: None, memory: None };
    let ghost before = lines.deep_view();
    assert(before + containers_lines(containers.deep_view(), texts.deep_view(), 0) =~= before);
    for i in 0..containers.len()
        invariant
            unknown@ == (ShareModel { cpu: None, memory: None }),
            lines.deep_view() == before + containers_lines(
                containers.deep_view(),
                texts.deep_view(),
                i as nat,
            ),
    {
        let shares = if i < texts.len() {
            assert(texts.deep_view()[i as int] == texts@[i as int]@);
            &texts[i]
        } else {
            &unknown
        };
        assert(containers.deep_view()[i as int] == containers@[i as int]@);
        push_container(lines, &containers[i], shares);
        assert(lines.deep_view() =~= before + containers_lines(
            containers.deep_view(),
            texts.deep_view(),
            (i + 1) as nat,
        ));
    }
}

fn project_head_lines(status: &ProjectStatus, texts: &ShareTexts) -> (lines: Vec<TextLine>)
    ensures
        lines.deep_view() == project_head(status@, texts@),
{
    let summary = "Summary: ".to_owned().concat(status.summary.state_label()).concat(" / ").concat(
        status.summary.health_label(),
    ).concat(" / ").concat(&status.summary.running_summary());
    let usage = "Metrics: ".to_owned().concat(
        &project_metrics_line(&status.summary.metrics, texts),
    );
    let path = "Path: ".to_owned().concat(&status.project.dir.display());
    let compose = "Compose: ".to_owned().concat(&status.project.compose_file.display());
    let mut lines: Vec<TextLine> = Vec::new();
    lines.push(TextLine::plain(""));
    lines.push(TextLine::headed("Project: ", &status.project.name));
    lines.push(TextLine::plain(&path));
    lines.push(TextLine::plain(&compose));
    lines.push(TextLine::plain(&summary));
    lines.push(TextLine::plain(&usage));
    assert(lines.deep_view() =~= project_head(status@, texts@));
    lines
}

fn project_detail_lines(
    status: &ProjectStatus,
    texts: &ShareTexts,
    container_texts: &Vec<ShareTexts>,
) -> (lines: Vec<TextLine>)
    ensures
        lines.deep_view() == project_lines(status@, texts@, container_texts.deep_view()),
{
    let mut lines = project_head_lines(status, texts);
    push_known(&mut lines, "API: ", &status.error);
    let ghost head = lines.deep_view();
    push_line(&mut lines, TextLine::plain(""));
    push_line(&mut lines, TextLine::plain("Containers:"));
    assert(lines.deep_view() =~= head + seq![
        screen::plain_text(""@),
        screen::plain_text("Containers:"@),
    ]);
    push_containers(&mut lines, &status.containers, container_texts);
    lines
}

/// The details. `texts` are the percentages of the highlighted project, `container_texts` those of
/// its containers.
pub fn draw_details(app: &App, texts: &ShareTexts, container_texts: &Vec<ShareTexts>) -> (panel:
    TextPanel)
    ensures
        panel@ == app@.details_panel(texts@, container_texts.deep_view()),
{
    let editing = if app.input_mode == InputMode::Filter {
        " (editing)"
    } else {
        ""
    };
    let message = "Status: ".to_owned().concat(&app.status_message);
    let filter = "Filter: ".to_owned().concat(&app.filter).concat(editing);
    let mut lines: Vec<TextLine> = Vec::new();
    lines.push(TextLine::plain(&message));
    lines.push(TextLine::plain(&filter));
    let ghost head = lines.deep_view();
    assert(head =~= seq![screen::plain_text(message@), screen::plain_text(filter@)]);
    match app.selected_status() {
        Some(status) => {
            let mut rest = project_detail_lines(status, texts, container_texts);
            append_lines(&mut lines, &mut rest);
        },
        None => {
            push_line(&mut lines, TextLine::plain(""));
            push_line(&mut lines, TextLine::plain("No project selected"));
            assert(lines.deep_view() =~= head + seq![
                screen::plain_text(""@),
                screen::plain_text("No project selected"@),
            ]);
        },
    }
    TextPanel {
        title: "Details ".to_owned().concat(focus_label(Focus::Details, app.focus)),
        border: focus_style(Focus::Details, app.focus),
        lines,
        scroll: app.details_scroll,
    }
}

fn append_lines(lines: &mut Vec<TextLine>, more: &mut Vec<TextLine>)
    ensures
        final(lines).deep_view() == old(lines).deep_view() + old(more).deep_view(),
{
    let ghost before = lines.deep_view();
    let ghost added = more.deep_view();
    lines.append(more);
    assert(lines.deep_view() =~= before + added);
}

/// A line of output: errors are set off.
pub open spec fn output_text(line: LineModel) -> Seq<SpanModel> {
    screen::toned_text(
        line.text,
        if line.stderr {
            Tone::Error
        } else {
            Tone::Plain
        },
    )
}

impl AppModel {
    /// The output of commands, below the last command.
    pub open spec fn output_panel(self) -> PanelModel {
        PanelModel {
            title: "Output "@ + active_text(Focus::Output, self.focus),
            border: border_hue(Focus::Output, self.focus),
            lines: (match self.last_command {
                Some(command) => seq![
                    screen::headed_text("Last command: "@, command),
                    screen::plain_text(""@),
                ],
                None => seq![],
            }) + self.output.map_values(|line: LineModel| output_text(line)),
            scroll: self.output_scroll,
        }
    }

    /// The help.
    pub open spec fn help_window(self) -> WindowModel {
        let last = (HELP_LINE_COUNT - 1) as u16;
        let scroll = if self.help_scroll < last {
            self.help_scroll
        } else {
            last
        };
        WindowModel {
            panel: PanelModel {
                title: "Help "@ + text::decimal_text(scroll as nat) + "/"@ + text::decimal_text(last as nat),
                border: Hue::Cyan,
                lines: help::help_text(),
                scroll,
            },
            width_percent: 72,
            height_percent: 70,
        }
    }

    /// The question whether to run an action.
    pub open spec fn confirmation_window(self, pending: PendingModel) -> WindowModel {
        WindowModel {
            panel: PanelModel {
                title: "Confirmation"@,
                border: Hue::Yellow,
                lines: seq![
                    screen::toned_text("Confirm Action"@, Tone::Bold),
                    screen::plain_text(""@),
                    screen::plain_text(
                        tui::count_text(
                            "Run "@ + pending.label + " for "@,
                            self.selected_projects().len(),
                            " project(s)?"@,
                        ),
                    ),
                    screen::plain_text(""@),
                    screen::plain_text("Enter / y   confirm"@),
                    screen::plain_text("Esc / n / q cancel"@),
                ],
                scroll: 0,
            },
            width_percent: 56,
            height_percent: 24,
        }
    }

    /// The question for the name of a new project.
    pub open spec fn new_project_window(self) -> WindowModel {
        WindowModel {
            panel: PanelModel {
                title: "New Project"@,
                border: Hue::Cyan,
                lines: seq![
                    screen::toned_text("New Project"@, Tone::Bold),
                    screen::plain_text(""@),
                    screen::plain_text("Name: "@ + self.new_project_name),
                    screen::plain_text(""@),
                    match self.new_project_error {
                        Some(error) => screen::toned_text("Error: "@ + error, Tone::Error),
                        None => screen::plain_text("Allowed: lowercase letters, digits, - and _"@),
                    },
                    screen::plain_text(""@),
                    screen::plain_text("Enter create and edit"@),
                    screen::plain_text("Esc cancel"@),
                ],
                scroll: 0,
            },
            width_percent: 60,
            height_percent: 28,
        }
    }

    /// The line of a container to choose.
    pub open spec fn choice_line(self, containers: Seq<ContainerModel>, index: int) -> Seq<
        SpanModel,
    > {
        let container = containers[index];
        screen::plain_text(
            (if index == self.shell_container_index {
                ">"@
            } else {
                " "@
            }) + " "@ + text::padded(text_or(container.service, "-"@), 16) + " "@ + container.name + "  "@
                + text_or(container.status, ""@),
        )
    }

    /// The lines of the containers to choose from.
    pub open spec fn choice_lines(self, containers: Seq<ContainerModel>) -> Seq<Seq<SpanModel>> {
        Seq::new(containers.len(), |index: int| self.choice_line(containers, index))
    }

    /// The choice of a container of a project.
    pub open spec fn shell_window(self, status: StatusModel) -> WindowModel {
        WindowModel {
            panel: PanelModel {
                title: "Container Shell"@,
                border: Hue::Cyan,
                lines: seq![
                    screen::toned_text("Container Shell: "@ + status.project.name, Tone::Bold),
                    screen::plain_text(""@),
                ] + self.choice_lines(tui::running_among(status.containers)) + seq![
                    screen::plain_text(""@),
                    screen::plain_text("Enter open shell"@),
                    screen::plain_text("j/k or Up/Down move"@),
                    screen::plain_text("Esc/q cancel"@),
                ],
                scroll: 0,
            },
            width_percent: 68,
            height_percent: 48,
        }
    }

    /// The windows over the panels, the topmost last.
    pub open spec fn windows(self) -> Seq<WindowModel> {
        (if self.show_help {
            seq![self.help_window()]
        } else {
            seq![]
        }) + (match self.pending_action {
            Some(pending) => seq![self.confirmation_window(pending)],
            None => seq![],
        }) + (if self.input_mode == InputMode::NewProject {
            seq![self.new_project_window()]
        } else {
            seq![]
        }) + (match (self.input_mode, self.selected()) {
            (InputMode::ContainerShell, Some(status)) => seq![self.shell_window(status)],
            _ => seq![],
        })
    }
}

/// The output of commands.
pub fn draw_output(app: &App) -> (panel: TextPanel)
    ensures
        panel@ == app@.output_panel(),
{
    let mut lines: Vec<TextLine> = Vec::new();
    assert(lines.deep_view() =~= seq![]);
    if let Some(command) = &app.last_command {
        push_line(&mut lines, TextLine::headed("Last command: ", command));
        push_line(&mut lines, TextLine::plain(""));
    }
    let ghost head = lines.deep_view();
    let ghost wanted = app@.output.map_values(|line: LineModel| output_text(line));
    assert(head + wanted.take(0) =~= head);
    for i in 0..app.output.len()
        invariant
            wanted == app@.output.map_values(|line: LineModel| output_text(line)),
            lines.deep_view() == head + wanted.take(i as int),
    {
        let line: &OutputLine = &app.output[i];
        assert(app@.output[i as int] == line@);
        let tone = if line.stderr {
            Tone::Error
        } else {
            Tone::Plain
        };
        push_line(&mut lines, TextLine::toned(line.text.clone(), tone));
        assert(lines.deep_view() =~= head + wanted.take(i + 1));
    }
    assert(wanted.take(wanted.len() as int) =~= wanted);
    assert(lines.deep_view() =~= app@.output_panel().lines);
    TextPanel {
        title: "Output ".to_owned().concat(focus_label(Focus::Output, app.focus)),
        border: focus_style(Focus::Output, app.focus),
        lines,
        scroll: app.output_scroll,
    }
}

/// The help.
pub fn draw_help(app: &App) -> (window: Window)
    ensures
        window@ == app@.help_window(),
{
    let last: u16 = (HELP_LINE_COUNT - 1) as u16;
    let scroll: u16 = if app.help_scroll < last {
        app.help_scroll
    } else {
        last
    };
    let title = "Help ".to_owned().concat(&text::decimal(scroll as u64)).concat("/").concat(
        &text::decimal(last as u64),
    );
    Window {
        panel: TextPanel { title, border: Hue::Cyan, lines: help::help_lines(), scroll },
        width_percent: 72,
        height_percent: 70,
    }
}

/// The question whether to run an action, where one waits.
pub fn draw_confirmation(app: &App) -> (window: Option<Window>)
    ensures
        window.deep_view() == (match app@.pending_action {
            Some(pending) => Some(app@.confirmation_window(pending)),
            None => None,
        }),
{
    let Some(pending) = app.pending_action else {
        return None;
    };
    let count: usize = app.selected_projects().len();
    assert(count == app@.selected_projects().len());
    let question = tui::write_count(
        &"Run ".to_owned().concat(pending.label).concat(" for "),
        count,
        " project(s)?",
    );
    let mut lines: Vec<TextLine> = Vec::new();
    assert(lines.deep_view() =~= seq![]);
    push_line(&mut lines, TextLine::toned("Confirm Action".to_owned(), Tone::Bold));
    push_line(&mut lines, TextLine::plain(""));
    push_line(&mut lines, TextLine::plain(&question));
    push_line(&mut lines, TextLine::plain(""));
    push_line(&mut lines, TextLine::plain("Enter / y   confirm"));
    push_line(&mut lines, TextLine::plain("Esc / n / q cancel"));
    assert(lines.deep_view() =~= app@.confirmation_window(pending@).panel.lines);
    Some(
        Window {
            panel: TextPanel {
                title: "Confirmation".to_owned(),
                border: Hue::Yellow,
                lines,
                scroll: 0,
            },
            width_percent: 56,
            height_percent: 24,
        },
    )
}

/// The question for the name of a new project.
pub fn draw_new_project(app: &App) -> (window: Window)
    ensures
        window@ == app@.new_project_window(),
{
    let mut lines: Vec<TextLine> = Vec::new();
    assert(lines.deep_view() =~= seq![]);
    push_line(&mut lines, TextLine::toned("New Project".to_owned(), Tone::Bold));
    push_line(&mut lines, TextLine::plain(""));
    push_line(&mut lines, TextLine::plain(&"Name: ".to_owned().concat(&app.new_project_name)));
    push_line(&mut lines, TextLine::plain(""));
    match &app.new_project_error {
        Some(error) => {
            push_line(
                &mut lines,
                TextLine::toned("Error: ".to_owned().concat(error), Tone::Error),
            );
        },
        None => {
            push_line(&mut lines, TextLine::plain("Allowed: lowercase letters, digits, - and _"));
        },
    }
    push_line(&mut lines, TextLine::plain(""));
    push_line(&mut lines, TextLine::plain("Enter create and edit"));
    push_line(&mut lines, TextLine::plain("Esc cancel"));
    assert(lines.deep_view() =~= app@.new_project_window().panel.lines);
    Window {
        panel: TextPanel { title: "New Project".to_owned(), border: Hue::Cyan, lines, scroll: 0 },
        width_percent: 60,
        height_percent: 28,
    }
}

/// The choice of a container, where a project is highlighted.
pub fn draw_container_shell(app: &App) -> (window: Option<Window>)
    ensures
        window.deep_view() == (match app@.selected() {
            Some(status) => Some(app@.shell_window(status)),
            None => None,
        }),
{
    let Some(status) = app.selected_status() else {
        return None;
    };
    let containers = tui::running_containers(status);
    let ghost views = containers.deep_view();
    let ghost wanted = app@.choice_lines(views);
    let mut lines: Vec<TextLine> = Vec::new();
    assert(lines.deep_view() =~= seq![]);
    push_line(
        &mut lines,
        TextLine::toned("Container Shell: ".to_owned().concat(&status.project.name), Tone::Bold),
    );
    push_line(&mut lines, TextLine::plain(""));
    let ghost head = lines.deep_view();
    assert(head + wanted.take(0) =~= head);
    for i in 0..containers.len()
        invariant
            views == containers.deep_view(),
            wanted == app@.choice_lines(views),
            lines.deep_view() == head + wanted.take(i as int),
    {
        let container = containers[i];
        assert(views[i as int] == container@);
        let mark = if i == app.shell_container_index {
            ">"
        } else {
            " "
        };
        let service = text::pad_right(str_or(&container.service, "-"), 16);
        let line = mark.to_owned().concat(" ").concat(&service).concat(" ").concat(
            &container.name,
        ).concat("  ").concat(str_or(&container.status, ""));
        push_line(&mut lines, TextLine::plain(&line));
        assert(lines.deep_view() =~= head + wanted.take(i + 1));
    }
    assert(wanted.take(wanted.len() as int) =~= wanted);
    push_line(&mut lines, TextLine::plain(""));
    push_line(&mut lines, TextLine::plain("Enter open shell"));
    push_line(&mut lines, TextLine::plain("j/k or Up/Down move"));
    push_line(&mut lines, TextLine::plain("Esc/q cancel"));
    assert(lines.deep_view() =~= app@.shell_window(status@).panel.lines);
    Some(
        Window {
            panel: TextPanel {
                title: "Container Shell".to_owned(),
                border: Hue::Cyan,
                lines,
                scroll: 0,
            },
            width_percent: 68,
            height_percent: 48,
        },
    )
}

/// The windows over the panels, the topmost last.
pub fn draw_windows(app: &App) -> (windows: Vec<Window>)
    ensures
        windows.deep_view() == app@.windows(),
{
    let mut windows: Vec<Window> = Vec::new();
    if app.show_help {
        windows.push(draw_help(app));
    }
    if let Some(window) = draw_confirmation(app) {
        windows.push(window);
    }
    if app.input_mode == InputMode::NewProject {
        windows.push(draw_new_project(app));
    }
    if app.input_mode == InputMode::ContainerShell {
        if let Some(window) = draw_container_shell(app) {
            windows.push(window);
        }
    }
    assert(windows.deep_view() =~= app@.windows());
    windows
}

} // verus!
