//! The state of projects as Docker reports it: of each container, and of the project as a whole.

use vstd::prelude::*;

use crate::metrics::{self, ContainerMetrics, MetricsModel, ProjectMetrics};
use crate::project::{Project, ProjectModel};
use crate::text;

verus! {

/// A container of a project.
#[derive(Debug)]
pub struct ContainerStatus {
    pub id: String,
    pub name: String,
    pub service: Option<String>,
    pub image: Option<String>,
    pub state: String,
    pub health: Option<String>,
    pub status: Option<String>,
    pub started_at: Option<String>,
    pub ports: Vec<String>,
    pub metrics: Option<ContainerMetrics>,
}

/// A [`ContainerStatus`] as plain values.
#[verifier::ext_equal]
pub struct ContainerModel {
    pub id: Seq<char>,
    pub name: Seq<char>,
    pub service: Option<Seq<char>>,
    pub image: Option<Seq<char>>,
    pub state: Seq<char>,
    pub health: Option<Seq<char>>,
    pub status: Option<Seq<char>>,
    pub started_at: Option<Seq<char>>,
    pub ports: Seq<Seq<char>>,
    pub metrics: Option<ContainerMetrics>,
}

impl View for ContainerStatus {
    type V = ContainerModel;

    open spec fn view(&self) -> ContainerModel {
        ContainerModel {
            id: self.id@,
            name: self.name@,
            service: self.service.deep_view(),
            image: self.image.deep_view(),
            state: self.state@,
            health: self.health.deep_view(),
            status: self.status.deep_view(),
            started_at: self.started_at.deep_view(),
            ports: self.ports.deep_view(),
            metrics: self.metrics,
        }
    }
}

impl DeepView for ContainerStatus {
    type V = ContainerModel;

    open spec fn deep_view(&self) -> ContainerModel {
        self@
    }
}

impl ContainerModel {
    /// Whether the container is running.
    pub open spec fn running(self) -> bool {
        self.state == "running"@
    }
}

impl ContainerStatus {
    /// Whether the container is running.
    pub fn is_running(&self) -> (running: bool)
        ensures
            running == self@.running(),
    {
        text::same_text(&self.state, "running")
    }
}

/// The state of a project.
#[derive(Debug, Clone, Copy, PartialEq, Eq, Structural)]
pub enum ProjectState {
    Running,
    Partial,
    Stopped,
    Missing,
    Error,
    Unknown,
}

/// The health of a project.
#[derive(Debug, Clone, Copy, PartialEq, Eq, Structural)]
pub enum HealthSummary {
    Healthy,
    Unhealthy,
    Starting,
    NoHealthcheck,
    Unknown,
}

/// What the containers of a project come to.
#[derive(Debug)]
pub struct ProjectSummary {
    pub state: ProjectState,
    pub health: HealthSummary,
    pub running_containers: usize,
    pub total_containers: usize,
    pub metrics: Option<ProjectMetrics>,
}

/// A [`ProjectSummary`] as plain values.
#[verifier::ext_equal]
pub struct SummaryModel {
    pub state: ProjectState,
    pub health: HealthSummary,
    pub running_containers: nat,
    pub total_containers: nat,
    pub metrics: Option<MetricsModel>,
}

impl View for ProjectSummary {
    type V = SummaryModel;

    open spec fn view(&self) -> SummaryModel {
        SummaryModel {
            state: self.state,
            health: self.health,
            running_containers: self.running_containers as nat,
            total_containers: self.total_containers as nat,
            metrics: self.metrics.deep_view(),
        }
    }
}

/// A project with its containers.
#[derive(Debug)]
pub struct ProjectStatus {
    pub project: Project,
    pub summary: ProjectSummary,
    pub containers: Vec<ContainerStatus>,
    pub error: Option<String>,
}

/// A [`ProjectStatus`] as plain values.
#[verifier::ext_equal]
pub struct StatusModel {
    pub project: ProjectModel,
    pub summary: SummaryModel,
    pub containers: Seq<ContainerModel>,
    pub error: Option<Seq<char>>,
}

impl View for ProjectStatus {
    type V = StatusModel;

    open spec fn view(&self) -> StatusModel {
        StatusModel {
            project: self.project@,
            summary: self.summary@,
            containers: self.containers.deep_view(),
            error: self.error.deep_view(),
        }
    }
}

impl DeepView for ProjectStatus {
    type V = StatusModel;

    open spec fn deep_view(&self) -> StatusModel {
        self@
    }
}

impl SummaryModel {
    /// The name of the state.
    pub open spec fn state_text(self) -> Seq<char> {
        match self.state {
            ProjectState::Running => "running"@,
            ProjectState::Partial => "partial"@,
            ProjectState::Stopped => "stopped"@,
            ProjectState::Missing => "missing"@,
            ProjectState::Error => "error"@,
            ProjectState::Unknown => "unknown"@,
        }
    }

    /// The name of the health.
    pub open spec fn health_text(self) -> Seq<char> {
        match self.health {
            HealthSummary::Healthy => "healthy"@,
            HealthSummary::Unhealthy => "unhealthy"@,
            HealthSummary::Starting => "starting"@,
            HealthSummary::NoHealthcheck => "no-healthcheck"@,
            HealthSummary::Unknown => "unknown"@,
        }
    }

    /// How many containers of how many are running.
    pub open spec fn ratio_text(self) -> Seq<char> {
        text::decimal_text(self.running_containers) + "/"@ + text::decimal_text(self.total_containers)
    }
}

impl ProjectSummary {
    /// The name of the state.
    pub fn state_label(&self) -> (label: &'static str)
        ensures
            label@ == self@.state_text(),
    {
        match self.state {
            ProjectState::Running => "running",
            ProjectState::Partial => "partial",
            ProjectState::Stopped => "stopped",
            ProjectState::Missing => "missing",
            ProjectState::Error => "error",
            ProjectState::Unknown => "unknown",
        }
    }

    /// The name of the health.
    pub fn health_label(&self) -> (label: &'static str)
        ensures
            label@ == self@.health_text(),
    {
        match self.health {
            HealthSummary::Healthy => "healthy",
            HealthSummary::Unhealthy => "unhealthy",
            HealthSummary::Starting => "starting",
            HealthSummary::NoHealthcheck => "no-healthcheck",
            HealthSummary::Unknown => "unknown",
        }
    }

    /// How many containers of how many are running.
    pub fn ratio(&self) -> (text: String)
        ensures
            text@ == self@.ratio_text(),
    {
        text::decimal(self.running_containers as u64).concat("/").concat(
            &text::decimal(self.total_containers as u64),
        )
    }

    /// How many containers of how many are running, in words.
    pub fn running_summary(&self) -> (text: String)
        ensures
            text@ == self@.ratio_text() + " running"@,
    {
        self.ratio().concat(" running")
    }
}

/// How many of the containers are running.
pub open spec fn running_count(containers: Seq<ContainerModel>) -> nat {
    containers.filter(|container: ContainerModel| container.running()).len()
}

/// Whether any of the containers reports the given health.
pub open spec fn reports_health(containers: Seq<ContainerModel>, health: Seq<char>) -> bool {
    exists|i: int| 0 <= i < containers.len() && (#[trigger] containers[i]).health == Some(health)
}

/// The state of a project with the given containers.
pub open spec fn state_of(containers: Seq<ContainerModel>) -> ProjectState {
    if containers.len() == 0 {
        ProjectState::Missing
    } else if running_count(containers) == containers.len() {
        ProjectState::Running
    } else if running_count(containers) == 0 {
        ProjectState::Stopped
    } else {
        ProjectState::Partial
    }
}

/// The health of a project with the given containers: the worst that any of them reports.
pub open spec fn health_of(containers: Seq<ContainerModel>) -> HealthSummary {
    if reports_health(containers, "unhealthy"@) {
        HealthSummary::Unhealthy
    } else if reports_health(containers, "starting"@) {
        HealthSummary::Starting
    } else if reports_health(containers, "healthy"@) {
        HealthSummary::Healthy
    } else {
        HealthSummary::NoHealthcheck
    }
}

/// The metrics that are known of the containers.
pub open spec fn known_metrics(containers: Seq<ContainerModel>) -> Seq<ContainerMetrics>
    decreases containers.len(),
{
    if containers.len() == 0 {
        seq![]
    } else {
        let earlier = known_metrics(containers.drop_last());
        match containers.last().metrics {
            Some(metrics) => earlier.push(metrics),
            None => earlier,
        }
    }
}

/// What containers come to for their project.
pub open spec fn summary_of(containers: Seq<ContainerModel>) -> SummaryModel {
    SummaryModel {
        state: state_of(containers),
        health: health_of(containers),
        running_containers: running_count(containers),
        total_containers: containers.len(),
        metrics: metrics::project_metrics(known_metrics(containers)),
    }
}

/// A summary without containers to speak of.
pub open spec fn bare_summary(state: ProjectState, health: HealthSummary) -> SummaryModel {
    SummaryModel {
        state,
        health,
        running_containers: 0,
        total_containers: 0,
        metrics: None,
    }
}

proof fn running_count_push(containers: Seq<ContainerModel>, container: ContainerModel)
    ensures
        running_count(containers.push(container)) == running_count(containers) + (
        if container.running() {
            1nat
        } else {
            0
        }),
{
    reveal(Seq::filter);
    assert(containers.push(container).drop_last() =~= containers);
}

fn count_running(containers: &Vec<ContainerStatus>) -> (count: usize)
    ensures
        count == running_count(containers.deep_view()),
        count <= containers@.len(),
{
    let ghost views = containers.deep_view();
    let mut count: usize = 0;
    proof {
        reveal(Seq::filter);
    }
    for i in 0..containers.len()
        invariant
            views == containers.deep_view(),
            count == running_count(views.take(i as int)),
            count <= i,
    {
        proof {
            running_count_push(views.take(i as int), containers@[i as int]@);
            assert(views.take(i + 1) =~= views.take(i as int).push(containers@[i as int]@));
        }
        if containers[i].is_running() {
            count += 1;
        }
    }
    assert(views.take(views.len() as int) =~= views);
    count
}

fn any_health(containers: &Vec<ContainerStatus>, health: &str) -> (found: bool)
    ensures
        found == reports_health(containers.deep_view(), health@),
{
    let ghost views = containers.deep_view();
    for i in 0..containers.len()
        invariant
            views == containers.deep_view(),
            forall|j: int| 0 <= j < i ==> (#[trigger] views[j]).health != Some(health@),
    {
        assert(views[i as int] == containers@[i as int]@);
        if let Some(reported) = &containers[i].health {
            if text::same_text(reported, health) {
                return true;
            }
        }
    }
    false
}

/// Sums up what the containers of a project come to.
pub fn summarize_project(containers: &Vec<ContainerStatus>) -> (summary: ProjectSummary)
    ensures
        summary@ == summary_of(containers.deep_view()),
{
    let total: usize = containers.len();
    let running = count_running(containers);
    let state = if total == 0 {
        ProjectState::Missing
    } else if running == total {
        ProjectState::Running
    } else if running == 0 {
        ProjectState::Stopped
    } else {
        ProjectState::Partial
    };
    let health = if any_health(containers, "unhealthy") {
        HealthSummary::Unhealthy
    } else if any_health(containers, "starting") {
        HealthSummary::Starting
    } else if any_health(containers, "healthy") {
        HealthSummary::Healthy
    } else {
        HealthSummary::NoHealthcheck
    };
    ProjectSummary {
        state,
        health,
        running_containers: running,
        total_containers: total,
        metrics: summarize_metrics(containers),
    }
}

fn summarize_metrics(containers: &Vec<ContainerStatus>) -> (metrics: Option<ProjectMetrics>)
    ensures
        metrics.deep_view() == metrics::project_metrics(known_metrics(containers.deep_view())),
{
    let ghost views = containers.deep_view();
    let mut known: Vec<ContainerMetrics> = Vec::new();
    for i in 0..containers.len()
        invariant
            views == containers.deep_view(),
            known@ == known_metrics(views.take(i as int)),
    {
        assert(views.take(i + 1).drop_last() =~= views.take(i as int));
        assert(views.take(i + 1).last() == containers@[i as int]@);
        if let Some(metrics) = containers[i].metrics {
            known.push(metrics);
        }
    }
    assert(views.take(views.len() as int) =~= views);
    metrics::sum_metrics(&known)
}

proof fn running_count_bounded(containers: Seq<ContainerModel>)
    ensures
        running_count(containers) <= containers.len(),
        running_count(containers) == containers.len() <==> forall|i: int|
            0 <= i < containers.len() ==> (#[trigger] containers[i]).running(),
        running_count(containers) == 0 <==> forall|i: int|
            0 <= i < containers.len() ==> !(#[trigger] containers[i]).running(),
    decreases containers.len(),
{
    if containers.len() == 0 {
        reveal(Seq::filter);
    } else {
        let rest = containers.drop_last();
        let last = containers.last();
        running_count_bounded(rest);
        running_count_push(rest, last);
        assert(rest.push(last) =~= containers);
        assert(containers[containers.len() - 1] == last);
        assert forall|i: int| 0 <= i < rest.len() implies rest[i] == #[trigger] containers[i] by {}
        if forall|i: int| 0 <= i < containers.len() ==> (#[trigger] containers[i]).running() {
            assert forall|i: int| 0 <= i < rest.len() implies (#[trigger] rest[i]).running() by {
                assert(containers[i].running());
            }
        }
        if forall|i: int| 0 <= i < containers.len() ==> !(#[trigger] containers[i]).running() {
            assert forall|i: int| 0 <= i < rest.len() implies !(#[trigger] rest[i]).running() by {
                assert(!containers[i].running());
            }
        }
    }
}

/// A project is running when it has containers and all of them run, stopped when it has containers
/// and none runs, missing when it has none, and partial otherwise; it never counts more running
/// containers than it has.
pub proof fn state_follows_containers(containers: Seq<ContainerModel>)
    ensures
        summary_of(containers).running_containers <= summary_of(containers).total_containers,
        state_of(containers) == ProjectState::Missing <==> containers.len() == 0,
        state_of(containers) == ProjectState::Running <==> containers.len() > 0 && forall|i: int|
            0 <= i < containers.len() ==> (#[trigger] containers[i]).running(),
        state_of(containers) == ProjectState::Stopped <==> containers.len() > 0 && forall|i: int|
            0 <= i < containers.len() ==> !(#[trigger] containers[i]).running(),
{
    running_count_bounded(containers);
}

} // verus!
