//! Loading the state of projects: what is asked of Docker, in which order, and what is made of its
//! answers. The caller asks and hands the answers back.

use vstd::prelude::*;

use crate::docker_api::{
    self, ContainerModel, ContainerStatus, HealthSummary, ProjectState, ProjectStatus,
    ProjectSummary, StatusModel,
};
use crate::metrics::{self, ContainerMetrics, Stats};
use crate::project::{Project, ProjectModel};
use crate::text;

verus! {

/// A port of a container, and the port of the host that leads to it.
#[derive(Debug)]
pub struct Port {
    pub private_port: u16,
    pub public_port: Option<u16>,
    pub typ: Option<String>,
}

/// A [`Port`] as plain values.
#[verifier::ext_equal]
pub struct PortModel {
    pub private_port: u16,
    pub public_port: Option<u16>,
    pub typ: Option<Seq<char>>,
}

impl View for Port {
    type V = PortModel;

    open spec fn view(&self) -> PortModel {
        PortModel {
            private_port: self.private_port,
            public_port: self.public_port,
            typ: self.typ.deep_view(),
        }
    }
}

impl DeepView for Port {
    type V = PortModel;

    open spec fn deep_view(&self) -> PortModel {
        self@
    }
}

/// A container as Docker lists it.
#[derive(Debug)]
pub struct ContainerSummary {
    pub id: Option<String>,
    pub names: Option<Vec<String>>,
    pub image: Option<String>,
    pub labels: Option<Vec<(String, String)>>,
    pub state: Option<String>,
    pub status: Option<String>,
    pub ports: Option<Vec<Port>>,
}

/// A [`ContainerSummary`] as plain values.
#[verifier::ext_equal]
pub struct ListedModel {
    pub id: Option<Seq<char>>,
    pub names: Option<Seq<Seq<char>>>,
    pub image: Option<Seq<char>>,
    pub labels: Option<Seq<(Seq<char>, Seq<char>)>>,
    pub state: Option<Seq<char>>,
    pub status: Option<Seq<char>>,
    pub ports: Option<Seq<PortModel>>,
}

impl View for ContainerSummary {
    type V = ListedModel;

    open spec fn view(&self) -> ListedModel {
        ListedModel {
            id: self.id.deep_view(),
            names: self.names.deep_view(),
            image: self.image.deep_view(),
            labels: self.labels.deep_view(),
            state: self.state.deep_view(),
            status: self.status.deep_view(),
            ports: self.ports.deep_view(),
        }
    }
}

impl DeepView for ContainerSummary {
    type V = ListedModel;

    open spec fn deep_view(&self) -> ListedModel {
        self@
    }
}

/// The health check of a container, as Docker reports it.
#[derive(Debug)]
pub struct ContainerHealth {
    pub status: Option<String>,
}

/// The state of a container, as Docker reports it.
#[derive(Debug)]
pub struct ContainerState {
    pub status: Option<String>,
    pub health: Option<ContainerHealth>,
    pub started_at: Option<String>,
}

/// What Docker says of one container.
#[derive(Debug)]
pub struct ContainerInspectResponse {
    pub state: Option<ContainerState>,
}

/// A [`ContainerInspectResponse`] as plain values: the state, the health and the time of start, each
/// where it is reported.
#[verifier::ext_equal]
pub struct InspectModel {
    pub state: Option<Seq<char>>,
    pub health: Option<Seq<char>>,
    pub started_at: Option<Seq<char>>,
}

impl View for ContainerInspectResponse {
    type V = InspectModel;

    open spec fn view(&self) -> InspectModel {
        match self.state {
            Some(state) => InspectModel {
                state: state.status.deep_view(),
                health: match state.health {
                    Some(health) => health.status.deep_view(),
                    None => None,
                },
                started_at: state.started_at.deep_view(),
            },
            None => InspectModel { state: None, health: None, started_at: None },
        }
    }
}

impl DeepView for ContainerInspectResponse {
    type V = InspectModel;

    open spec fn deep_view(&self) -> InspectModel {
        self@
    }
}

/// The state that an inspection reports.
pub fn inspect_state(inspect: &ContainerInspectResponse) -> (state: Option<String>)
    ensures
        state.deep_view() == inspect@.state,
{
    match &inspect.state {
        Some(state) => state.status.clone(),
        None => None,
    }
}

/// The health that an inspection reports.
pub fn inspect_health(inspect: &ContainerInspectResponse) -> (health: Option<String>)
    ensures
        health.deep_view() == inspect@.health,
{
    match &inspect.state {
        Some(state) => match &state.health {
            Some(health) => health.status.clone(),
            None => None,
        },
        None => None,
    }
}

/// The time of start that an inspection reports.
pub fn inspect_started_at(inspect: &ContainerInspectResponse) -> (started_at: Option<String>)
    ensures
        started_at.deep_view() == inspect@.started_at,
{
    match &inspect.state {
        Some(state) => state.started_at.clone(),
        None => None,
    }
}

/// A text without the slashes that it begins with.
pub open spec fn without_slashes(name: Seq<char>) -> Seq<char>
    decreases name.len(),
{
    if name.len() > 0 && name[0] == '/' {
        without_slashes(name.drop_first())
    } else {
        name
    }
}

/// A value that is reported, else `unknown`.
pub open spec fn or_unknown(value: Option<Seq<char>>) -> Seq<char> {
    match value {
        Some(value) => value,
        None => "unknown"@,
    }
}

impl ListedModel {
    /// The id of the container.
    pub open spec fn id_text(self) -> Seq<char> {
        or_unknown(self.id)
    }

    /// The name of the container: the first of its names, without leading slashes.
    pub open spec fn first_name(self) -> Seq<char> {
        match self.names {
            Some(names) => if names.len() > 0 {
                without_slashes(names[0])
            } else {
                "unknown"@
            },
            None => "unknown"@,
        }
    }

    /// The compose service that the container belongs to.
    pub open spec fn service(self) -> Option<Seq<char>> {
        match self.labels {
            Some(labels) => label_value(labels, "com.docker.compose.service"@),
            None => None,
        }
    }

    /// The state of the container: as listed, else as inspected.
    pub open spec fn state_given(self, inspect: InspectModel) -> Seq<char> {
        match self.state {
            Some(state) => state,
            None => or_unknown(inspect.state),
        }
    }

    /// The ports of the container.
    pub open spec fn port_texts(self) -> Seq<Seq<char>> {
        match self.ports {
            Some(ports) => ports.map_values(|port: PortModel| port.text()),
            None => seq![],
        }
    }

    /// The container as it is shown, with what an inspection and a reading say of it.
    pub open spec fn status_given(
        self,
        inspect: InspectModel,
        metrics: Option<ContainerMetrics>,
    ) -> ContainerModel {
        ContainerModel {
            id: self.id_text(),
            name: self.first_name(),
            service: self.service(),
            image: self.image,
            state: self.state_given(inspect),
            health: inspect.health,
            status: self.status,
            started_at: inspect.started_at,
            ports: self.port_texts(),
            metrics,
        }
    }
}

/// The value of a label.
pub open spec fn label_value(labels: Seq<(Seq<char>, Seq<char>)>, key: Seq<char>) -> Option<Seq<char>>
    decreases labels.len(),
{
    if labels.len() == 0 {
        None
    } else if labels[0].0 == key {
        Some(labels[0].1)
    } else {
        label_value(labels.drop_first(), key)
    }
}

impl PortModel {
    /// The port as it is shown.
    pub open spec fn text(self) -> Seq<char> {
        match (self.public_port, self.typ) {
            (Some(public), Some(kind)) => text::decimal_text(public as nat) + "->"@ + text::decimal_text(
                self.private_port as nat,
            ) + "/"@ + kind,
            (None, Some(kind)) => text::decimal_text(self.private_port as nat) + "/"@ + kind,
            (_, None) => "unknown"@,
        }
    }
}

fn trim_slashes(name: &str) -> (trimmed: String)
    ensures
        trimmed@ == without_slashes(name@),
{
    let chars = text::chars_of(name);
    let mut start: usize = 0;
    assert(name@.skip(0) =~= name@);
    while start < chars.len() && chars[start] == '/'
        invariant
            chars@ == name@,
            start <= chars@.len(),
            without_slashes(name@) == without_slashes(name@.skip(start as int)),
        decreases chars@.len() - start,
    {
        assert(name@.skip(start as int).drop_first() =~= name@.skip(start + 1));
        start += 1;
    }
    let ghost tail = name@.skip(start as int);
    let mut trimmed = String::new();
    for i in start..chars.len()
        invariant
            chars@ == name@,
            start <= chars@.len(),
            tail == name@.skip(start as int),
            trimmed@ == tail.take(i - start),
    {
        trimmed.push(chars[i]);
        assert(trimmed@ =~= tail.take(i + 1 - start));
    }
    assert(tail.take(tail.len() as int) =~= tail);
    trimmed
}

/// The name of a listed container.
pub fn first_name(container: &ContainerSummary) -> (name: String)
    ensures
        name@ == container@.first_name(),
{
    if let Some(names) = &container.names {
        if names.len() > 0 {
            assert(names.deep_view()[0] == names@[0]@);
            return trim_slashes(&names[0]);
        }
    }
    "unknown".to_owned()
}

fn service_of(container: &ContainerSummary) -> (service: Option<String>)
    ensures
        service.deep_view() == container@.service(),
{
    let Some(labels) = &container.labels else {
        return None;
    };
    let ghost views = labels.deep_view();
    assert(views.skip(0) =~= views);
    for i in 0..labels.len()
        invariant
            views == labels.deep_view(),
            container.labels == Some(*labels),
            label_value(views, "com.docker.compose.service"@) == label_value(
                views.skip(i as int),
                "com.docker.compose.service"@,
            ),
    {
        assert(views[i as int] == (labels@[i as int].0@, labels@[i as int].1@));
        assert(views.skip(i as int)[0] == views[i as int]);
        assert(views.skip(i as int).drop_first() =~= views.skip(i + 1));
        if text::same_text(&labels[i].0, "com.docker.compose.service") {
            return Some(labels[i].1.clone());
        }
    }
    None
}

/// Writes the ports of a container.
pub fn format_ports(ports: &Vec<Port>) -> (texts: Vec<String>)
    ensures
        texts.deep_view() == ports.deep_view().map_values(|port: PortModel| port.text()),
{
    let ghost wanted = ports.deep_view().map_values(|port: PortModel| port.text());
    let mut texts: Vec<String> = Vec::new();
    for i in 0..ports.len()
        invariant
            wanted == ports.deep_view().map_values(|port: PortModel| port.text()),
            texts.deep_view() == wanted.take(i as int),
    {
        let port = &ports[i];
        let text = match (port.public_port, &port.typ) {
            (Some(public), Some(kind)) => text::decimal(public as u64).concat("->").concat(
                &text::decimal(port.private_port as u64),
            ).concat("/").concat(kind),
            (None, Some(kind)) => text::decimal(port.private_port as u64).concat("/").concat(kind),
            (_, None) => "unknown".to_owned(),
        };
        let ghost before = texts.deep_view();
        assert(ports.deep_view()[i as int] == port@);
        assert(text@ == wanted[i as int]);
        texts.push(text);
        assert(texts.deep_view() =~= before.push(wanted[i as int]));
        assert(texts.deep_view() =~= wanted.take(i + 1));
    }
    assert(wanted.take(wanted.len() as int) =~= wanted);
    texts
}

fn text_or_unknown(value: &Option<String>) -> (text: String)
    ensures
        text@ == or_unknown(value.deep_view()),
{
    match value {
        Some(text) => text.clone(),
        None => "unknown".to_owned(),
    }
}

/// The state of a container: as listed, else as inspected.
pub fn container_state(container: &ContainerSummary, inspect: &ContainerInspectResponse) -> (state:
    String)
    ensures
        state@ == container@.state_given(inspect@),
{
    match &container.state {
        Some(state) => state.clone(),
        None => text_or_unknown(&inspect_state(inspect)),
    }
}

/// A container as it is shown.
pub fn container_status(
    container: &ContainerSummary,
    inspect: &ContainerInspectResponse,
    metrics: Option<ContainerMetrics>,
) -> (status: ContainerStatus)
    ensures
        status@ == container@.status_given(inspect@, metrics),
{
    let ports = match &container.ports {
        Some(ports) => format_ports(ports),
        None => Vec::new(),
    };
    assert(ports.deep_view() =~= container@.port_texts());
    ContainerStatus {
        id: text_or_unknown(&container.id),
        name: first_name(container),
        service: service_of(container),
        image: container.image.clone(),
        state: container_state(container, inspect),
        health: inspect_health(inspect),
        status: container.status.clone(),
        started_at: inspect_started_at(inspect),
        ports,
        metrics,
    }
}

/// A project whose containers are being loaded: the one at hand, those to come, those done.
#[derive(Debug)]
pub struct LoadingProject {
    pub project: Project,
    pub current: ContainerSummary,
    pub inspected: Option<ContainerInspectResponse>,
    pub rest: Vec<ContainerSummary>,
    pub done: Vec<ContainerStatus>,
}

/// A [`LoadingProject`] as plain values.
#[verifier::ext_equal]
pub struct LoadingModel {
    pub project: ProjectModel,
    pub current: ListedModel,
    pub inspected: Option<InspectModel>,
    pub rest: Seq<ListedModel>,
    pub done: Seq<ContainerModel>,
}

impl View for LoadingProject {
    type V = LoadingModel;

    open spec fn view(&self) -> LoadingModel {
        LoadingModel {
            project: self.project@,
            current: self.current@,
            inspected: self.inspected.deep_view(),
            rest: self.rest.deep_view(),
            done: self.done.deep_view(),
        }
    }
}

impl DeepView for LoadingProject {
    type V = LoadingModel;

    open spec fn deep_view(&self) -> LoadingModel {
        self@
    }
}

/// Loads the state of several projects, one after the other.
#[derive(Debug)]
pub struct StatusLoader {
    pub waiting: Vec<Project>,
    pub loading: Option<LoadingProject>,
    pub statuses: Vec<ProjectStatus>,
}

/// A [`StatusLoader`] as plain values.
#[verifier::ext_equal]
pub struct LoaderModel {
    pub waiting: Seq<ProjectModel>,
    pub loading: Option<LoadingModel>,
    pub statuses: Seq<StatusModel>,
}

impl View for StatusLoader {
    type V = LoaderModel;

    open spec fn view(&self) -> LoaderModel {
        LoaderModel {
            waiting: self.waiting.deep_view(),
            loading: self.loading.deep_view(),
            statuses: self.statuses.deep_view(),
        }
    }
}

/// A question to Docker.
#[derive(Debug)]
pub enum DockerRequest {
    /// List all containers that carry a label, running or not.
    List { label: String },
    /// Inspect a container.
    Inspect { id: String },
    /// Read the counters of a container.
    Measure { id: String },
}

/// A [`DockerRequest`] as plain values.
#[verifier::ext_equal]
pub enum RequestModel {
    List { label: Seq<char> },
    Inspect { id: Seq<char> },
    Measure { id: Seq<char> },
}

impl View for DockerRequest {
    type V = RequestModel;

    open spec fn view(&self) -> RequestModel {
        match self {
            DockerRequest::List { label } => RequestModel::List { label: label@ },
            DockerRequest::Inspect { id } => RequestModel::Inspect { id: id@ },
            DockerRequest::Measure { id } => RequestModel::Measure { id: id@ },
        }
    }
}

impl DeepView for DockerRequest {
    type V = RequestModel;

    open spec fn deep_view(&self) -> RequestModel {
        self@
    }
}

/// The state of a project whose containers are known.
pub open spec fn loaded_status(project: ProjectModel, containers: Seq<ContainerModel>) -> StatusModel {
    StatusModel { project, summary: docker_api::summary_of(containers), containers, error: None }
}

/// The state of a project that nothing is known of, and why.
pub open spec fn failed_status(
    project: ProjectModel,
    state: ProjectState,
    message: Seq<char>,
) -> StatusModel {
    StatusModel {
        project,
        summary: docker_api::bare_summary(state, HealthSummary::Unknown),
        containers: seq![],
        error: Some(message),
    }
}

impl LoaderModel {
    /// A loader before its first question.
    pub open spec fn start(projects: Seq<ProjectModel>) -> LoaderModel {
        LoaderModel { waiting: projects, loading: None, statuses: seq![] }
    }

    /// The next question, or nothing once all is loaded.
    pub open spec fn request(self) -> Option<RequestModel> {
        match self.loading {
            Some(loading) => if loading.inspected is None {
                Some(RequestModel::Inspect { id: loading.current.id_text() })
            } else {
                Some(RequestModel::Measure { id: loading.current.id_text() })
            },
            None => if self.waiting.len() > 0 {
                Some(
                    RequestModel::List {
                        label: "com.docker.compose.project="@ + self.waiting[0].name,
                    },
                )
            } else {
                None
            },
        }
    }

    /// The loader once a project is through.
    pub open spec fn with_status(self, status: StatusModel) -> LoaderModel {
        LoaderModel { loading: None, statuses: self.statuses.push(status), ..self }
    }

    /// The loader once the containers of the next project have been listed, or could not be.
    pub open spec fn listed(self, containers: Option<Seq<ListedModel>>) -> LoaderModel {
        let project = self.waiting[0];
        let rest = LoaderModel { waiting: self.waiting.drop_first(), ..self };
        match containers {
            None => rest.with_status(
                failed_status(
                    project,
                    ProjectState::Error,
                    "failed to list containers for "@ + project.name,
                ),
            ),
            Some(containers) => if containers.len() == 0 {
                rest.with_status(loaded_status(project, seq![]))
            } else {
                LoaderModel {
                    loading: Some(
                        LoadingModel {
                            project,
                            current: containers[0],
                            inspected: None,
                            rest: containers.drop_first(),
                            done: seq![],
                        },
                    ),
                    ..rest
                }
            },
        }
    }

    /// The loader once the container at hand is through.
    pub open spec fn container_done(self, status: ContainerModel) -> LoaderModel {
        let loading = self.loading->0;
        let done = loading.done.push(status);
        if loading.rest.len() == 0 {
            self.with_status(loaded_status(loading.project, done))
        } else {
            LoaderModel {
                loading: Some(
                    LoadingModel {
                        project: loading.project,
                        current: loading.rest[0],
                        inspected: None,
                        rest: loading.rest.drop_first(),
                        done,
                    },
                ),
                ..self
            }
        }
    }

    /// The loader once the container at hand has been inspected, or could not be. A container that
    /// is running is measured too; one that cannot be inspected fails its project.
    pub open spec fn inspected(self, inspect: Option<InspectModel>) -> LoaderModel {
        let loading = self.loading->0;
        match inspect {
            None => self.with_status(
                failed_status(
                    loading.project,
                    ProjectState::Error,
                    "failed to inspect container "@ + loading.current.id_text(),
                ),
            ),
            Some(inspect) => if loading.current.state_given(inspect) == "running"@ {
                LoaderModel {
                    loading: Some(LoadingModel { inspected: Some(inspect), ..loading }),
                    ..self
                }
            } else {
                self.container_done(loading.current.status_given(inspect, None))
            },
        }
    }

    /// The loader once the container at hand has been measured, or could not be: it then has no
    /// metrics.
    pub open spec fn measured(self, metrics: Option<ContainerMetrics>) -> LoaderModel {
        let loading = self.loading->0;
        self.container_done(loading.current.status_given(loading.inspected->0, metrics))
    }

    /// All projects of the loader: those through, the one at hand, those waiting.
    pub open spec fn projects(self) -> Seq<ProjectModel> {
        self.statuses.map_values(|status: StatusModel| status.project) + (match self.loading {
            Some(loading) => seq![loading.project],
            None => seq![],
        }) + self.waiting
    }

    /// How many containers of the project at hand are left.
    pub open spec fn containers_left(self) -> nat {
        match self.loading {
            Some(loading) => loading.rest.len() + 1,
            None => 0,
        }
    }
}

fn failed(project: Project, state: ProjectState, message: String) -> (status: ProjectStatus)
    ensures
        status@ == failed_status(project@, state, message@),
{
    let status = ProjectStatus {
        project,
        summary: ProjectSummary {
            state,
            health: HealthSummary::Unknown,
            running_containers: 0,
            total_containers: 0,
            metrics: None,
        },
        containers: Vec::new(),
        error: Some(message),
    };
    assert(status.containers.deep_view() =~= seq![]);
    status
}

fn loaded(project: Project, containers: Vec<ContainerStatus>) -> (status: ProjectStatus)
    ensures
        status@ == loaded_status(project@, containers.deep_view()),
{
    let summary = docker_api::summarize_project(&containers);
    ProjectStatus { project, summary, containers, error: None }
}

impl StatusLoader {
    /// A loader for the given projects.
    pub fn new(projects: Vec<Project>) -> (loader: StatusLoader)
        ensures
            loader@ == LoaderModel::start(projects.deep_view()),
    {
        let loader = StatusLoader { waiting: projects, loading: None, statuses: Vec::new() };
        assert(loader.statuses.deep_view() =~= seq![]);
        loader
    }

    /// The next question, or nothing once all is loaded.
    pub fn request(&self) -> (request: Option<DockerRequest>)
        ensures
            request.deep_view() == self@.request(),
    {
        if let Some(loading) = &self.loading {
            let id = text_or_unknown(&loading.current.id);
            return match &loading.inspected {
                None => Some(DockerRequest::Inspect { id }),
                Some(_) => Some(DockerRequest::Measure { id }),
            };
        }
        if self.waiting.len() == 0 {
            return None;
        }
        assert(self@.waiting[0] == self.waiting@[0]@);
        Some(
            DockerRequest::List {
                label: "com.docker.compose.project=".to_owned().concat(&self.waiting[0].name),
            },
        )
    }

    fn push_status(&mut self, status: ProjectStatus)
        requires
            old(self)@.loading is None,
        ensures
            final(self)@ == old(self)@.with_status(status@),
    {
        let ghost before = self@;
        self.statuses.push(status);
        assert(self.statuses.deep_view() =~= before.statuses.push(status@));
    }

    /// Takes the containers of the project that was asked for, or nothing where the question failed.
    pub fn listed(&mut self, containers: Option<Vec<ContainerSummary>>)
        requires
            old(self)@.request() is Some,
            old(self)@.request()->0 is List,
        ensures
            final(self)@ == old(self)@.listed(containers.deep_view()),
    {
        let ghost before = self@;
        let project = self.waiting.remove(0);
        assert(self.waiting.deep_view() =~= before.waiting.drop_first());
        assert(project@ == before.waiting[0]);
        match containers {
            None => {
                let message = "failed to list containers for ".to_owned().concat(&project.name);
                self.push_status(failed(project, ProjectState::Error, message));
            },
            Some(mut containers) => {
                let ghost all = containers.deep_view();
                if containers.len() == 0 {
                    let none: Vec<ContainerStatus> = Vec::new();
                    assert(none.deep_view() =~= seq![]);
                    self.push_status(loaded(project, none));
                } else {
                    let current = containers.remove(0);
                    assert(containers.deep_view() =~= all.drop_first());
                    assert(current@ == all[0]);
                    let loading = LoadingProject {
                        project,
                        current,
                        inspected: None,
                        rest: containers,
                        done: Vec::new(),
                    };
                    assert(loading.done.deep_view() =~= seq![]);
                    self.loading = Some(loading);
                }
            },
        }
    }

    fn finish_container(&mut self, loading: LoadingProject, status: ContainerStatus)
        requires
            old(self)@.loading is None,
        ensures
            final(self)@ == (LoaderModel {
                loading: Some(loading@),
                ..old(self)@
            }).container_done(status@),
    {
        let ghost before = loading@;
        let mut done = loading.done;
        done.push(status);
        assert(done.deep_view() =~= before.done.push(status@));
        let mut rest = loading.rest;
        if rest.len() == 0 {
            self.push_status(loaded(loading.project, done));
        } else {
            let current = rest.remove(0);
            assert(rest.deep_view() =~= before.rest.drop_first());
            assert(current@ == before.rest[0]);
            self.loading = Some(
                LoadingProject { project: loading.project, current, inspected: None, rest, done },
            );
        }
    }

    /// Takes the inspection that was asked for, or nothing where the question failed.
    pub fn inspected(&mut self, inspect: Option<ContainerInspectResponse>)
        requires
            old(self)@.request() is Some,
            old(self)@.request()->0 is Inspect,
        ensures
            final(self)@ == old(self)@.inspected(inspect.deep_view()),
    {
        if let Some(mut loading) = self.loading.take() {
            match inspect {
                None => {
                    let message = "failed to inspect container ".to_owned().concat(
                        &text_or_unknown(&loading.current.id),
                    );
                    self.push_status(failed(loading.project, ProjectState::Error, message));
                },
                Some(inspect) => {
                    let state = container_state(&loading.current, &inspect);
                    if text::same_text(&state, "running") {
                        loading.inspected = Some(inspect);
                        self.loading = Some(loading);
                    } else {
                        let status = container_status(&loading.current, &inspect, None);
                        self.finish_container(loading, status);
                    }
                },
            }
        }
    }

    /// Takes the reading that was asked for, or nothing where the question failed.
    pub fn measured(&mut self, stats: Option<Stats>)
        requires
            old(self)@.request() is Some,
            old(self)@.request()->0 is Measure,
        ensures
            final(self)@ == old(self)@.measured(
                match stats {
                    Some(stats) => Some(metrics::metrics_of_stats(stats)),
                    None => None,
                },
            ),
    {
        let metrics = match stats {
            Some(stats) => Some(metrics::container_metrics_from_stats(&stats)),
            None => None,
        };
        if let Some(loading) = self.loading.take() {
            if let Some(inspect) = &loading.inspected {
                let status = container_status(&loading.current, inspect, metrics);
                self.finish_container(loading, status);
            }
        }
    }

    /// What has been loaded.
    pub fn into_statuses(self) -> (statuses: Vec<ProjectStatus>)
        ensures
            statuses.deep_view() == self@.statuses,
    {
        self.statuses
    }
}

/// The state of projects when Docker cannot be reached.
pub fn unavailable_statuses(projects: &Vec<Project>, error: &str) -> (statuses: Vec<ProjectStatus>)
    ensures
        statuses.deep_view() == projects.deep_view().map_values(
            |project: ProjectModel|
                failed_status(
                    project,
                    ProjectState::Unknown,
                    "docker api unavailable: "@ + error@,
                ),
        ),
{
    let ghost wanted = projects.deep_view().map_values(
        |project: ProjectModel|
            failed_status(project, ProjectState::Unknown, "docker api unavailable: "@ + error@),
    );
    let mut statuses: Vec<ProjectStatus> = Vec::new();
    for i in 0..projects.len()
        invariant
            wanted == projects.deep_view().map_values(
                |project: ProjectModel|
                    failed_status(
                        project,
                        ProjectState::Unknown,
                        "docker api unavailable: "@ + error@,
                    ),
            ),
            statuses.deep_view() == wanted.take(i as int),
    {
        let message = "docker api unavailable: ".to_owned().concat(error);
        let status = failed(projects[i].clone(), ProjectState::Unknown, message);
        let ghost before = statuses.deep_view();
        assert(projects.deep_view()[i as int] == projects@[i as int]@);
        assert(status@ == wanted[i as int]);
        statuses.push(status);
        assert(statuses.deep_view() =~= before.push(wanted[i as int]));
        assert(statuses.deep_view() =~= wanted.take(i + 1));
    }
    assert(wanted.take(wanted.len() as int) =~= wanted);
    statuses
}

/// Whatever Docker answers, no project is lost, added or moved: each answer keeps the list of
/// projects, and a loader that asks nothing more has a status for each project, in their order.
pub proof fn loader_keeps_projects(
    loader: LoaderModel,
    containers: Option<Seq<ListedModel>>,
    inspect: Option<InspectModel>,
    metrics: Option<ContainerMetrics>,
)
    ensures
        loader.request() matches Some(RequestModel::List { .. }) ==> loader.listed(
            containers,
        ).projects() == loader.projects(),
        loader.request() matches Some(RequestModel::Inspect { .. }) ==> loader.inspected(
            inspect,
        ).projects() == loader.projects(),
        loader.request() matches Some(RequestModel::Measure { .. }) ==> loader.measured(
            metrics,
        ).projects() == loader.projects(),
        loader.request() is None ==> loader.projects() == loader.statuses.map_values(
            |status: StatusModel| status.project,
        ),
{
    let listed = loader.listed(containers);
    let inspected = loader.inspected(inspect);
    let measured = loader.measured(metrics);
    if loader.request() matches Some(RequestModel::List { .. }) {
        assert(listed.projects() =~= loader.projects());
    }
    if loader.request() matches Some(RequestModel::Inspect { .. }) {
        assert(inspected.projects() =~= loader.projects());
    }
    if loader.request() matches Some(RequestModel::Measure { .. }) {
        assert(measured.projects() =~= loader.projects());
    }
    if loader.request() is None {
        assert(loader.projects() =~= loader.statuses.map_values(
            |status: StatusModel| status.project,
        ));
    }
}

/// Loading comes to an end: each answer leaves fewer projects waiting, or as many and fewer
/// containers of the project at hand, or as many of both and a container that has been inspected.
pub proof fn loading_ends(
    loader: LoaderModel,
    containers: Option<Seq<ListedModel>>,
    inspect: Option<InspectModel>,
    metrics: Option<ContainerMetrics>,
)
    ensures
        loader.request() matches Some(RequestModel::List { .. }) ==> loader.listed(
            containers,
        ).waiting.len() < loader.waiting.len(),
        loader.request() matches Some(RequestModel::Inspect { .. }) ==> {
            let next = loader.inspected(inspect);
            &&& next.waiting == loader.waiting
            &&& next.containers_left() < loader.containers_left() || (next.containers_left()
                == loader.containers_left() && next.request() matches Some(
                RequestModel::Measure { .. },
            ))
        },
        loader.request() matches Some(RequestModel::Measure { .. }) ==> {
            let next = loader.measured(metrics);
            next.waiting == loader.waiting && next.containers_left() < loader.containers_left()
        },
{
}

/// What Docker answers: the containers of each project, what an inspection of each container says,
/// and what a reading of it says.
#[verifier::ext_equal]
pub struct Answers {
    pub containers: spec_fn(int) -> Option<Seq<ListedModel>>,
    pub inspections: spec_fn(int, int) -> Option<InspectModel>,
    pub readings: spec_fn(int, int) -> Option<ContainerMetrics>,
}

impl Answers {
    /// The container at `index` of a project, as it is shown. Only a running container is measured.
    pub open spec fn container(self, project: int, listed: ListedModel, index: int) -> ContainerModel {
        let inspect = (self.inspections)(project, index)->0;
        listed.status_given(
            inspect,
            if listed.state_given(inspect) == "running"@ {
                (self.readings)(project, index)
            } else {
                None
            },
        )
    }

    /// The first `count` containers of a project, as they are shown.
    pub open spec fn shown_containers(
        self,
        project: int,
        list: Seq<ListedModel>,
        count: nat,
    ) -> Seq<ContainerModel> {
        Seq::new(count, |index: int| self.container(project, list[index], index))
    }

    /// Whether the container at `index` is the first of a project that cannot be inspected.
    pub open spec fn fails_at(self, project: int, list: Seq<ListedModel>, index: int) -> bool {
        &&& 0 <= index < list.len()
        &&& (self.inspections)(project, index) is None
        &&& forall|j: int| 0 <= j < index ==> #[trigger] (self.inspections)(project, j) is Some
    }

    /// The state of the project at `index`.
    pub open spec fn status(self, project: ProjectModel, index: int) -> StatusModel {
        match (self.containers)(index) {
            None => failed_status(
                project,
                ProjectState::Error,
                "failed to list containers for "@ + project.name,
            ),
            Some(list) => if exists|at: int| self.fails_at(index, list, at) {
                let at = choose|at: int| self.fails_at(index, list, at);
                failed_status(
                    project,
                    ProjectState::Error,
                    "failed to inspect container "@ + list[at].id_text(),
                )
            } else {
                loaded_status(project, self.shown_containers(index, list, list.len()))
            },
        }
    }

    /// The state of the first `count` projects.
    pub open spec fn statuses(self, projects: Seq<ProjectModel>, count: nat) -> Seq<StatusModel> {
        Seq::new(count, |index: int| self.status(projects[index], index))
    }
}

impl LoaderModel {
    /// How many answers on the container at hand are certain to come.
    pub open spec fn answers_due(self) -> nat {
        match self.loading {
            Some(loading) => if loading.inspected is None {
                2
            } else {
                1
            },
            None => 0,
        }
    }
}

/// A loader run to its end, where Docker answers as told. The project that is listed next is the one
/// at `project`.
pub open spec fn load_to_end(loader: LoaderModel, answers: Answers, project: int) -> LoaderModel
    decreases loader.waiting.len(), loader.containers_left(), loader.answers_due(),
{
    match loader.loading {
        Some(loading) => {
            let container = loading.done.len() as int;
            if loading.inspected is None {
                load_to_end(
                    loader.inspected((answers.inspections)(project - 1, container)),
                    answers,
                    project,
                )
            } else {
                load_to_end(
                    loader.measured((answers.readings)(project - 1, container)),
                    answers,
                    project,
                )
            }
        },
        None => if loader.waiting.len() > 0 {
            load_to_end(loader.listed((answers.containers)(project)), answers, project + 1)
        } else {
            loader
        },
    }
}

spec fn on_course(
    loader: LoaderModel,
    projects: Seq<ProjectModel>,
    answers: Answers,
    project: int,
) -> bool {
    &&& 0 <= project <= projects.len()
    &&& loader.waiting == projects.skip(project)
    &&& loader.loading is None ==> loader.statuses == answers.statuses(projects, project as nat)
    &&& loader.loading matches Some(loading) ==> {
        let list = (answers.containers)(project - 1)->0;
        let at = loading.done.len() as int;
        &&& project > 0
        &&& loader.statuses == answers.statuses(projects, (project - 1) as nat)
        &&& loading.project == projects[project - 1]
        &&& (answers.containers)(project - 1) is Some
        &&& at < list.len()
        &&& loading.current == list[at]
        &&& loading.rest == list.skip(at + 1)
        &&& loading.done == answers.shown_containers(project - 1, list, at as nat)
        &&& forall|j: int| 0 <= j < at ==> #[trigger] (answers.inspections)(project - 1, j) is Some
        &&& loading.inspected matches Some(inspect) ==> {
            &&& (answers.inspections)(project - 1, at) == Some(inspect)
            &&& loading.current.state_given(inspect) == "running"@
        }
    }
}

proof fn status_settled(
    loader: LoaderModel,
    projects: Seq<ProjectModel>,
    answers: Answers,
    project: int,
    status: StatusModel,
)
    requires
        0 < project <= projects.len(),
        loader.waiting == projects.skip(project),
        loader.statuses == answers.statuses(projects, (project - 1) as nat),
        status == answers.status(projects[project - 1], project - 1),
    ensures
        on_course(loader.with_status(status), projects, answers, project),
{
    assert(loader.with_status(status).statuses =~= answers.statuses(projects, project as nat));
}

proof fn container_settled(
    loader: LoaderModel,
    projects: Seq<ProjectModel>,
    answers: Answers,
    project: int,
)
    requires
        on_course(loader, projects, answers, project),
        loader.loading is Some,
        (answers.inspections)(project - 1, loader.loading->0.done.len() as int) is Some,
    ensures
        on_course(
            loader.container_done(
                answers.container(
                    project - 1,
                    loader.loading->0.current,
                    loader.loading->0.done.len() as int,
                ),
            ),
            projects,
            answers,
            project,
        ),
{
    let loading = loader.loading->0;
    let list = (answers.containers)(project - 1)->0;
    let at = loading.done.len() as int;
    let container = answers.container(project - 1, loading.current, at);
    let done = loading.done.push(container);
    assert(done =~= answers.shown_containers(project - 1, list, (at + 1) as nat));
    if loading.rest.len() == 0 {
        assert(list.len() == at + 1);
        let index = project - 1;
        assert forall|other: int| !answers.fails_at(index, list, other) by {
            if answers.fails_at(index, list, other) {
                assert((answers.inspections)(project - 1, other) is Some);
            }
        }
        status_settled(loader, projects, answers, project, loaded_status(loading.project, done));
    } else {
        assert(loading.rest[0] == list[at + 1]);
        assert(loading.rest.drop_first() =~= list.skip(at + 2));
    }
}

proof fn loading_stays_on_course(
    loader: LoaderModel,
    projects: Seq<ProjectModel>,
    answers: Answers,
    project: int,
)
    requires
        on_course(loader, projects, answers, project),
    ensures
        load_to_end(loader, answers, project).statuses == answers.statuses(
            projects,
            projects.len(),
        ),
    decreases loader.waiting.len(), loader.containers_left(), loader.answers_due(),
{
    match loader.loading {
        Some(loading) => {
            let list = (answers.containers)(project - 1)->0;
            let at = loading.done.len() as int;
            if loading.inspected is None {
                let inspect = (answers.inspections)(project - 1, at);
                let next = loader.inspected(inspect);
                if inspect is None {
                    assert(answers.fails_at(project - 1, list, at));
                    let index = project - 1;
                    let other = choose|other: int| answers.fails_at(index, list, other);
                    assert(other == at) by {
                        if other < at {
                            assert((answers.inspections)(project - 1, other) is Some);
                        }
                        if at < other {
                            assert((answers.inspections)(project - 1, at) is Some);
                        }
                    }
                    status_settled(
                        loader,
                        projects,
                        answers,
                        project,
                        answers.status(projects[project - 1], project - 1),
                    );
                } else if loading.current.state_given(inspect->0) != "running"@ {
                    container_settled(loader, projects, answers, project);
                }
                loading_stays_on_course(next, projects, answers, project);
            } else {
                container_settled(loader, projects, answers, project);
                loading_stays_on_course(
                    loader.measured((answers.readings)(project - 1, at)),
                    projects,
                    answers,
                    project,
                );
            }
        },
        None => {
            if loader.waiting.len() > 0 {
                let rest = LoaderModel { waiting: loader.waiting.drop_first(), ..loader };
                assert(loader.waiting[0] == projects[project]);
                assert(rest.waiting =~= projects.skip(project + 1));
                match (answers.containers)(project) {
                    None => {
                        status_settled(
                            rest,
                            projects,
                            answers,
                            project + 1,
                            answers.status(projects[project], project),
                        );
                    },
                    Some(list) => {
                        if list.len() == 0 {
                            assert(answers.shown_containers(project, list, 0) =~= seq![]);
                            assert(!exists|other: int| answers.fails_at(project, list, other));
                            status_settled(
                                rest,
                                projects,
                                answers,
                                project + 1,
                                answers.status(projects[project], project),
                            );
                        } else {
                            assert(answers.shown_containers(project, list, 0) =~= seq![]);
                            assert(list.drop_first() =~= list.skip(1));
                        }
                    },
                }
                loading_stays_on_course(
                    loader.listed((answers.containers)(project)),
                    projects,
                    answers,
                    project + 1,
                );
            }
        },
    }
}

/// Whatever Docker answers, the loader comes to the state of each project by itself: an error where
/// its containers cannot be listed or one of them cannot be inspected, else all its containers, with
/// metrics for those that run.
pub proof fn loader_loads_each_project(projects: Seq<ProjectModel>, answers: Answers)
    ensures
        load_to_end(LoaderModel::start(projects), answers, 0).statuses == answers.statuses(
            projects,
            projects.len(),
        ),
{
    assert(projects.skip(0) =~= projects);
    assert(answers.statuses(projects, 0) =~= seq![]);
    loading_stays_on_course(LoaderModel::start(projects), projects, answers, 0);
}

} // verus!
